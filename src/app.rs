//! The wizard's session state and its transitions.
//!
//! Leaving the result screen goes back to the main screen and keeps the
//! session's selections, command and exit code; a new pass through the
//! screens overwrites each of them as it is confirmed again.
use vstd::prelude::*;
use crate::command::{scaffold_command, scaffold_text, Platform};
use crate::process::{exit_code, exit_code_of, RunReport};
use crate::sanitize::{sanitise, sanitised};
use crate::text::{push_char, without_last};

verus! {

/// The screen the wizard currently shows.
#[derive(Clone, Copy, Debug, PartialEq, Eq, Structural)]
pub enum CurrentScreen {
    Main,
    SelectProjectType,
    SelectProjectName,
    SelectProjectFolder,
    CreateProject,
    ProjectCreated,
}

/// The kinds of project the wizard can scaffold, in their declared order.
#[derive(Clone, Copy, Debug, PartialEq, Eq, Structural)]
pub enum ProjectTypes {
    Python,
    UvPython,
    Rust,
    CmakeCpp,
}

/// The logical key of a key event.
#[derive(Clone, Copy, Debug, PartialEq, Eq, Structural)]
pub enum KeyCode {
    Char(char),
    Enter,
    Backspace,
    Up,
    Down,
    Other,
}

/// Whether a key went down (or repeats) or was released.
#[derive(Clone, Copy, Debug, PartialEq, Eq, Structural)]
pub enum KeyKind {
    Press,
    Release,
}

/// One key event delivered to the wizard.
#[derive(Clone, Copy, Debug, PartialEq, Eq, Structural)]
pub struct KeyEvent {
    pub code: KeyCode,
    pub kind: KeyKind,
}

/// What the caller of the state machine does after an event.
#[derive(Clone, Copy, Debug, PartialEq, Eq, Structural)]
pub enum Action {
    /// Draw the new state and deliver the next event.
    Continue,
    /// End the session.
    Quit,
    /// Run the stored command, then report how it ended.
    RunCommand,
}

/// The state of one wizard session.
pub struct App {
    /// The project currently being created, if any.
    pub current_project: Option<String>,
    /// The type of project being created.
    pub project_type: ProjectTypes,
    /// The sanitised name, once the name screen has been confirmed.
    pub project_name: Option<String>,
    /// The sanitised folder, once the folder screen has been confirmed.
    pub project_folder: Option<String>,
    /// The synthesised scaffold command, once the project was confirmed.
    pub command: Option<String>,
    /// The text typed on the name or folder screen.
    pub text_input: String,
    /// The screen being displayed.
    pub current_screen: CurrentScreen,
    /// The exit code the scaffold command finished with.
    pub exit_code: Option<i32>,
}

/// The mathematical model of an [`App`]: its strings as character sequences.
pub struct AppView {
    pub current_project: Option<Seq<char>>,
    pub project_type: ProjectTypes,
    pub project_name: Option<Seq<char>>,
    pub project_folder: Option<Seq<char>>,
    pub command: Option<Seq<char>>,
    pub text_input: Seq<char>,
    pub current_screen: CurrentScreen,
    pub exit_code: Option<i32>,
}

impl View for App {
    type V = AppView;

    open spec fn view(&self) -> AppView {
        AppView {
            current_project: self.current_project.deep_view(),
            project_type: self.project_type,
            project_name: self.project_name.deep_view(),
            project_folder: self.project_folder.deep_view(),
            command: self.command.deep_view(),
            text_input: self.text_input@,
            current_screen: self.current_screen,
            exit_code: self.exit_code,
        }
    }
}

/// The state a new session starts in.
pub open spec fn initial_view() -> AppView {
    AppView {
        current_project: None,
        project_type: ProjectTypes::Python,
        project_name: None,
        project_folder: None,
        command: None,
        text_input: Seq::empty(),
        current_screen: CurrentScreen::Main,
        exit_code: None,
    }
}

/// A key press of `code`.
pub open spec fn press(code: KeyCode) -> KeyEvent {
    KeyEvent { code, kind: KeyKind::Press }
}

/// The screens on which text is typed, and where `q` is text.
pub open spec fn is_text_screen(s: CurrentScreen) -> bool {
    s == CurrentScreen::SelectProjectName || s == CurrentScreen::SelectProjectFolder
}

/// The project type after `t` in the declared order, the first after the last.
pub open spec fn next_type(t: ProjectTypes) -> ProjectTypes {
    match t {
        ProjectTypes::Python => ProjectTypes::UvPython,
        ProjectTypes::UvPython => ProjectTypes::Rust,
        ProjectTypes::Rust => ProjectTypes::CmakeCpp,
        ProjectTypes::CmakeCpp => ProjectTypes::Python,
    }
}

/// The project type before `t` in the declared order, the last before the first.
pub open spec fn previous_type(t: ProjectTypes) -> ProjectTypes {
    match t {
        ProjectTypes::Python => ProjectTypes::CmakeCpp,
        ProjectTypes::UvPython => ProjectTypes::Python,
        ProjectTypes::Rust => ProjectTypes::UvPython,
        ProjectTypes::CmakeCpp => ProjectTypes::Rust,
    }
}

/// The typed text after a key that edits it: a character is appended,
/// backspace removes the last character if there is one.
pub open spec fn edited(input: Seq<char>, code: KeyCode) -> Seq<char> {
    match code {
        KeyCode::Char(c) => input.push(c),
        KeyCode::Backspace => if input.len() > 0 {
            input.drop_last()
        } else {
            input
        },
        _ => input,
    }
}

/// The session once the scaffold command has been synthesised from the
/// chosen type, name and folder; unchanged while a name or folder is missing.
pub open spec fn saved(v: AppView, p: Platform) -> AppView {
    match (v.project_name, v.project_folder) {
        (Some(name), Some(folder)) => AppView {
            command: Some(scaffold_text(v.project_type, name, folder, p)),
            ..v
        },
        _ => v,
    }
}

/// The transition on a key event on a name or folder screen, where Enter
/// commits non-empty text, sanitised, with `commit`.
pub open spec fn text_step(v: AppView, code: KeyCode, commit: spec_fn(AppView, Seq<char>) -> AppView) -> AppView {
    match code {
        KeyCode::Enter => if v.text_input.len() > 0 {
            AppView { text_input: Seq::empty(), ..commit(v, sanitised(v.text_input)) }
        } else {
            v
        },
        _ => AppView { text_input: edited(v.text_input, code), ..v },
    }
}

/// The session and the action after the key event `ev`.
pub open spec fn step(v: AppView, ev: KeyEvent, p: Platform) -> (AppView, Action) {
    if ev.kind == KeyKind::Release {
        (v, Action::Continue)
    } else if ev.code == KeyCode::Char('q') && !is_text_screen(v.current_screen) {
        (v, Action::Quit)
    } else {
        match v.current_screen {
            CurrentScreen::Main => if ev.code == KeyCode::Char('e') {
                (AppView { current_screen: CurrentScreen::SelectProjectType, ..v }, Action::Continue)
            } else {
                (v, Action::Continue)
            },
            CurrentScreen::SelectProjectType => (
                match ev.code {
                    KeyCode::Up => AppView { project_type: previous_type(v.project_type), ..v },
                    KeyCode::Down => AppView { project_type: next_type(v.project_type), ..v },
                    KeyCode::Enter => AppView {
                        current_screen: CurrentScreen::SelectProjectName,
                        text_input: Seq::empty(),
                        ..v
                    },
                    _ => v,
                },
                Action::Continue,
            ),
            CurrentScreen::SelectProjectName => (
                text_step(
                    v,
                    ev.code,
                    |w: AppView, name: Seq<char>|
                        AppView {
                            project_name: Some(name),
                            current_screen: CurrentScreen::SelectProjectFolder,
                            ..w
                        },
                ),
                Action::Continue,
            ),
            CurrentScreen::SelectProjectFolder => (
                text_step(
                    v,
                    ev.code,
                    |w: AppView, folder: Seq<char>|
                        AppView {
                            project_folder: Some(folder),
                            current_screen: CurrentScreen::CreateProject,
                            ..w
                        },
                ),
                Action::Continue,
            ),
            CurrentScreen::CreateProject => if ev.code == KeyCode::Enter {
                (saved(v, p), Action::RunCommand)
            } else {
                (v, Action::Continue)
            },
            CurrentScreen::ProjectCreated => (
                AppView { current_screen: CurrentScreen::Main, ..v },
                Action::Continue,
            ),
        }
    }
}

/// The session once the scaffold command has ended as `report`: its exit
/// code is kept and the result screen shown. Outside the confirmation screen
/// a report changes nothing.
pub open spec fn finished(v: AppView, report: RunReport) -> AppView {
    if v.current_screen == CurrentScreen::CreateProject {
        AppView {
            exit_code: Some(exit_code_of(report)),
            current_screen: CurrentScreen::ProjectCreated,
            ..v
        }
    } else {
        v
    }
}

/// The invariant of a session that only [`App::new`], [`App::handle_key`]
/// and [`App::command_finished`] have changed: text is only held on the
/// name and folder screens, each screen after those has what they
/// committed, and the result screen has an exit code as well.
pub open spec fn wf(v: AppView) -> bool {
    &&& !is_text_screen(v.current_screen) ==> v.text_input.len() == 0
    &&& v.project_name matches Some(name) ==> name.len() > 0
    &&& v.project_folder matches Some(folder) ==> folder.len() > 0
    &&& v.current_screen == CurrentScreen::SelectProjectFolder ==> v.project_name is Some
    &&& v.current_screen == CurrentScreen::CreateProject ==> v.project_name is Some
        && v.project_folder is Some
    &&& v.current_screen == CurrentScreen::ProjectCreated ==> v.project_name is Some
        && v.project_folder is Some && v.exit_code is Some
}

impl App {
    /// A new session on the main screen, with the first project type chosen
    /// and nothing entered yet.
    pub fn new() -> (r: App)
        ensures
            r@ == initial_view(),
            wf(r@),
    {
        App {
            current_project: None,
            project_type: ProjectTypes::Python,
            project_name: None,
            project_folder: None,
            command: None,
            text_input: String::new(),
            current_screen: CurrentScreen::Main,
            exit_code: None,
        }
    }

    /// Synthesises the scaffold command for the chosen type, name and folder
    /// and stores it; does nothing while the name or the folder is missing.
    pub fn save_project(&mut self, platform: Platform)
        ensures
            final(self)@ == saved(old(self)@, platform),
    {
        if let Some(project_folder) = &self.project_folder {
            if let Some(project_name) = &self.project_name {
                let command = scaffold_command(
                    self.project_type,
                    project_name.as_str(),
                    project_folder.as_str(),
                    platform,
                );
                self.command = Some(command);
            }
        }
    }

    /// Replaces every character of the typed text that is not a word
    /// character or `-` by `_`.
    pub fn sanitise_input(&mut self)
        ensures
            final(self)@ == (AppView { text_input: sanitised(old(self)@.text_input), ..old(self)@ }),
    {
        self.text_input = sanitise(self.text_input.as_str());
    }

    /// Applies a key that edits the typed text.
    fn edit_input(&mut self, code: KeyCode)
        ensures
            final(self)@ == (AppView { text_input: edited(old(self)@.text_input, code), ..old(self)@ }),
    {
        match code {
            KeyCode::Char(c) => push_char(&mut self.text_input, c),
            KeyCode::Backspace => {
                self.text_input = without_last(self.text_input.as_str());
            },
            _ => {},
        }
    }

    /// Handles one key event and says what the caller does next. On the
    /// confirmation screen Enter stores the scaffold command and asks for it
    /// to be run; the caller then reports the run with
    /// [`App::command_finished`].
    pub fn handle_key(&mut self, key: KeyEvent, platform: Platform) -> (r: Action)
        ensures
            (final(self)@, r) == step(old(self)@, key, platform),
    {
        if let KeyKind::Release = key.kind {
            return Action::Continue;
        }
        let text_screen = match self.current_screen {
            CurrentScreen::SelectProjectName | CurrentScreen::SelectProjectFolder => true,
            _ => false,
        };
        if let KeyCode::Char('q') = key.code {
            if !text_screen {
                return Action::Quit;
            }
        }
        match self.current_screen {
            CurrentScreen::Main => {
                if let KeyCode::Char('e') = key.code {
                    self.current_screen = CurrentScreen::SelectProjectType;
                }
            },
            CurrentScreen::SelectProjectType => {
                match key.code {
                    KeyCode::Up => {
                        self.project_type = match self.project_type {
                            ProjectTypes::Python => ProjectTypes::CmakeCpp,
                            ProjectTypes::UvPython => ProjectTypes::Python,
                            ProjectTypes::Rust => ProjectTypes::UvPython,
                            ProjectTypes::CmakeCpp => ProjectTypes::Rust,
                        };
                    },
                    KeyCode::Down => {
                        self.project_type = match self.project_type {
                            ProjectTypes::Python => ProjectTypes::UvPython,
                            ProjectTypes::UvPython => ProjectTypes::Rust,
                            ProjectTypes::Rust => ProjectTypes::CmakeCpp,
                            ProjectTypes::CmakeCpp => ProjectTypes::Python,
                        };
                    },
                    KeyCode::Enter => {
                        self.current_screen = CurrentScreen::SelectProjectName;
                        self.text_input = String::new();
                    },
                    _ => {},
                }
            },
            CurrentScreen::SelectProjectName => {
                if let KeyCode::Enter = key.code {
                    if self.text_input.as_str().unicode_len() > 0 {
                        self.sanitise_input();
                        self.project_name = Some(self.text_input.clone());
                        self.current_screen = CurrentScreen::SelectProjectFolder;
                        self.text_input = String::new();
                    }
                } else {
                    self.edit_input(key.code);
                }
            },
            CurrentScreen::SelectProjectFolder => {
                if let KeyCode::Enter = key.code {
                    if self.text_input.as_str().unicode_len() > 0 {
                        self.sanitise_input();
                        self.project_folder = Some(self.text_input.clone());
                        self.current_screen = CurrentScreen::CreateProject;
                        self.text_input = String::new();
                    }
                } else {
                    self.edit_input(key.code);
                }
            },
            CurrentScreen::CreateProject => {
                if let KeyCode::Enter = key.code {
                    self.save_project(platform);
                    return Action::RunCommand;
                }
            },
            CurrentScreen::ProjectCreated => {
                self.current_screen = CurrentScreen::Main;
            },
        }
        Action::Continue
    }

    /// Keeps the exit code of the finished scaffold command and shows the
    /// result screen; outside the confirmation screen it does nothing.
    pub fn command_finished(&mut self, report: RunReport)
        ensures
            final(self)@ == finished(old(self)@, report),
    {
        if let CurrentScreen::CreateProject = self.current_screen {
            self.exit_code = Some(exit_code(report));
            self.current_screen = CurrentScreen::ProjectCreated;
        }
    }
}


/// The four project types.
pub open spec fn all_types() -> Set<ProjectTypes> {
    set![ProjectTypes::Python, ProjectTypes::UvPython, ProjectTypes::Rust, ProjectTypes::CmakeCpp]
}

/// Outside the name and folder screens a press of `q` ends the session and
/// changes nothing; on those screens `q` is typed like any other character.
pub proof fn lemma_q_key(v: AppView, p: Platform)
    ensures
        !is_text_screen(v.current_screen) ==> step(v, press(KeyCode::Char('q')), p) == (
        v,
        Action::Quit,
        ),
        is_text_screen(v.current_screen) ==> step(v, press(KeyCode::Char('q')), p) == (
        AppView { text_input: v.text_input.push('q'), ..v },
        Action::Continue,
        ),
{
}

/// Four presses of Down on the type screen pass through every project type
/// and come back to the session they started from.
pub proof fn lemma_down_cycle(v: AppView, p: Platform)
    requires
        v.current_screen == CurrentScreen::SelectProjectType,
    ensures
        ({
            let s1 = step(v, press(KeyCode::Down), p).0;
            let s2 = step(s1, press(KeyCode::Down), p).0;
            let s3 = step(s2, press(KeyCode::Down), p).0;
            let s4 = step(s3, press(KeyCode::Down), p).0;
            &&& s4 == v
            &&& set![v.project_type, s1.project_type, s2.project_type, s3.project_type]
                == all_types()
        }),
{
    let s1 = step(v, press(KeyCode::Down), p).0;
    let s2 = step(s1, press(KeyCode::Down), p).0;
    let s3 = step(s2, press(KeyCode::Down), p).0;
    assert(set![v.project_type, s1.project_type, s2.project_type, s3.project_type]
        =~= all_types());
}

/// Four presses of Up on the type screen pass through every project type and
/// come back to the session they started from.
pub proof fn lemma_up_cycle(v: AppView, p: Platform)
    requires
        v.current_screen == CurrentScreen::SelectProjectType,
    ensures
        ({
            let s1 = step(v, press(KeyCode::Up), p).0;
            let s2 = step(s1, press(KeyCode::Up), p).0;
            let s3 = step(s2, press(KeyCode::Up), p).0;
            let s4 = step(s3, press(KeyCode::Up), p).0;
            &&& s4 == v
            &&& set![v.project_type, s1.project_type, s2.project_type, s3.project_type]
                == all_types()
        }),
{
    let s1 = step(v, press(KeyCode::Up), p).0;
    let s2 = step(s1, press(KeyCode::Up), p).0;
    let s3 = step(s2, press(KeyCode::Up), p).0;
    assert(set![v.project_type, s1.project_type, s2.project_type, s3.project_type]
        =~= all_types());
}

/// On the type screen Up then Down, and Down then Up, give back the session
/// they started from.
pub proof fn lemma_up_down_inverse(v: AppView, p: Platform)
    requires
        v.current_screen == CurrentScreen::SelectProjectType,
    ensures
        step(step(v, press(KeyCode::Up), p).0, press(KeyCode::Down), p).0 == v,
        step(step(v, press(KeyCode::Down), p).0, press(KeyCode::Up), p).0 == v,
{
}

/// Enter with no typed text on the name or folder screen changes nothing,
/// so the screen stays.
pub proof fn lemma_enter_without_text(v: AppView, p: Platform)
    requires
        is_text_screen(v.current_screen),
        v.text_input.len() == 0,
    ensures
        step(v, press(KeyCode::Enter), p) == (v, Action::Continue),
{
}

/// Backspace with no typed text leaves the text empty; on the name and
/// folder screens it changes nothing at all.
pub proof fn lemma_backspace_without_text(v: AppView, p: Platform)
    requires
        v.text_input.len() == 0,
    ensures
        step(v, press(KeyCode::Backspace), p).0.text_input.len() == 0,
        is_text_screen(v.current_screen) ==> step(v, press(KeyCode::Backspace), p) == (
        v,
        Action::Continue,
        ),
{
}

/// On the confirmation screen of a session that keeps the invariant, Enter
/// stores the command synthesised from the chosen type, name and folder, and
/// asks for that command to be run; nothing else changes.
pub proof fn lemma_confirm_runs_command(v: AppView, p: Platform)
    requires
        wf(v),
        v.current_screen == CurrentScreen::CreateProject,
    ensures
        step(v, press(KeyCode::Enter), p) == (
        AppView {
            command: Some(
                scaffold_text(v.project_type, v.project_name->0, v.project_folder->0, p),
            ),
            ..v
        },
        Action::RunCommand,
        ),
{
}

/// A key event keeps the session invariant.
pub proof fn lemma_step_wf(v: AppView, ev: KeyEvent, p: Platform)
    requires
        wf(v),
    ensures
        wf(step(v, ev, p).0),
{
}

/// A finished command keeps the session invariant.
pub proof fn lemma_finished_wf(v: AppView, report: RunReport)
    requires
        wf(v),
    ensures
        wf(finished(v, report)),
{
}

/// Once set, the name, the folder, the command and the exit code stay set:
/// an event may replace them but never clears them.
pub proof fn lemma_selections_stay_set(v: AppView, ev: KeyEvent, p: Platform, report: RunReport)
    ensures
        ({
            let w = step(v, ev, p).0;
            &&& v.project_name is Some ==> w.project_name is Some
            &&& v.project_folder is Some ==> w.project_folder is Some
            &&& v.command is Some ==> w.command is Some
            &&& v.exit_code is Some ==> w.exit_code is Some
        }),
        ({
            let w = finished(v, report);
            &&& v.project_name == w.project_name
            &&& v.project_folder == w.project_folder
            &&& v.command == w.command
            &&& v.exit_code is Some ==> w.exit_code is Some
        }),
{
}

} // verus!
