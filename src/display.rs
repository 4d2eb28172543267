//! The texts that a presentation layer shows for the session's state.
use vstd::prelude::*;
use crate::app::{App, CurrentScreen, ProjectTypes};
use crate::text::push_char;

verus! {

/// The name a project type is shown under.
pub open spec fn type_label(t: ProjectTypes) -> Seq<char> {
    match t {
        ProjectTypes::Python => "Python"@,
        ProjectTypes::UvPython => "Python with UV"@,
        ProjectTypes::Rust => "Rust"@,
        ProjectTypes::CmakeCpp => "C++ with CMake"@,
    }
}

/// The title a screen is shown under.
pub open spec fn screen_title(s: CurrentScreen) -> Seq<char> {
    match s {
        CurrentScreen::Main => "No Projects"@,
        CurrentScreen::SelectProjectType => "Select Project"@,
        CurrentScreen::SelectProjectName => "Select Name"@,
        CurrentScreen::SelectProjectFolder => "Select Folder"@,
        CurrentScreen::CreateProject => "Confirm Project"@,
        CurrentScreen::ProjectCreated => "Project Created"@,
    }
}

/// The keys a screen offers.
pub open spec fn screen_keys(s: CurrentScreen) -> Seq<char> {
    match s {
        CurrentScreen::Main => "(q) quit / (e) new project"@,
        CurrentScreen::SelectProjectName => "(enter) continue"@,
        CurrentScreen::SelectProjectFolder => "(enter) continue"@,
        _ => "(q) quit / (enter) continue"@,
    }
}

/// What fits of `value` in `width` characters: all of it if it fits, else
/// its last characters, led by an ellipsis when there are more than three
/// places.
pub open spec fn visible_text(value: Seq<char>, width: nat) -> Seq<char> {
    if width == 0 {
        Seq::empty()
    } else if value.len() <= width {
        value
    } else if width <= 3 {
        value.subrange(value.len() - width, value.len() as int)
    } else {
        seq!['\u{2026}'] + value.subrange(value.len() - (width - 1), value.len() as int)
    }
}

impl ProjectTypes {
    /// The name this project type is shown under.
    pub fn label(&self) -> (r: &'static str)
        ensures
            r@ == type_label(*self),
    {
        match self {
            ProjectTypes::Python => "Python",
            ProjectTypes::UvPython => "Python with UV",
            ProjectTypes::Rust => "Rust",
            ProjectTypes::CmakeCpp => "C++ with CMake",
        }
    }
}

impl CurrentScreen {
    /// The title this screen is shown under.
    pub fn title(&self) -> (r: &'static str)
        ensures
            r@ == screen_title(*self),
    {
        match self {
            CurrentScreen::Main => "No Projects",
            CurrentScreen::SelectProjectType => "Select Project",
            CurrentScreen::SelectProjectName => "Select Name",
            CurrentScreen::SelectProjectFolder => "Select Folder",
            CurrentScreen::CreateProject => "Confirm Project",
            CurrentScreen::ProjectCreated => "Project Created",
        }
    }

    /// The keys this screen offers.
    pub fn key_hint(&self) -> (r: &'static str)
        ensures
            r@ == screen_keys(*self),
    {
        match self {
            CurrentScreen::Main => "(q) quit / (e) new project",
            CurrentScreen::SelectProjectName => "(enter) continue",
            CurrentScreen::SelectProjectFolder => "(enter) continue",
            _ => "(q) quit / (enter) continue",
        }
    }
}

impl App {
    /// Whether the scaffold command has run and exited with `0`.
    pub fn created_successfully(&self) -> (r: bool)
        ensures
            r == (self.exit_code == Some(0i32)),
    {
        match self.exit_code {
            Some(code) => code == 0,
            None => false,
        }
    }
}

/// What fits of `value` in a box `width` characters wide; see
/// [`visible_text`].
pub fn visible_tail(value: &str, width: usize) -> (r: String)
    ensures
        r@ == visible_text(value@, width as nat),
{
    let n = value.unicode_len();
    if width == 0 {
        String::new()
    } else if n <= width {
        String::from_str(value)
    } else if width <= 3 {
        String::from_str(value.substring_char(n - width, n))
    } else {
        let mut out = String::new();
        push_char(&mut out, '\u{2026}');
        out.append(value.substring_char(n - (width - 1), n));
        assert(out@ =~= visible_text(value@, width as nat));
        out
    }
}

} // verus!
