//! A terminal wizard that collects a project type, a name and a folder, and
//! turns them into the shell command that scaffolds the project.
//!
//! The library holds the wizard's state machine, the sanitiser for typed
//! text and the synthesis of the scaffold command. Drawing the screens,
//! reading keys and running the command belong to the program around it.

pub mod app;
pub mod command;
pub mod display;
pub mod process;
pub mod sanitize;
mod text;

pub use app::{Action, App, AppView, CurrentScreen, KeyCode, KeyEvent, KeyKind, ProjectTypes};
pub use command::{scaffold_command, Platform};
pub use display::visible_tail;
pub use process::{exit_code, RunReport, LAUNCH_FAILED};
pub use sanitize::sanitise;
