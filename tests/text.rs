use project_wizard::{
    exit_code, sanitise, visible_tail, CurrentScreen, ProjectTypes, RunReport, LAUNCH_FAILED,
};

fn allowed(c: char) -> bool {
    c.is_alphanumeric() || c == '_' || c == '-'
}

#[test]
fn sanitise_replaces_other_characters() {
    assert_eq!(sanitise("My Project!@# Name"), "My_Project____Name");
    assert_eq!(sanitise("My Proj!"), "My_Proj_");
    assert_eq!(sanitise("out dir"), "out_dir");
}

#[test]
fn sanitise_keeps_allowed_text() {
    assert_eq!(sanitise("a-b_C9"), "a-b_C9");
    assert_eq!(sanitise("héllo wörld"), "héllo_wörld");
}

#[test]
fn sanitise_empty() {
    assert_eq!(sanitise(""), "");
}

#[test]
fn sanitise_shape_and_idempotence() {
    for s in ["a b/c", "x.y:z", "tab\there", "émoji 🚀!", "__--", "q"] {
        let once = sanitise(s);
        assert_eq!(once.chars().count(), s.chars().count());
        assert!(once.chars().all(allowed));
        for (a, b) in s.chars().zip(once.chars()) {
            if allowed(a) {
                assert_eq!(a, b);
            }
        }
        assert_eq!(sanitise(&once), once);
    }
    assert_eq!(sanitise("émoji 🚀!"), "émoji___");
}

#[test]
fn exit_codes() {
    assert_eq!(exit_code(RunReport::NotStarted), LAUNCH_FAILED);
    assert_eq!(LAUNCH_FAILED, -1);
    assert_eq!(exit_code(RunReport::Exited { success: true, code: Some(0) }), 0);
    assert_eq!(exit_code(RunReport::Exited { success: false, code: Some(2) }), 2);
    assert_eq!(exit_code(RunReport::Exited { success: false, code: None }), -1);
}

#[test]
fn labels() {
    assert_eq!(ProjectTypes::Python.label(), "Python");
    assert_eq!(ProjectTypes::UvPython.label(), "Python with UV");
    assert_eq!(ProjectTypes::Rust.label(), "Rust");
    assert_eq!(ProjectTypes::CmakeCpp.label(), "C++ with CMake");
    assert_eq!(CurrentScreen::Main.title(), "No Projects");
    assert_eq!(CurrentScreen::CreateProject.title(), "Confirm Project");
    assert_eq!(CurrentScreen::Main.key_hint(), "(q) quit / (e) new project");
    assert_eq!(CurrentScreen::SelectProjectName.key_hint(), "(enter) continue");
    assert_eq!(CurrentScreen::ProjectCreated.key_hint(), "(q) quit / (enter) continue");
}

#[test]
fn visible_tail_cases() {
    assert_eq!(visible_tail("abcdef", 0), "");
    assert_eq!(visible_tail("abc", 3), "abc");
    assert_eq!(visible_tail("abcdef", 1), "f");
    assert_eq!(visible_tail("abcdef", 3), "def");
    assert_eq!(visible_tail("abcdef", 4), "\u{2026}def");
    assert_eq!(visible_tail("éééé", 3), "ééé");
}
