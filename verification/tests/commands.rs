use window_shell::OperationError;
use window_shell::WindowAction;
use window_shell::WindowModel;
use window_shell::complete_operation;
use window_shell::get_system_info;
use window_shell::minimize_window;
use window_shell::set_window_title;
use window_shell::toggle_action;
use window_shell::toggle_maximize;

#[test]
fn system_info_exact_format() {
    assert_eq!(get_system_info("linux", "x86_64"), "OS: linux, Arch: x86_64");
    assert_eq!(get_system_info("macos", "aarch64"), "OS: macos, Arch: aarch64");
    assert_eq!(get_system_info("", ""), "OS: , Arch: ");
}

#[test]
fn system_info_deterministic() {
    let first = get_system_info("windows", "x86");
    let second = get_system_info("windows", "x86");
    assert_eq!(first, second);
}

#[test]
fn absent_window_set_title_is_success() {
    let decision = set_window_title(false, String::from("Example"));
    assert!(decision.is_none());
    assert!(complete_operation(None).is_ok());
}

#[test]
fn absent_window_minimize_is_success() {
    let decision = minimize_window(false);
    assert!(decision.is_none());
    assert!(complete_operation(None).is_ok());
}

#[test]
fn absent_window_toggle_is_success() {
    match toggle_maximize(None) {
        Ok(decision) => assert!(decision.is_none()),
        Err(_) => panic!("absence of the window must not be an error"),
    }
    assert!(complete_operation(None).is_ok());
}

#[test]
fn set_title_decision_carries_the_title() {
    match set_window_title(true, String::from("hello")) {
        Some(WindowAction::SetTitle(t)) => assert_eq!(t, "hello"),
        _ => panic!("window present: the set-title action must be decided"),
    }
}

#[test]
fn set_title_then_query_returns_it() {
    let w = WindowModel {
        title: String::from("old title"),
        minimized: false,
        maximized: true,
    };
    let action = match set_window_title(true, String::from("Example")) {
        Some(a) => a,
        None => panic!("window present: an action must be decided"),
    };
    let w = w.apply_action(action);
    assert_eq!(w.title, "Example");
    assert!(!w.minimized);
    assert!(w.maximized);
}

#[test]
fn minimize_already_minimized_does_not_error() {
    let w = WindowModel {
        title: String::from("shell"),
        minimized: true,
        maximized: false,
    };
    let action = match minimize_window(true) {
        Some(a) => a,
        None => panic!("window present: an action must be decided"),
    };
    let w = w.apply_action(action);
    assert!(w.minimized);
    assert_eq!(w.title, "shell");
    assert!(!w.maximized);
    assert!(complete_operation(Some(Ok(()))).is_ok());
}

#[test]
fn toggle_twice_restores() {
    let w = WindowModel {
        title: String::from("shell"),
        minimized: false,
        maximized: false,
    };
    let first = toggle_action(w.maximized);
    assert!(matches!(first, WindowAction::Maximize));
    let w = w.apply_action(first);
    assert!(w.maximized);
    let second = toggle_action(w.maximized);
    assert!(matches!(second, WindowAction::Unmaximize));
    let w = w.apply_action(second);
    assert!(!w.maximized);
    assert_eq!(w.title, "shell");
    assert!(!w.minimized);
}

#[test]
fn toggle_decision_through_command() {
    match toggle_maximize(Some(Ok(false))) {
        Ok(Some(a)) => assert!(matches!(a, WindowAction::Maximize)),
        _ => panic!("a successful query on a present window must decide an action"),
    }
    match toggle_maximize(Some(Ok(true))) {
        Ok(Some(a)) => assert!(matches!(a, WindowAction::Unmaximize)),
        _ => panic!("a successful query on a present window must decide an action"),
    }
}

#[test]
fn os_failure_surfaces_with_its_text() {
    let r = complete_operation(Some(Err(String::from("window system unavailable"))));
    match r {
        Ok(()) => panic!("an OS failure must surface as an error"),
        Err(e) => {
            assert_eq!(e.description(), "window system unavailable");
            assert!(!e.description().is_empty());
        }
    }
}

#[test]
fn query_failure_surfaces_with_its_text() {
    match toggle_maximize(Some(Err(String::from("state query refused")))) {
        Ok(_) => panic!("a failed query must surface as an error"),
        Err(e) => {
            assert_eq!(e.description(), "state query refused");
            assert!(!e.description().is_empty());
        }
    }
}

#[test]
fn successful_call_completes_ok() {
    assert!(complete_operation(Some(Ok(()))).is_ok());
}

#[test]
fn from_os_error_keeps_text() {
    let e = OperationError::from_os_error(String::from("boom"));
    assert_eq!(e.description(), "boom");
}
