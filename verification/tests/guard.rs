use gluegun_core::cli::{check_invocation, RunError};

fn strings(items: &[&str]) -> Vec<String> {
    items.iter().map(|s| s.to_string()).collect()
}

#[test]
fn marker_alone_is_accepted() {
    let args = strings(&["gg"]);
    assert!(check_invocation(&args).is_ok());
}

#[test]
fn marker_with_trailing_arguments_is_accepted() {
    let args = strings(&["gg", "extra"]);
    assert!(check_invocation(&args).is_ok());
}

#[test]
fn empty_argument_list_is_rejected() {
    let args: Vec<String> = Vec::new();
    match check_invocation(&args) {
        Err(RunError::InvocationError) => {}
        _ => panic!("expected InvocationError"),
    }
}

#[test]
fn other_first_argument_is_rejected() {
    let args = strings(&["other"]);
    match check_invocation(&args) {
        Err(RunError::InvocationError) => {}
        _ => panic!("expected InvocationError"),
    }
}

#[test]
fn marker_not_in_first_position_is_rejected() {
    let args = strings(&["helper", "gg"]);
    match check_invocation(&args) {
        Err(RunError::InvocationError) => {}
        _ => panic!("expected InvocationError"),
    }
}
