use text_vc_error_bomber::interaction::{button_action, is_status_command, ButtonAction};

#[test]
fn ok_button_deletes_warning() {
    assert_eq!(button_action("button_ok", 1, &vec![2]), ButtonAction::DeleteWarning);
}

#[test]
fn ng_button_by_author_deletes_both() {
    assert_eq!(
        button_action("button_ng", 2, &vec![5, 2]),
        ButtonAction::DeleteWarningAndMessage
    );
}

#[test]
fn ng_button_by_someone_else_is_refused() {
    assert_eq!(button_action("button_ng", 3, &vec![2]), ButtonAction::RefuseNotAuthor);
    assert_eq!(button_action("button_ng", 3, &vec![]), ButtonAction::RefuseNotAuthor);
}

#[test]
fn other_buttons_are_ignored() {
    assert_eq!(button_action("button", 2, &vec![2]), ButtonAction::Ignore);
    assert_eq!(button_action("", 2, &vec![2]), ButtonAction::Ignore);
}

#[test]
fn status_command_is_recognised() {
    assert!(is_status_command("status"));
    assert!(!is_status_command("statu"));
    assert!(!is_status_command("status2"));
}
