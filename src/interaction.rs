use crate::model::UserId;
use vstd::prelude::*;
use vstd::string::StringExecFns;

verus! {

/// Name of the subcommand that asks for a status dump.
pub const STATUS_COMMAND: &'static str = "status";

/// Identifier of the warning button that keeps the message and drops the warning.
pub const BUTTON_OK_ID: &'static str = "button_ok";

/// Identifier of the warning button that drops both the warning and the message.
pub const BUTTON_NG_ID: &'static str = "button_ng";

/// What to do when a button of a warning is pressed.
#[derive(Clone, Copy, Debug, PartialEq, Eq, Structural)]
pub enum ButtonAction {
    /// Delete the warning.
    DeleteWarning,
    /// Delete the warning and the message it answers.
    DeleteWarningAndMessage,
    /// Tell the presser that only the message's author may do this.
    RefuseNotAuthor,
    /// The button is not one of the warning's.
    Ignore,
}

fn same_text(a: &str, b: &str) -> (r: bool)
    ensures
        r == (a@ == b@),
{
    String::from_str(a) == String::from_str(b)
}

/// Whether the first option of a command names the status subcommand.
pub fn is_status_command(option_name: &str) -> (r: bool)
    ensures
        r == (option_name@ == STATUS_COMMAND@),
{
    same_text(option_name, STATUS_COMMAND)
}

/// The action for a press of button `custom_id` by `presser` on a warning
/// that mentions the users `mentioned` (the author of the warned message).
pub fn button_action(custom_id: &str, presser: UserId, mentioned: &Vec<UserId>) -> (r: ButtonAction)
    ensures
        r == (if custom_id@ == BUTTON_OK_ID@ {
            ButtonAction::DeleteWarning
        } else if custom_id@ == BUTTON_NG_ID@ {
            if mentioned@.contains(presser) {
                ButtonAction::DeleteWarningAndMessage
            } else {
                ButtonAction::RefuseNotAuthor
            }
        } else {
            ButtonAction::Ignore
        }),
{
    if same_text(custom_id, BUTTON_OK_ID) {
        ButtonAction::DeleteWarning
    } else if same_text(custom_id, BUTTON_NG_ID) {
        let mut i: usize = 0;
        while i < mentioned.len()
            invariant
                i <= mentioned@.len(),
                custom_id@ == BUTTON_NG_ID@,
                custom_id@ != BUTTON_OK_ID@,
                forall|j: int| 0 <= j < i ==> mentioned@[j] != presser,
            decreases mentioned.len() - i,
        {
            if mentioned[i] == presser {
                assert(mentioned@[i as int] == presser);
                return ButtonAction::DeleteWarningAndMessage;
            }
            i = i + 1;
        }
        ButtonAction::RefuseNotAuthor
    } else {
        ButtonAction::Ignore
    }
}

} // verus!
