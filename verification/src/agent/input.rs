//! What the outer loop does with a line of user input, and how a tool call
//! is put before the user.

use vstd::prelude::*;
use crate::permissions::manager::{PermissionRequest, PermissionRequestView};
use crate::text::{concat, is_blank, lowercase_of, lowercased, str_eq, trimmed};
use crate::tools::tool::{ToolInfo, ToolInfoView};

verus! {

/// What to do with a line of user input.
#[derive(Clone, Copy, Debug, PartialEq, Eq, Structural)]
pub enum InputAction {
    /// The user asks to leave: end the outer loop.
    Quit,
    /// The line is empty: wait for the next.
    Skip,
    /// The line is a message: start a turn with it.
    Process,
}

/// What to do with a line of user input. `exit` and `quit`, in any case,
/// end the session; a line of white space is skipped; any other line is a
/// message.
pub open spec fn input_action(input: Seq<char>) -> InputAction {
    if lowercased(input) == "exit"@ || lowercased(input) == "quit"@ {
        InputAction::Quit
    } else if trimmed(input).len() == 0 {
        InputAction::Skip
    } else {
        InputAction::Process
    }
}

/// Says what to do with a line of user input.
pub fn classify_input(input: &str) -> (r: InputAction)
    ensures
        r == input_action(input@),
{
    let lower = lowercase_of(input);
    if str_eq(lower.as_str(), "exit") || str_eq(lower.as_str(), "quit") {
        InputAction::Quit
    } else if is_blank(input) {
        InputAction::Skip
    } else {
        InputAction::Process
    }
}

/// The request that is put before the user for a call of the tool `name`:
/// what the tool says of the call, or, where it says nothing, the tool's
/// name.
pub open spec fn request_for(name: Seq<char>, info: Option<ToolInfoView>) -> PermissionRequestView {
    match info {
        Some(i) => PermissionRequestView {
            tool_name: i.name,
            action_description: i.action_description,
            details: i.details,
        },
        None => PermissionRequestView {
            tool_name: name,
            action_description: "Execute tool: "@ + name,
            details: None,
        },
    }
}

/// The request that is put before the user for a tool call.
pub fn permission_request(name: &str, info: Option<ToolInfo>) -> (r: PermissionRequest)
    ensures
        r.deep_view() == request_for(name@, info.deep_view()),
{
    match info {
        Some(i) => PermissionRequest {
            tool_name: i.name,
            action_description: i.action_description,
            details: i.details,
        },
        None => PermissionRequest::new(name, concat("Execute tool: ", name).as_str()),
    }
}

} // verus!
