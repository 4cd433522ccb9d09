//! The SHELL tool: runs a command the model proposes, gated behind human
//! confirmation.

use vstd::prelude::*;

use crate::agent::command_param;
use crate::agent::spec_command_param;
use crate::llm::messages::ToolParam as InputParam;
use crate::tools::ParamType;
use crate::tools::ToolParam;
use crate::tools::ToolSpec;
use crate::tools::ToolSpecView;
use crate::util::spec_trim;
use crate::util::str_trim;

verus! {

/// What a SHELL invocation decides: answer the model with a reply string,
/// or put this command to the human for confirmation.
pub enum ShellOutcome {
    /// Answer the model directly with this text.
    Reply(String),
    /// Ask the human to confirm this command line.
    Confirm(String),
}

/// The mathematical content of a [`ShellOutcome`].
#[verifier::ext_equal]
pub enum ShellOutcomeView {
    /// Answer the model directly.
    Reply(Seq<char>),
    /// Ask the human to confirm this command line.
    Confirm(Seq<char>),
}

impl View for ShellOutcome {
    type V = ShellOutcomeView;

    open spec fn view(&self) -> ShellOutcomeView {
        match self {
            ShellOutcome::Reply(s) => ShellOutcomeView::Reply(s@),
            ShellOutcome::Confirm(s) => ShellOutcomeView::Confirm(s@),
        }
    }
}

/// What a SHELL invocation decides: a malformed parameter list answers the
/// model with a diagnostic reply; a well-formed one puts the command to the
/// human.
pub open spec fn spec_shell_call(params: Seq<(Seq<char>, crate::json::JsonView)>) -> ShellOutcomeView {
    match spec_command_param(params) {
        Err(d) => ShellOutcomeView::Reply(d),
        Ok(cmd) => ShellOutcomeView::Confirm(cmd),
    }
}

/// One step of the confirmation state machine.
#[derive(Debug, Clone, Copy, PartialEq, Eq, Structural)]
pub enum ConfirmAction {
    /// The human typed `y`: execute the command.
    Execute,
    /// The human typed `n`: ask for the reason, execute nothing.
    AskReason,
    /// Anything else: ask again, consuming no turn.
    Reprompt,
}

/// What one confirmation input drives the state machine to: `y` confirms,
/// `n` declines, anything else asks again.
pub open spec fn spec_confirm_step(input: Seq<char>) -> ConfirmAction {
    let t = spec_trim(input);
    if t == "y"@ {
        ConfirmAction::Execute
    } else if t == "n"@ {
        ConfirmAction::AskReason
    } else {
        ConfirmAction::Reprompt
    }
}

/// Drive the confirmation state machine one step on the human's input.
pub fn confirm_step(input: &str) -> (r: ConfirmAction)
    ensures
        r == spec_confirm_step(input@),
{
    let t = str_trim(input);
    proof {
        reveal_strlit("y");
        reveal_strlit("n");
    }
    if t.unicode_len() != 1 {
        proof {
            assert(t@ != "y"@ && t@ != "n"@);
        }
        return ConfirmAction::Reprompt;
    }
    let c = t.get_char(0);
    if c == 'y' {
        proof {
            assert(t@ =~= "y"@);
        }
        ConfirmAction::Execute
    } else if c == 'n' {
        proof {
            assert(t@ =~= "n"@);
        }
        ConfirmAction::AskReason
    } else {
        proof {
            assert(t@ != "y"@ && t@ != "n"@);
        }
        ConfirmAction::Reprompt
    }
}

/// The tool result reporting that the human declined, carrying the reason
/// verbatim.
pub open spec fn spec_declined_message(reason: Seq<char>) -> Seq<char> {
    "User cancelled the operation with the reason: "@ + reason
}

/// Build the tool result for a declined command from the human's reason.
pub fn declined_message(reason: &str) -> (r: String)
    ensures
        r@ == spec_declined_message(reason@),
{
    let mut s = "User cancelled the operation with the reason: ".to_owned();
    s.append(reason);
    s
}

/// The declaration of the SHELL tool.
pub open spec fn spec_shell_tool_spec() -> ToolSpecView {
    ToolSpecView {
        name: "SHELL"@,
        description: "Executes an arbitrary command in a Unix/Linux shell (sh) environment and returns its stdout and stderr. User may cancel execution of the command and will provide reason."@,
        params: seq![
            crate::tools::ToolParamView {
                name: "command"@,
                description: "command to execute"@,
                data_type: ParamType::String,
                required: true,
            },
        ],
    }
}

/// The SHELL tool: command execution under human confirmation.
pub struct Shell {}

impl Shell {
    /// Create an instance.
    pub fn new() -> Shell {
        Shell {  }
    }

    /// Return the tool specification.
    pub fn get_tool_spec(&self) -> (r: ToolSpec)
        ensures
            r@ == spec_shell_tool_spec(),
    {
        let description =
            "Executes an arbitrary command in a Unix/Linux shell (sh) environment and returns its stdout and stderr. User may cancel execution of the command and will provide reason.".to_owned();
        let mut params: Vec<ToolParam> = Vec::new();
        params.push(
            ToolParam {
                name: "command".to_owned(),
                description: "command to execute".to_owned(),
                data_type: ParamType::String,
                required: true,
            },
        );
        let r = ToolSpec { name: "SHELL".to_owned(), description, params };
        proof {
            assert(r@.params =~= spec_shell_tool_spec().params);
        }
        r
    }

    /// Check the parameters and decide what the invocation does.
    pub fn call_tool(&self, params: &Vec<InputParam>) -> (r: ShellOutcome)
        ensures
            r@ == spec_shell_call(crate::llm::messages::params_view(params@)),
    {
        match command_param(params) {
            Ok(c) => ShellOutcome::Confirm(c.clone()),
            Err(d) => ShellOutcome::Reply(d.to_owned()),
        }
    }
}

} // verus!
