//! The HELP tool: returns the help page of a cloud CLI subcommand.

use vstd::prelude::*;

use crate::agent::command_param;
use crate::agent::spec_command_param;
use crate::app_config::Goal;
use crate::llm::messages::ToolParam as InputParam;
use crate::strutil::spec_starts_with;
use crate::strutil::str_starts_with;
use crate::tools::ParamType;
use crate::tools::ToolParam;
use crate::tools::ToolSpec;
use crate::tools::ToolSpecView;

verus! {

/// What a HELP invocation decides: answer the model with a reply string, or
/// run a help command and answer with its captured output.
pub enum HelpOutcome {
    /// Answer the model directly with this text.
    Reply(String),
    /// Run this command line and answer with what it prints.
    Run(String),
}

/// The mathematical content of a [`HelpOutcome`].
#[verifier::ext_equal]
pub enum HelpOutcomeView {
    /// Answer the model directly.
    Reply(Seq<char>),
    /// Run this command line.
    Run(Seq<char>),
}

impl View for HelpOutcome {
    type V = HelpOutcomeView;

    open spec fn view(&self) -> HelpOutcomeView {
        match self {
            HelpOutcome::Reply(s) => HelpOutcomeView::Reply(s@),
            HelpOutcome::Run(s) => HelpOutcomeView::Run(s@),
        }
    }
}

/// Whether the command begins with one of the program names allowed for the
/// goal.
pub open spec fn spec_allowed_command(goal: Goal, cmd: Seq<char>) -> bool {
    match goal {
        Goal::Gcp => spec_starts_with(cmd, "gcloud "@) || spec_starts_with(cmd, "bq "@)
            || spec_starts_with(cmd, "gsutil "@),
        Goal::Aws => spec_starts_with(cmd, "aws "@),
        Goal::Azure => spec_starts_with(cmd, "az "@),
    }
}

/// The guidance returned when the command starts with no allowed program
/// name.
pub open spec fn spec_prefix_guidance(goal: Goal) -> Seq<char> {
    match goal {
        Goal::Gcp => "command must start with \"gcloud \",  \"bq  \", or  \"gsutil  \"."@,
        Goal::Aws => "command must start with \"aws \"."@,
        Goal::Azure => "command must start with \"az \"."@,
    }
}

/// The help flag appended for the goal's CLI.
pub open spec fn spec_help_suffix(goal: Goal) -> Seq<char> {
    match goal {
        Goal::Gcp => " --help"@,
        Goal::Aws => " help"@,
        Goal::Azure => " --help"@,
    }
}

/// What a HELP invocation decides: a malformed parameter list or a
/// disallowed program name answers the model with a diagnostic reply; an
/// allowed command runs with the help flag appended.
pub open spec fn spec_help_call(goal: Goal, params: Seq<(Seq<char>, crate::json::JsonView)>) -> HelpOutcomeView {
    match spec_command_param(params) {
        Err(d) => HelpOutcomeView::Reply(d),
        Ok(cmd) => if spec_allowed_command(goal, cmd) {
            HelpOutcomeView::Run(cmd + spec_help_suffix(goal))
        } else {
            HelpOutcomeView::Reply(spec_prefix_guidance(goal))
        },
    }
}

/// The declaration of the HELP tool.
pub open spec fn spec_help_tool_spec() -> ToolSpecView {
    ToolSpecView {
        name: "HELP"@,
        description: "Returns a help page for a specific CLI tool subcommand."@,
        params: seq![
            crate::tools::ToolParamView {
                name: "command"@,
                description: "command for which the help is required"@,
                data_type: ParamType::String,
                required: true,
            },
        ],
    }
}

/// The HELP tool: help pages for the goal's cloud CLI.
pub struct Help {
    goal: Goal,
}

impl Help {
    /// The goal the tool serves.
    pub closed spec fn spec_goal(self) -> Goal {
        self.goal
    }

    /// Create an instance for a goal.
    pub fn new(goal: Goal) -> (r: Help)
        ensures
            r.spec_goal() == goal,
    {
        Help { goal }
    }

    /// Return the tool specification.
    pub fn get_tool_spec(&self) -> (r: ToolSpec)
        ensures
            r@ == spec_help_tool_spec(),
    {
        let mut params: Vec<ToolParam> = Vec::new();
        params.push(
            ToolParam {
                name: "command".to_owned(),
                description: "command for which the help is required".to_owned(),
                data_type: ParamType::String,
                required: true,
            },
        );
        let r = ToolSpec {
            name: "HELP".to_owned(),
            description: "Returns a help page for a specific CLI tool subcommand.".to_owned(),
            params,
        };
        proof {
            assert(r@.params =~= spec_help_tool_spec().params);
        }
        r
    }

    /// Check the parameters and decide what the invocation does.
    pub fn call_tool(&self, params: &Vec<InputParam>) -> (r: HelpOutcome)
        ensures
            r@ == spec_help_call(
                self.spec_goal(),
                crate::llm::messages::params_view(params@),
            ),
    {
        let cmd = match command_param(params) {
            Ok(c) => c,
            Err(d) => {
                return HelpOutcome::Reply(d.to_owned());
            },
        };
        let allowed = match self.goal {
            Goal::Gcp => str_starts_with(cmd.as_str(), "gcloud ") || str_starts_with(
                cmd.as_str(),
                "bq ",
            ) || str_starts_with(cmd.as_str(), "gsutil "),
            Goal::Aws => str_starts_with(cmd.as_str(), "aws "),
            Goal::Azure => str_starts_with(cmd.as_str(), "az "),
        };
        if !allowed {
            let guidance = match self.goal {
                Goal::Gcp => "command must start with \"gcloud \",  \"bq  \", or  \"gsutil  \".",
                Goal::Aws => "command must start with \"aws \".",
                Goal::Azure => "command must start with \"az \".",
            };
            return HelpOutcome::Reply(guidance.to_owned());
        }
        let mut full = cmd.clone();
        match self.goal {
            Goal::Gcp => full.append(" --help"),
            Goal::Aws => full.append(" help"),
            Goal::Azure => full.append(" --help"),
        }
        HelpOutcome::Run(full)
    }
}

} // verus!
