//! The system prompts handed to the chat at startup.

use vstd::prelude::*;

use crate::app_config::Goal;
use crate::error::AppError;
use crate::error::AppErrorView;

verus! {

/// The tool names the system prompt directs the model toward, per goal.
pub open spec fn spec_goal_tools(goal: Goal) -> Seq<char> {
    match goal {
        Goal::Gcp => "Google Cloud CLI tools gcloud, bq, gsutil"@,
        Goal::Aws => "AWS CLI aws"@,
        Goal::Azure => "Azure CLI az"@,
    }
}

/// The system prompt: the fixed instructions around the goal's tool names,
/// with the user's custom instructions inserted when given.
pub open spec fn spec_system_prompt(sys_add: Option<Seq<char>>, goal: Goal) -> Seq<char> {
    "You are an assistant called \"Apprentice\" that helps translate a user request into a valid call to the "@
        + spec_goal_tools(goal)
        + ".\nYou are in dialogue with the user. \nAfter each response from the user, you think and ALWAYS do one of the following actions:\n1. Produce the resulting command (use the SHELL tool).\n2. Ask the user a clarifying question.\n3. Request help page for a specific subcommand (use HELP tool).\n4. Reject the user request and specify the reason why it cannot be fulfilled.\nThe user can ask questions. You understand from the context that the user is asking a question and not giving you an answer, then you are doing one of the actions defined above.\nYou form your resulting command based on the information from your dialogue with the user.\nYou reflect in the resulting command ALL that the user specifid in the request and important/common attributes, even if the user did not specify them in the request.\n\n"@
        + (match sys_add {
        Some(instr) => "In addition, consider using the following information from the user:\n-----\n"@
            + instr + "\n-----"@,
        None => Seq::<char>::empty(),
    }) + "\n\nBelow is your actual dialogue with the user."@
}

/// The system prompts, in order.
pub struct Prompts {
    prompts: Vec<String>,
}

impl Prompts {
    /// The prompts held, by content.
    pub closed spec fn spec_prompts(self) -> Seq<Seq<char>> {
        self.prompts@.map_values(|p: String| p@)
    }

    /// Build the prompts: one system prompt, assembled for the goal and the
    /// optional custom instructions.
    pub fn new(sys_add: &Option<String>, goal: Goal) -> (r: Prompts)
        ensures
            r.spec_prompts() == seq![
                spec_system_prompt(
                    match sys_add {
                        Some(s) => Some(s@),
                        None => None,
                    },
                    goal,
                ),
            ],
    {
        let mut sys =
            "You are an assistant called \"Apprentice\" that helps translate a user request into a valid call to the ".to_owned();
        match goal {
            Goal::Gcp => sys.append("Google Cloud CLI tools gcloud, bq, gsutil"),
            Goal::Aws => sys.append("AWS CLI aws"),
            Goal::Azure => sys.append("Azure CLI az"),
        }
        sys.append(
            ".\nYou are in dialogue with the user. \nAfter each response from the user, you think and ALWAYS do one of the following actions:\n1. Produce the resulting command (use the SHELL tool).\n2. Ask the user a clarifying question.\n3. Request help page for a specific subcommand (use HELP tool).\n4. Reject the user request and specify the reason why it cannot be fulfilled.\nThe user can ask questions. You understand from the context that the user is asking a question and not giving you an answer, then you are doing one of the actions defined above.\nYou form your resulting command based on the information from your dialogue with the user.\nYou reflect in the resulting command ALL that the user specifid in the request and important/common attributes, even if the user did not specify them in the request.\n\n",
        );
        match sys_add {
            Some(instr) => {
                sys.append(
                    "In addition, consider using the following information from the user:\n-----\n",
                );
                sys.append(instr.as_str());
                sys.append("\n-----");
            },
            None => {},
        }
        sys.append("\n\nBelow is your actual dialogue with the user.");
        let mut prompts: Vec<String> = Vec::new();
        prompts.push(sys);
        let r = Prompts { prompts };
        proof {
            assert(r.spec_prompts() =~~= seq![
                spec_system_prompt(
                    match sys_add {
                        Some(s) => Some(s@),
                        None => None,
                    },
                    goal,
                ),
            ]);
        }
        r
    }

    /// Get a prompt by position; a position past the held prompts is
    /// rejected.
    pub fn get(&self, id: usize) -> (r: Result<&str, AppError>)
        ensures
            match r {
                Ok(s) => id < self.spec_prompts().len() && s@ == self.spec_prompts()[id as int],
                Err(e) => id >= self.spec_prompts().len() && e@ == AppErrorView::ConfigParseError(
                    "requested prompt does not exist."@,
                ),
            },
    {
        if self.prompts.len() <= id {
            return Err(AppError::ConfigParseError("requested prompt does not exist."));
        }
        Ok(self.prompts[id].as_str())
    }
}

} // verus!
