use apprentice::agent::{
    classify_response, classify_user_input, dispatch_tool, make_tool_result, unknown_tool_message,
    ToolKind, TurnAction, UserInput,
};
use apprentice::app_config::Goal;
use apprentice::help::{Help, HelpOutcome};
use apprentice::json::Json;
use apprentice::llm::util::{llm_to_role, role_to_llm, tool_params_to_value};
use apprentice::llm::{Message, Role, ToolCall, ToolParam};
use apprentice::prompts::Prompts;
use apprentice::shell::{confirm_step, declined_message, ConfirmAction, Shell};
use apprentice::tools::{ParamType, ToolParam as SpecParam};
use apprentice::{Error, ModelProvider};

fn call(id: &str, name: &str) -> Message {
    Message::ToolCall(ToolCall {
        call_id: id.to_string(),
        name: name.to_string(),
        params: vec![ToolParam { name: "command".to_string(), value: Json::Str("ls".to_string()) }],
    })
}

#[test]
fn two_tool_calls_fail_the_session_without_dispatch() {
    let batch = vec![call("id1", "SHELL"), call("id2", "HELP")];
    let classified = classify_response(batch);
    assert!(matches!(
        classified.action,
        TurnAction::Fail("Unexpected LLM response: parallel tool call is requested.")
    ));
    assert!(classified.texts.is_empty());
}

#[test]
fn text_then_tool_call_prints_then_dispatches() {
    let batch = vec![Message::text(Role::Model, "working on it".to_string()), call("id7", "SHELL")];
    let classified = classify_response(batch);
    assert_eq!(classified.texts, vec!["working on it".to_string()]);
    match classified.action {
        TurnAction::Tool(tc) => {
            assert_eq!(tc.call_id, "id7");
            assert_eq!(tc.name, "SHELL");
            let result = make_tool_result(&tc, "done".to_string());
            if let Message::ToolResult(tr) = result {
                assert_eq!(tr.call_id, "id7");
                assert_eq!(tr.name, "SHELL");
                assert_eq!(tr.result, "done");
            } else {
                panic!("type mismatch");
            }
        },
        _ => panic!("expected a tool dispatch"),
    }
}

#[test]
fn model_tool_result_is_a_protocol_violation() {
    let batch = vec![Message::tool_result("i".into(), "SHELL".into(), "r".into())];
    let classified = classify_response(batch);
    assert!(matches!(classified.action, TurnAction::Fail("Unexpected message type from the LLM.")));

    let batch = vec![
        Message::text(Role::Model, "a".into()),
        Message::tool_result("i".into(), "SHELL".into(), "r".into()),
    ];
    let classified = classify_response(batch);
    assert!(matches!(
        classified.action,
        TurnAction::Fail("Unexpected \"tool result\" message from LLM.")
    ));
    assert_eq!(classified.texts, vec!["a".to_string()]);
}

#[test]
fn single_text_goes_back_to_the_user() {
    let batch = vec![Message::text(Role::Model, "hello".to_string())];
    let classified = classify_response(batch);
    assert_eq!(classified.texts, vec!["hello".to_string()]);
    assert!(matches!(classified.action, TurnAction::User));

    let classified = classify_response(vec![]);
    assert!(classified.texts.is_empty());
    assert!(matches!(classified.action, TurnAction::User));
}

#[test]
fn shell_decline_reports_the_reason_and_runs_nothing() {
    assert_eq!(confirm_step("n"), ConfirmAction::AskReason);
    assert_eq!(confirm_step(" n "), ConfirmAction::AskReason);
    assert_eq!(confirm_step("y"), ConfirmAction::Execute);
    assert_eq!(confirm_step("q"), ConfirmAction::Reprompt);
    assert_eq!(confirm_step("no"), ConfirmAction::Reprompt);
    assert_eq!(confirm_step(""), ConfirmAction::Reprompt);
    let result = declined_message("not safe");
    assert_eq!(result, "User cancelled the operation with the reason: not safe");
    assert!(result.contains("not safe"));
}

#[test]
fn shell_tool_validates_its_parameter() {
    let shell = Shell::new();
    let good = vec![ToolParam { name: "command".into(), value: Json::Str("ls -l".into()) }];
    match shell.call_tool(&good) {
        apprentice::shell::ShellOutcome::Confirm(c) => assert_eq!(c, "ls -l"),
        _ => panic!("expected a confirmation"),
    }
    let wrong_name = vec![ToolParam { name: "cmd".into(), value: Json::Str("ls".into()) }];
    match shell.call_tool(&wrong_name) {
        apprentice::shell::ShellOutcome::Reply(d) => assert_eq!(
            d,
            "wrong parameter name, expect 1 parameter called \"command\" of type string."
        ),
        _ => panic!("expected a reply"),
    }
    let wrong_type = vec![ToolParam { name: "command".into(), value: Json::Int(3) }];
    match shell.call_tool(&wrong_type) {
        apprentice::shell::ShellOutcome::Reply(d) => assert_eq!(
            d,
            "wrong parameter value type, expect 1 parameter called \"command\" of type string."
        ),
        _ => panic!("expected a reply"),
    }
    match shell.call_tool(&vec![]) {
        apprentice::shell::ShellOutcome::Reply(d) => assert_eq!(
            d,
            "wrong number of input parameters, expect 1 parameter called \"command\" of type string."
        ),
        _ => panic!("expected a reply"),
    }
    let spec = shell.get_tool_spec();
    assert_eq!(spec.name, "SHELL");
    assert_eq!(spec.params.len(), 1);
    assert_eq!(spec.params[0].name, "command");
    assert!(spec.params[0].required);
}

#[test]
fn help_tool_gates_on_the_goal_prefix() {
    let help = Help::new(Goal::Aws);
    let params = vec![ToolParam { name: "command".into(), value: Json::Str("aws s3 ls".into()) }];
    match help.call_tool(&params) {
        HelpOutcome::Run(cmd) => assert_eq!(cmd, "aws s3 ls help"),
        _ => panic!("expected a run"),
    }
    let params = vec![ToolParam { name: "command".into(), value: Json::Str("rm -rf /".into()) }];
    match help.call_tool(&params) {
        HelpOutcome::Reply(d) => assert_eq!(d, "command must start with \"aws \"."),
        _ => panic!("expected a reply"),
    }

    let help = Help::new(Goal::Gcp);
    let params = vec![ToolParam { name: "command".into(), value: Json::Str("bq ls".into()) }];
    match help.call_tool(&params) {
        HelpOutcome::Run(cmd) => assert_eq!(cmd, "bq ls --help"),
        _ => panic!("expected a run"),
    }

    let help = Help::new(Goal::Azure);
    let params = vec![ToolParam { name: "command".into(), value: Json::Str("az vm list".into()) }];
    match help.call_tool(&params) {
        HelpOutcome::Run(cmd) => assert_eq!(cmd, "az vm list --help"),
        _ => panic!("expected a run"),
    }
    let spec = help.get_tool_spec();
    assert_eq!(spec.name, "HELP");
}

#[test]
fn tool_dispatch_is_by_name() {
    assert_eq!(dispatch_tool("SHELL"), ToolKind::Shell);
    assert_eq!(dispatch_tool("HELP"), ToolKind::Help);
    assert_eq!(dispatch_tool("shell"), ToolKind::Unknown);
    assert_eq!(dispatch_tool("OTHER"), ToolKind::Unknown);
    assert_eq!(unknown_tool_message("OTHER"), "Unknown tool \"OTHER\" was requested.");
}

#[test]
fn user_input_lines_are_classified() {
    assert!(matches!(classify_user_input("   "), UserInput::Empty));
    assert!(matches!(classify_user_input(""), UserInput::Empty));
    assert!(matches!(classify_user_input(" ? "), UserInput::HelpRequest));
    match classify_user_input("  list my buckets  ") {
        UserInput::Message(m) => assert_eq!(m, "list my buckets"),
        _ => panic!("expected a message"),
    }
}

#[test]
fn schema_builder_keeps_declaration_order() {
    let params = vec![
        SpecParam {
            name: "a".to_string(),
            description: "first".to_string(),
            data_type: ParamType::Integer,
            required: true,
        },
        SpecParam {
            name: "b".to_string(),
            description: "second".to_string(),
            data_type: ParamType::String,
            required: false,
        },
    ];
    let schema = tool_params_to_value(&params, ModelProvider::OpenAI);
    let expected = Json::Obj(vec![
        ("type".to_string(), Json::Str("object".to_string())),
        (
            "properties".to_string(),
            Json::Obj(vec![
                (
                    "a".to_string(),
                    Json::Obj(vec![
                        ("type".to_string(), Json::Str("integer".to_string())),
                        ("description".to_string(), Json::Str("first".to_string())),
                    ]),
                ),
                (
                    "b".to_string(),
                    Json::Obj(vec![
                        ("type".to_string(), Json::Str("string".to_string())),
                        ("description".to_string(), Json::Str("second".to_string())),
                    ]),
                ),
            ]),
        ),
        ("required".to_string(), Json::Arr(vec![Json::Str("a".to_string())])),
        ("additionalProperties".to_string(), Json::Bool(false)),
    ]);
    assert_eq!(schema, expected);

    let gcp_schema = tool_params_to_value(&params, ModelProvider::GCP);
    if let Json::Obj(entries) = &gcp_schema {
        assert_eq!(entries.len(), 3);
        assert!(entries.iter().all(|(k, _)| k != "additionalProperties"));
    } else {
        panic!("expected an object schema");
    }
}

#[test]
fn roles_map_per_provider_and_back() {
    assert_eq!(role_to_llm(ModelProvider::OpenAI, Role::Model), "assistant");
    assert_eq!(role_to_llm(ModelProvider::Anthropic, Role::System), "");
    assert_eq!(role_to_llm(ModelProvider::GCP, Role::Model), "model");
    assert_eq!(llm_to_role("assistant").unwrap(), Role::Model);
    assert_eq!(llm_to_role("model").unwrap(), Role::Model);
    assert_eq!(llm_to_role("user").unwrap(), Role::User);
    assert_eq!(llm_to_role("system").unwrap(), Role::System);
    assert!(matches!(llm_to_role("robot"), Err(Error::LLMResponseError(_))));
}

#[test]
fn prompts_hold_one_system_prompt() {
    let prompts = Prompts::new(&None, Goal::Aws);
    let p = prompts.get(0).expect("prompt exists");
    assert!(p.starts_with("You are an assistant called \"Apprentice\""));
    assert!(p.contains("AWS CLI aws"));
    assert!(p.ends_with("Below is your actual dialogue with the user."));
    assert!(matches!(prompts.get(1), Err(apprentice::AppError::ConfigParseError(_))));

    let prompts = Prompts::new(&Some("extra hint".to_string()), Goal::Gcp);
    let p = prompts.get(0).expect("prompt exists");
    assert!(p.contains("Google Cloud CLI tools gcloud, bq, gsutil"));
    assert!(p.contains("-----\nextra hint\n-----"));
}

#[test]
fn only_the_provider_envelope_is_recoverable() {
    assert!(Error::LLMErrorMessage("rate limited".to_string()).is_recoverable());
    assert!(!Error::LLMCallError("connection reset".to_string()).is_recoverable());
    assert!(!Error::LLMJsonError("bad arguments".to_string()).is_recoverable());
    assert!(!Error::LLMResponseError("unexpected message type.").is_recoverable());
    assert!(!Error::MissingArgError("api-version is mandatory for anthropic.").is_recoverable());
    assert!(!Error::Error("anything".to_string()).is_recoverable());
}
