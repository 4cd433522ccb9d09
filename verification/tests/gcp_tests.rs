use apprentice::json::Json;
use apprentice::llm::gcp::GcpChat;
use apprentice::llm::{LLMChat, Message, Role};
use apprentice::request::Client;
use apprentice::tools::{ParamType, ToolChoice, ToolParam, ToolSpec};
use apprentice::{Config, Error, ModelProvider};

struct GcpStub {
    expected_headers: Vec<(String, String)>,
    expected_params: Vec<(String, String)>,
    expected_payload: Json,
    response_body: std::cell::RefCell<Option<Json>>,
}

impl Client for GcpStub {
    fn make_json_request(
        &self,
        _url: &str,
        payload: Json,
        headers: &Vec<(String, String)>,
        params: &Vec<(String, String)>,
    ) -> Result<Json, Error> {
        for (expected, actual) in headers.iter().zip(self.expected_headers.iter()) {
            assert_eq!(expected.0, actual.0, "headers keys");
            assert_eq!(expected.1, actual.1, "headers values");
        }
        for (expected, actual) in params.iter().zip(self.expected_params.iter()) {
            assert_eq!(expected.0, actual.0, "params keys");
            assert_eq!(expected.1, actual.1, "params values");
        }
        assert_eq!(payload, self.expected_payload);
        Ok(self.response_body.borrow_mut().take().expect("single request"))
    }
}

fn gcp_num(x: f64) -> Json {
    Json::Num(serde_json::Number::from_f64(x).unwrap())
}

fn gcp_str(s: &str) -> Json {
    Json::Str(s.to_string())
}

fn gcp_obj(entries: Vec<(&str, Json)>) -> Json {
    Json::Obj(entries.into_iter().map(|(k, v)| (k.to_string(), v)).collect())
}

fn gcp_config() -> Config {
    Config {
        provider: ModelProvider::try_from("gcp").expect("determine model provider"),
        name: "<model-name>".to_owned(),
        api_key: "<api-key>".to_owned(),
        api_url: "<api-uri>".to_owned(),
        api_version: Some("<api-ver>".to_owned()),
        max_tokens: Some(4096),
        n: Some(1),
        temperature: Some(serde_json::Number::from_f64(0.123).unwrap()),
        top_p: Some(serde_json::Number::from_f64(0.345).unwrap()),
        top_k: Some(5),
        frequency_penalty: Some(serde_json::Number::from_f64(-0.11).unwrap()),
        presence_penalty: Some(serde_json::Number::from_f64(0.22).unwrap()),
        stop_sequence: Some("<stop>".to_owned()),
    }
}

fn gcp_expected_payload(sys_msg: &str, decls: Json) -> Json {
    gcp_obj(vec![
        (
            "systemInstruction",
            gcp_obj(vec![("parts", gcp_obj(vec![("text", gcp_str(sys_msg))]))]),
        ),
        (
            "contents",
            Json::Arr(vec![
                gcp_obj(vec![
                    ("role", gcp_str("user")),
                    ("parts", Json::Arr(vec![gcp_obj(vec![("text", gcp_str("test user message 1"))])])),
                ]),
                gcp_obj(vec![
                    ("role", gcp_str("model")),
                    ("parts", Json::Arr(vec![gcp_obj(vec![("text", gcp_str("test resp message 1"))])])),
                ]),
                gcp_obj(vec![
                    ("role", gcp_str("user")),
                    ("parts", Json::Arr(vec![gcp_obj(vec![("text", gcp_str("test user message 2"))])])),
                ]),
            ]),
        ),
        (
            "generationConfig",
            gcp_obj(vec![
                ("maxOutputTokens", Json::Int(4096)),
                ("topP", gcp_num(0.345)),
                ("topK", Json::Int(5)),
                ("temperature", gcp_num(0.123)),
                ("presencePenalty", gcp_num(0.22)),
                ("frequencyPenalty", gcp_num(-0.11)),
                ("stopSequences", Json::Arr(vec![gcp_str("<stop>")])),
            ]),
        ),
        (
            "tool_config",
            gcp_obj(vec![(
                "function_calling_config",
                gcp_obj(vec![("mode", gcp_str("AUTO"))]),
            )]),
        ),
        (
            "tools",
            Json::Arr(vec![gcp_obj(vec![("function_declarations", decls)])]),
        ),
    ])
}

fn gcp_messages() -> Vec<Message> {
    vec![
        Message::text(Role::User, "test user message 1".to_owned()),
        Message::text(Role::Model, "test resp message 1".to_owned()),
        Message::text(Role::User, "test user message 2".to_owned()),
    ]
}

#[test]
fn gcp_test_request_response_ok() {
    let config = gcp_config();
    let sys_msg = "test sys message";
    let model_msg2 = "test resp message 2";

    let response_body = gcp_obj(vec![
        (
            "candidates",
            Json::Arr(vec![gcp_obj(vec![
                ("avgLogprobs", gcp_num(-0.024475134909152985)),
                (
                    "content",
                    gcp_obj(vec![
                        ("parts", Json::Arr(vec![gcp_obj(vec![("text", gcp_str(model_msg2))])])),
                        ("role", gcp_str("model")),
                    ]),
                ),
                ("finishReason", gcp_str("STOP")),
            ])]),
        ),
        ("modelVersion", gcp_str("<model-name>")),
        (
            "usageMetadata",
            gcp_obj(vec![
                ("candidatesTokenCount", Json::Int(10)),
                ("promptTokenCount", Json::Int(1744)),
                ("totalTokenCount", Json::Int(1754)),
            ]),
        ),
    ]);

    let client = GcpStub {
        expected_headers: vec![],
        expected_params: vec![("key".to_owned(), "<api-key>".to_owned())],
        expected_payload: gcp_expected_payload(sys_msg, Json::Arr(vec![])),
        response_body: std::cell::RefCell::new(Some(response_body)),
    };

    let mut chat = GcpChat::new(config, client, vec![]).expect("Chat initialization");
    chat.set_system_prompt(sys_msg.to_owned());
    let response = chat.get_inference(&gcp_messages(), ToolChoice::Auto).expect("receive response");

    assert_eq!(1, response.len());
    if let Message::Text(txt) = &response[0] {
        assert_eq!(txt.role, Role::Model);
        assert_eq!(txt.message, model_msg2);
    } else {
        panic!("type mismatch");
    }
}

#[test]
fn gcp_test_request_response_err() {
    let config = gcp_config();
    let sys_msg = "test sys message";
    let model_msg2 = "API key not valid. Please pass a valid API key.";

    let response_body = gcp_obj(vec![(
        "error",
        gcp_obj(vec![
            ("code", Json::Int(400)),
            (
                "details",
                Json::Arr(vec![
                    gcp_obj(vec![
                        ("@type", gcp_str("type.googleapis.com/google.rpc.ErrorInfo")),
                        ("domain", gcp_str("googleapis.com")),
                        ("reason", gcp_str("API_KEY_INVALID")),
                    ]),
                    gcp_obj(vec![
                        ("@type", gcp_str("type.googleapis.com/google.rpc.LocalizedMessage")),
                        ("locale", gcp_str("en-US")),
                        ("message", gcp_str(model_msg2)),
                    ]),
                ]),
            ),
            ("message", gcp_str(model_msg2)),
            ("status", gcp_str("INVALID_ARGUMENT")),
        ]),
    )]);

    let client = GcpStub {
        expected_headers: vec![],
        expected_params: vec![("key".to_owned(), "<api-key>".to_owned())],
        expected_payload: gcp_expected_payload(sys_msg, Json::Arr(vec![])),
        response_body: std::cell::RefCell::new(Some(response_body)),
    };

    let mut chat = GcpChat::new(config, client, vec![]).expect("Chat initialization");
    chat.set_system_prompt(sys_msg.to_owned());
    let response = chat.get_inference(&gcp_messages(), ToolChoice::Auto);

    if let Err(Error::LLMErrorMessage(msg)) = response {
        assert_eq!(msg, model_msg2);
    } else {
        panic!("type mismatch");
    }
}

#[test]
fn gcp_test_request_response_tool_ok() {
    let config = gcp_config();
    let sys_msg = "test sys message";
    let call_tool = "tool2";

    let tools = vec![
        ToolSpec {
            name: "tool1".to_owned(),
            description: "tool desc 1".to_owned(),
            params: vec![
                ToolParam {
                    name: "tool1_param1".to_string(),
                    description: "tool1_param1 desc".to_string(),
                    data_type: ParamType::Integer,
                    required: true,
                },
                ToolParam {
                    name: "tool1_param2".to_string(),
                    description: "tool1_param2 desc".to_string(),
                    data_type: ParamType::String,
                    required: false,
                },
            ],
        },
        ToolSpec {
            name: "tool2".to_owned(),
            description: "tool desc 2".to_owned(),
            params: vec![
                ToolParam {
                    name: "tool2_param1".to_string(),
                    description: "tool2_param1 desc".to_string(),
                    data_type: ParamType::Boolean,
                    required: false,
                },
                ToolParam {
                    name: "tool2_param2".to_string(),
                    description: "tool2_param2 desc".to_string(),
                    data_type: ParamType::Number,
                    required: true,
                },
            ],
        },
    ];

    let schema1 = gcp_obj(vec![
        ("type", gcp_str("object")),
        (
            "properties",
            gcp_obj(vec![
                (
                    "tool1_param1",
                    gcp_obj(vec![("type", gcp_str("integer")), ("description", gcp_str("tool1_param1 desc"))]),
                ),
                (
                    "tool1_param2",
                    gcp_obj(vec![("type", gcp_str("string")), ("description", gcp_str("tool1_param2 desc"))]),
                ),
            ]),
        ),
        ("required", Json::Arr(vec![gcp_str("tool1_param1")])),
    ]);
    let schema2 = gcp_obj(vec![
        ("type", gcp_str("object")),
        (
            "properties",
            gcp_obj(vec![
                (
                    "tool2_param1",
                    gcp_obj(vec![("type", gcp_str("boolean")), ("description", gcp_str("tool2_param1 desc"))]),
                ),
                (
                    "tool2_param2",
                    gcp_obj(vec![("type", gcp_str("number")), ("description", gcp_str("tool2_param2 desc"))]),
                ),
            ]),
        ),
        ("required", Json::Arr(vec![gcp_str("tool2_param2")])),
    ]);
    let decls = Json::Arr(vec![
        gcp_obj(vec![
            ("name", gcp_str("tool1")),
            ("description", gcp_str("tool desc 1")),
            ("parameters", schema1),
        ]),
        gcp_obj(vec![
            ("name", gcp_str("tool2")),
            ("description", gcp_str("tool desc 2")),
            ("parameters", schema2),
        ]),
    ]);

    let response_body = gcp_obj(vec![
        (
            "candidates",
            Json::Arr(vec![gcp_obj(vec![
                ("avgLogprobs", gcp_num(-0.024475134909152985)),
                (
                    "content",
                    gcp_obj(vec![
                        (
                            "parts",
                            Json::Arr(vec![gcp_obj(vec![(
                                "functionCall",
                                gcp_obj(vec![
                                    ("args", gcp_obj(vec![("tool2_param2", Json::Bool(true))])),
                                    ("name", gcp_str(call_tool)),
                                ]),
                            )])]),
                        ),
                        ("role", gcp_str("model")),
                    ]),
                ),
                ("finishReason", gcp_str("STOP")),
            ])]),
        ),
        ("modelVersion", gcp_str("<model-name>")),
        (
            "usageMetadata",
            gcp_obj(vec![
                ("candidatesTokenCount", Json::Int(10)),
                ("promptTokenCount", Json::Int(1744)),
                ("totalTokenCount", Json::Int(1754)),
            ]),
        ),
    ]);

    let client = GcpStub {
        expected_headers: vec![],
        expected_params: vec![("key".to_owned(), "<api-key>".to_owned())],
        expected_payload: gcp_expected_payload(sys_msg, decls),
        response_body: std::cell::RefCell::new(Some(response_body)),
    };

    let mut chat = GcpChat::new(config, client, tools).expect("Chat initialization");
    chat.set_system_prompt(sys_msg.to_owned());
    let response = chat.get_inference(&gcp_messages(), ToolChoice::Auto).expect("receive response");

    assert_eq!(1, response.len());
    if let Message::ToolCall(call) = &response[0] {
        assert_eq!(call.call_id, "");
        assert_eq!(call.name, call_tool);
        assert_eq!(call.params.len(), 1);
        assert_eq!(call.params[0].name, "tool2_param2");
        assert_eq!(call.params[0].value, Json::Bool(true));
    } else {
        panic!("type mismatch");
    }
}
