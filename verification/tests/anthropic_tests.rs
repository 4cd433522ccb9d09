use apprentice::json::Json;
use apprentice::llm::anthropic::AnthropicChat;
use apprentice::llm::{LLMChat, Message, Role};
use apprentice::request::Client;
use apprentice::tools::{ParamType, ToolChoice, ToolParam, ToolSpec};
use apprentice::{Config, Error, ModelProvider};

struct AntStub {
    expected_headers: Vec<(String, String)>,
    expected_params: Vec<(String, String)>,
    expected_payload: Json,
    response_body: std::cell::RefCell<Option<Json>>,
}

impl Client for AntStub {
    fn make_json_request(
        &self,
        _url: &str,
        payload: Json,
        headers: &Vec<(String, String)>,
        params: &Vec<(String, String)>,
    ) -> Result<Json, Error> {
        for (expected, actual) in headers.iter().zip(self.expected_headers.iter()) {
            assert_eq!(expected.0, actual.0, "headers keys");
            assert_eq!(expected.1, actual.1, "headers values");
        }
        for (expected, actual) in params.iter().zip(self.expected_params.iter()) {
            assert_eq!(expected.0, actual.0, "params keys");
            assert_eq!(expected.1, actual.1, "params values");
        }
        assert_eq!(payload, self.expected_payload);
        Ok(self.response_body.borrow_mut().take().expect("single request"))
    }
}

fn ant_num(x: f64) -> Json {
    Json::Num(serde_json::Number::from_f64(x).unwrap())
}

fn ant_str(s: &str) -> Json {
    Json::Str(s.to_string())
}

fn ant_obj(entries: Vec<(&str, Json)>) -> Json {
    Json::Obj(entries.into_iter().map(|(k, v)| (k.to_string(), v)).collect())
}

fn ant_config() -> Config {
    Config {
        provider: ModelProvider::try_from("anthropic").expect("determine model provider"),
        name: "<model-name>".to_owned(),
        api_key: "<api-key>".to_owned(),
        api_url: "<api-uri>".to_owned(),
        api_version: Some("<api-ver>".to_owned()),
        max_tokens: Some(4096),
        n: Some(1),
        temperature: Some(serde_json::Number::from_f64(0.123).unwrap()),
        top_p: Some(serde_json::Number::from_f64(0.345).unwrap()),
        top_k: Some(5),
        frequency_penalty: Some(serde_json::Number::from_f64(-0.11).unwrap()),
        presence_penalty: Some(serde_json::Number::from_f64(0.22).unwrap()),
        stop_sequence: Some("<stop>".to_owned()),
    }
}

fn ant_headers() -> Vec<(String, String)> {
    vec![
        ("x-api-key".to_owned(), "<api-key>".to_owned()),
        ("anthropic-version".to_owned(), "<api-ver>".to_owned()),
    ]
}

fn ant_payload_base(sys_msg: &str, user_msg: &str, tool_entries: Vec<(&str, Json)>) -> Json {
    let mut entries = vec![
        ("model", ant_str("<model-name>")),
        ("system", ant_str(sys_msg)),
        (
            "messages",
            Json::Arr(vec![ant_obj(vec![("role", ant_str("user")), ("content", ant_str(user_msg))])]),
        ),
        ("max_tokens", Json::Int(4096)),
        ("top_p", ant_num(0.345)),
        ("top_k", Json::Int(5)),
        ("temperature", ant_num(0.123)),
        ("stop_sequences", Json::Arr(vec![ant_str("<stop>")])),
    ];
    entries.extend(tool_entries);
    ant_obj(entries)
}

#[test]
fn anthropic_test_request_response_ok() {
    let config = ant_config();
    let sys_msg = "test sys message";
    let user_msg = "test user message";
    let model_msg = "test resp message";

    let messages = vec![Message::text(Role::User, user_msg.to_owned())];

    let response_body = ant_obj(vec![
        (
            "content",
            Json::Arr(vec![ant_obj(vec![("text", ant_str(model_msg)), ("type", ant_str("text"))])]),
        ),
        ("id", ant_str("msg_013Zva2CMHLNnXjNJJKqJ2EF")),
        ("model", ant_str("<model-name>")),
        ("role", ant_str("assistant")),
        ("stop_reason", ant_str("end_turn")),
        ("stop_sequence", Json::Null),
        ("type", ant_str("message")),
        (
            "usage",
            ant_obj(vec![("input_tokens", Json::Int(123)), ("output_tokens", Json::Int(123))]),
        ),
    ]);

    let client = AntStub {
        expected_headers: ant_headers(),
        expected_params: vec![],
        expected_payload: ant_payload_base(sys_msg, user_msg, vec![]),
        response_body: std::cell::RefCell::new(Some(response_body)),
    };

    let mut chat =
        AnthropicChat::new(config, client, vec![]).expect("AnthropicChat initialization");
    chat.set_system_prompt(sys_msg.to_owned());
    let response = chat.get_inference(&messages, ToolChoice::NoTools).expect("receive response");

    assert_eq!(1, response.len());
    if let Message::Text(txt) = &response[0] {
        assert_eq!(txt.role, Role::Model);
        assert_eq!(txt.message, model_msg);
    } else {
        panic!("type mismatch");
    }
}

#[test]
fn anthropic_test_request_response_err() {
    let config = ant_config();
    let sys_msg = "test sys message";
    let user_msg = "test user message";
    let model_msg = "test resp message";

    let messages = vec![Message::text(Role::User, user_msg.to_owned())];

    let response_body = ant_obj(vec![
        ("type", ant_str("error")),
        (
            "error",
            ant_obj(vec![
                ("type", ant_str("invalid_request_error")),
                ("message", ant_str(model_msg)),
            ]),
        ),
    ]);

    let client = AntStub {
        expected_headers: ant_headers(),
        expected_params: vec![],
        expected_payload: ant_payload_base(sys_msg, user_msg, vec![]),
        response_body: std::cell::RefCell::new(Some(response_body)),
    };

    let mut chat =
        AnthropicChat::new(config, client, vec![]).expect("AnthropicChat initialization");
    chat.set_system_prompt(sys_msg.to_owned());
    let response = chat.get_inference(&messages, ToolChoice::NoTools);

    if let Err(Error::LLMErrorMessage(msg)) = response {
        assert_eq!(msg, model_msg);
    } else {
        panic!("type mismatch");
    }
}

#[test]
fn anthropic_test_request_response_tool_ok() {
    let config = ant_config();
    let sys_msg = "test sys message";
    let user_msg = "test user message";
    let model_msg = "test resp message";
    let call_id = "toolu_01A09q90qw90lq917835lq9";
    let call_tool = "tool2";

    let tools = vec![
        ToolSpec {
            name: "tool1".to_owned(),
            description: "tool desc 1".to_owned(),
            params: vec![
                ToolParam {
                    name: "tool1_param1".to_string(),
                    description: "tool1_param1 desc".to_string(),
                    data_type: ParamType::Integer,
                    required: true,
                },
                ToolParam {
                    name: "tool1_param2".to_string(),
                    description: "tool1_param2 desc".to_string(),
                    data_type: ParamType::String,
                    required: false,
                },
            ],
        },
        ToolSpec {
            name: "tool2".to_owned(),
            description: "tool desc 2".to_owned(),
            params: vec![
                ToolParam {
                    name: "tool2_param1".to_string(),
                    description: "tool2_param1 desc".to_string(),
                    data_type: ParamType::Boolean,
                    required: false,
                },
                ToolParam {
                    name: "tool2_param2".to_string(),
                    description: "tool2_param2 desc".to_string(),
                    data_type: ParamType::Number,
                    required: true,
                },
            ],
        },
    ];

    let messages = vec![Message::text(Role::User, user_msg.to_owned())];

    let schema1 = ant_obj(vec![
        ("type", ant_str("object")),
        (
            "properties",
            ant_obj(vec![
                (
                    "tool1_param1",
                    ant_obj(vec![("type", ant_str("integer")), ("description", ant_str("tool1_param1 desc"))]),
                ),
                (
                    "tool1_param2",
                    ant_obj(vec![("type", ant_str("string")), ("description", ant_str("tool1_param2 desc"))]),
                ),
            ]),
        ),
        ("required", Json::Arr(vec![ant_str("tool1_param1")])),
        ("additionalProperties", Json::Bool(false)),
    ]);
    let schema2 = ant_obj(vec![
        ("type", ant_str("object")),
        (
            "properties",
            ant_obj(vec![
                (
                    "tool2_param1",
                    ant_obj(vec![("type", ant_str("boolean")), ("description", ant_str("tool2_param1 desc"))]),
                ),
                (
                    "tool2_param2",
                    ant_obj(vec![("type", ant_str("number")), ("description", ant_str("tool2_param2 desc"))]),
                ),
            ]),
        ),
        ("required", Json::Arr(vec![ant_str("tool2_param2")])),
        ("additionalProperties", Json::Bool(false)),
    ]);

    let tool_entries = vec![
        (
            "tool_choice",
            ant_obj(vec![
                ("type", ant_str("auto")),
                ("disable_parallel_tool_use", Json::Bool(true)),
            ]),
        ),
        (
            "tools",
            Json::Arr(vec![
                ant_obj(vec![
                    ("description", ant_str("tool desc 1")),
                    ("name", ant_str("tool1")),
                    ("input_schema", schema1),
                ]),
                ant_obj(vec![
                    ("description", ant_str("tool desc 2")),
                    ("name", ant_str("tool2")),
                    ("input_schema", schema2),
                ]),
            ]),
        ),
    ];

    let response_body = ant_obj(vec![
        (
            "content",
            Json::Arr(vec![
                ant_obj(vec![("text", ant_str(model_msg)), ("type", ant_str("text"))]),
                ant_obj(vec![
                    ("type", ant_str("tool_use")),
                    ("id", ant_str(call_id)),
                    ("name", ant_str(call_tool)),
                    ("input", ant_obj(vec![("tool2_param2", Json::Bool(true))])),
                ]),
            ]),
        ),
        ("id", ant_str("msg_013Zva2CMHLNnXjNJJKqJ2EF")),
        ("model", ant_str("<model-name>")),
        ("role", ant_str("assistant")),
        ("stop_reason", ant_str("end_turn")),
        ("stop_sequence", Json::Null),
        ("type", ant_str("message")),
        (
            "usage",
            ant_obj(vec![("input_tokens", Json::Int(123)), ("output_tokens", Json::Int(123))]),
        ),
    ]);

    let client = AntStub {
        expected_headers: ant_headers(),
        expected_params: vec![],
        expected_payload: ant_payload_base(sys_msg, user_msg, tool_entries),
        response_body: std::cell::RefCell::new(Some(response_body)),
    };

    let mut chat = AnthropicChat::new(config, client, tools).expect("AnthropicChat initialization");
    chat.set_system_prompt(sys_msg.to_owned());
    let response = chat.get_inference(&messages, ToolChoice::Auto).expect("receive response");

    assert_eq!(2, response.len());
    if let Message::Text(txt) = &response[0] {
        assert_eq!(txt.role, Role::Model);
        assert_eq!(txt.message, model_msg);
    } else {
        panic!("type mismatch");
    }
    if let Message::ToolCall(call) = &response[1] {
        assert_eq!(call.call_id, call_id);
        assert_eq!(call.name, call_tool);
        assert_eq!(call.params.len(), 1);
        assert_eq!(call.params[0].name, "tool2_param2");
        assert_eq!(call.params[0].value, Json::Bool(true));
    } else {
        panic!("type mismatch");
    }
}
