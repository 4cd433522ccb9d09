use apprentice::json::Json;
use apprentice::llm::openai::OpenAIChat;
use apprentice::llm::{LLMChat, Message, Role};
use apprentice::request::Client;
use apprentice::tools::{ParamType, ToolChoice, ToolParam, ToolSpec};
use apprentice::{Config, Error, ModelProvider};

struct OaiStub {
    expected_headers: Vec<(String, String)>,
    expected_params: Vec<(String, String)>,
    expected_payload: Json,
    response_body: std::cell::RefCell<Option<Json>>,
}

impl Client for OaiStub {
    fn make_json_request(
        &self,
        _url: &str,
        payload: Json,
        headers: &Vec<(String, String)>,
        params: &Vec<(String, String)>,
    ) -> Result<Json, Error> {
        for (expected, actual) in headers.iter().zip(self.expected_headers.iter()) {
            assert_eq!(expected.0, actual.0, "headers keys");
            assert_eq!(expected.1, actual.1, "headers values");
        }
        for (expected, actual) in params.iter().zip(self.expected_params.iter()) {
            assert_eq!(expected.0, actual.0, "params keys");
            assert_eq!(expected.1, actual.1, "params values");
        }
        assert_eq!(payload, self.expected_payload);
        Ok(self.response_body.borrow_mut().take().expect("single request"))
    }
}

fn oai_num(x: f64) -> Json {
    Json::Num(serde_json::Number::from_f64(x).unwrap())
}

fn oai_str(s: &str) -> Json {
    Json::Str(s.to_string())
}

fn oai_obj(entries: Vec<(&str, Json)>) -> Json {
    Json::Obj(entries.into_iter().map(|(k, v)| (k.to_string(), v)).collect())
}

fn oai_config() -> Config {
    Config {
        provider: ModelProvider::try_from("openai").expect("determine model provider"),
        name: "<model-name>".to_owned(),
        api_key: "<api-key>".to_owned(),
        api_url: "<api-uri>".to_owned(),
        api_version: Some("<api-ver>".to_owned()),
        max_tokens: Some(4096),
        n: Some(1),
        temperature: Some(serde_json::Number::from_f64(0.123).unwrap()),
        top_p: Some(serde_json::Number::from_f64(0.345).unwrap()),
        top_k: Some(5),
        frequency_penalty: Some(serde_json::Number::from_f64(-0.11).unwrap()),
        presence_penalty: Some(serde_json::Number::from_f64(0.22).unwrap()),
        stop_sequence: Some("<stop>".to_owned()),
    }
}

fn oai_expected_payload(sys_msg: &str, tools: Json) -> Json {
    oai_obj(vec![
        ("model", oai_str("<model-name>")),
        (
            "messages",
            Json::Arr(vec![
                oai_obj(vec![("role", oai_str("system")), ("content", oai_str(sys_msg))]),
                oai_obj(vec![("role", oai_str("user")), ("content", oai_str("test user message 1"))]),
                oai_obj(vec![
                    ("role", oai_str("assistant")),
                    ("content", oai_str("test resp message 1")),
                ]),
                oai_obj(vec![("role", oai_str("user")), ("content", oai_str("test user message 2"))]),
            ]),
        ),
        ("frequency_penalty", oai_num(-0.11)),
        ("presence_penalty", oai_num(0.22)),
        ("n", Json::Int(1)),
        ("top_p", oai_num(0.345)),
        ("temperature", oai_num(0.123)),
        ("max_completion_tokens", Json::Int(4096)),
        ("stop", oai_str("<stop>")),
        ("tool_choice", oai_str("auto")),
        ("tools", tools),
        ("parallel_tool_calls", Json::Bool(false)),
    ])
}

#[test]
fn openai_test_request_response_ok() {
    let config = oai_config();
    let sys_msg = "test sys message";
    let model_msg2 = "test resp message 2";

    let messages = vec![
        Message::text(Role::User, "test user message 1".to_owned()),
        Message::text(Role::Model, "test resp message 1".to_owned()),
        Message::text(Role::User, "test user message 2".to_owned()),
    ];

    let response_body = oai_obj(vec![
        ("id", oai_str("chatcmpl-123")),
        ("object", oai_str("chat.completion")),
        ("created", Json::Int(1677652288)),
        ("model", oai_str("<model-name>")),
        ("system_fingerprint", oai_str("fp_44709d6fcb")),
        (
            "choices",
            Json::Arr(vec![oai_obj(vec![
                ("index", Json::Int(0)),
                (
                    "message",
                    oai_obj(vec![("role", oai_str("assistant")), ("content", oai_str(model_msg2))]),
                ),
                ("logprobs", Json::Null),
                ("finish_reason", oai_str("stop")),
            ])]),
        ),
        (
            "usage",
            oai_obj(vec![
                ("prompt_tokens", Json::Int(9)),
                ("completion_tokens", Json::Int(12)),
                ("total_tokens", Json::Int(21)),
            ]),
        ),
    ]);

    let client = OaiStub {
        expected_headers: vec![("Authorization".to_owned(), "Bearer <api-key>".to_owned())],
        expected_params: vec![],
        expected_payload: oai_expected_payload(sys_msg, Json::Arr(vec![])),
        response_body: std::cell::RefCell::new(Some(response_body)),
    };

    let mut chat = OpenAIChat::new(config, client, vec![]);
    chat.set_system_prompt(sys_msg.to_owned());
    let response = chat.get_inference(&messages, ToolChoice::Auto).expect("receive response");

    assert_eq!(1, response.len());
    if let Message::Text(txt) = &response[0] {
        assert_eq!(txt.role, Role::Model);
        assert_eq!(txt.message, model_msg2);
    } else {
        panic!("type mismatch");
    }
}

#[test]
fn openai_test_request_response_err() {
    let config = oai_config();
    let sys_msg = "test sys message";
    let model_msg2 = "You exceeded your current quota, please check your plan and billing details. For more information on this error, read the docs: https://platform.openai.com/docs/guides/error-codes/api-errors.";

    let messages = vec![
        Message::text(Role::User, "test user message 1".to_owned()),
        Message::text(Role::Model, "test resp message 1".to_owned()),
        Message::text(Role::User, "test user message 2".to_owned()),
    ];

    let response_body = oai_obj(vec![(
        "error",
        oai_obj(vec![
            ("code", oai_str("insufficient_quota")),
            ("message", oai_str(model_msg2)),
            ("param", Json::Null),
            ("type", oai_str("insufficient_quota")),
        ]),
    )]);

    let client = OaiStub {
        expected_headers: vec![("Authorization".to_owned(), "Bearer <api-key>".to_owned())],
        expected_params: vec![],
        expected_payload: oai_expected_payload(sys_msg, Json::Arr(vec![])),
        response_body: std::cell::RefCell::new(Some(response_body)),
    };

    let mut chat = OpenAIChat::new(config, client, vec![]);
    chat.set_system_prompt(sys_msg.to_owned());
    let response = chat.get_inference(&messages, ToolChoice::Auto);

    if let Err(Error::LLMErrorMessage(msg)) = response {
        assert_eq!(msg, model_msg2);
    } else {
        panic!("type mismatch");
    }
}

#[test]
fn openai_test_request_response_tool_ok() {
    let config = oai_config();
    let sys_msg = "test sys message";
    let call_id = "call_id";
    let call_tool = "tool2";

    let tools = vec![
        ToolSpec {
            name: "tool1".to_owned(),
            description: "tool desc 1".to_owned(),
            params: vec![
                ToolParam {
                    name: "tool1_param1".to_string(),
                    description: "tool1_param1 desc".to_string(),
                    data_type: ParamType::Integer,
                    required: true,
                },
                ToolParam {
                    name: "tool1_param2".to_string(),
                    description: "tool1_param2 desc".to_string(),
                    data_type: ParamType::String,
                    required: false,
                },
            ],
        },
        ToolSpec {
            name: "tool2".to_owned(),
            description: "tool desc 2".to_owned(),
            params: vec![
                ToolParam {
                    name: "tool2_param1".to_string(),
                    description: "tool2_param1 desc".to_string(),
                    data_type: ParamType::Boolean,
                    required: false,
                },
                ToolParam {
                    name: "tool2_param2".to_string(),
                    description: "tool2_param2 desc".to_string(),
                    data_type: ParamType::Number,
                    required: true,
                },
            ],
        },
    ];

    let messages = vec![
        Message::text(Role::User, "test user message 1".to_owned()),
        Message::text(Role::Model, "test resp message 1".to_owned()),
        Message::text(Role::User, "test user message 2".to_owned()),
    ];

    let schema1 = oai_obj(vec![
        ("type", oai_str("object")),
        (
            "properties",
            oai_obj(vec![
                (
                    "tool1_param1",
                    oai_obj(vec![("type", oai_str("integer")), ("description", oai_str("tool1_param1 desc"))]),
                ),
                (
                    "tool1_param2",
                    oai_obj(vec![("type", oai_str("string")), ("description", oai_str("tool1_param2 desc"))]),
                ),
            ]),
        ),
        ("required", Json::Arr(vec![oai_str("tool1_param1")])),
        ("additionalProperties", Json::Bool(false)),
    ]);
    let schema2 = oai_obj(vec![
        ("type", oai_str("object")),
        (
            "properties",
            oai_obj(vec![
                (
                    "tool2_param1",
                    oai_obj(vec![("type", oai_str("boolean")), ("description", oai_str("tool2_param1 desc"))]),
                ),
                (
                    "tool2_param2",
                    oai_obj(vec![("type", oai_str("number")), ("description", oai_str("tool2_param2 desc"))]),
                ),
            ]),
        ),
        ("required", Json::Arr(vec![oai_str("tool2_param2")])),
        ("additionalProperties", Json::Bool(false)),
    ]);
    let tools_json = Json::Arr(vec![
        oai_obj(vec![
            ("type", oai_str("function")),
            (
                "function",
                oai_obj(vec![
                    ("description", oai_str("tool desc 1")),
                    ("name", oai_str("tool1")),
                    ("parameters", schema1),
                    ("strict", Json::Bool(true)),
                ]),
            ),
        ]),
        oai_obj(vec![
            ("type", oai_str("function")),
            (
                "function",
                oai_obj(vec![
                    ("description", oai_str("tool desc 2")),
                    ("name", oai_str("tool2")),
                    ("parameters", schema2),
                    ("strict", Json::Bool(true)),
                ]),
            ),
        ]),
    ]);

    let response_body = oai_obj(vec![
        ("id", oai_str("chatcmpl-123")),
        ("object", oai_str("chat.completion")),
        ("created", Json::Int(1677652288)),
        ("model", oai_str("<model-name>")),
        ("system_fingerprint", oai_str("fp_44709d6fcb")),
        (
            "choices",
            Json::Arr(vec![oai_obj(vec![
                ("index", Json::Int(0)),
                (
                    "message",
                    oai_obj(vec![
                        ("role", oai_str("assistant")),
                        (
                            "tool_calls",
                            Json::Arr(vec![oai_obj(vec![
                                ("id", oai_str(call_id)),
                                ("type", oai_str("function")),
                                (
                                    "function",
                                    oai_obj(vec![
                                        ("arguments", oai_str("{\"tool2_param2\": true}")),
                                        ("name", oai_str(call_tool)),
                                    ]),
                                ),
                            ])]),
                        ),
                    ]),
                ),
                ("logprobs", Json::Null),
                ("finish_reason", oai_str("stop")),
            ])]),
        ),
        (
            "usage",
            oai_obj(vec![
                ("prompt_tokens", Json::Int(9)),
                ("completion_tokens", Json::Int(12)),
                ("total_tokens", Json::Int(21)),
            ]),
        ),
    ]);

    let client = OaiStub {
        expected_headers: vec![("Authorization".to_owned(), "Bearer <api-key>".to_owned())],
        expected_params: vec![],
        expected_payload: oai_expected_payload(sys_msg, tools_json),
        response_body: std::cell::RefCell::new(Some(response_body)),
    };

    let mut chat = OpenAIChat::new(config, client, tools);
    chat.set_system_prompt(sys_msg.to_owned());
    let response = chat.get_inference(&messages, ToolChoice::Auto).expect("receive response");

    assert_eq!(1, response.len());
    if let Message::ToolCall(call) = &response[0] {
        assert_eq!(call.call_id, call_id);
        assert_eq!(call.name, call_tool);
        assert_eq!(call.params.len(), 1);
        assert_eq!(call.params[0].name, "tool2_param2");
        assert_eq!(call.params[0].value, Json::Bool(true));
    } else {
        panic!("type mismatch");
    }
}

struct OaiSeqStub {
    exchanges: std::cell::RefCell<std::collections::VecDeque<(Json, Json)>>,
}

impl Client for OaiSeqStub {
    fn make_json_request(
        &self,
        _url: &str,
        payload: Json,
        _headers: &Vec<(String, String)>,
        _params: &Vec<(String, String)>,
    ) -> Result<Json, Error> {
        let (expected, response) =
            self.exchanges.borrow_mut().pop_front().expect("one expected exchange per call");
        assert_eq!(payload, expected);
        Ok(response)
    }
}

#[test]
fn openai_error_envelope_leaves_history_unchanged() {
    let config = Config::new(
        ModelProvider::try_from("openai").expect("determine model provider"),
        "<model-name>".to_owned(),
        "<api-key>".to_owned(),
        "<api-uri>".to_owned(),
    );
    let sys_msg = "test sys message";

    let payload1 = oai_obj(vec![
        ("model", oai_str("<model-name>")),
        (
            "messages",
            Json::Arr(vec![
                oai_obj(vec![("role", oai_str("system")), ("content", oai_str(sys_msg))]),
                oai_obj(vec![("role", oai_str("user")), ("content", oai_str("one"))]),
            ]),
        ),
        ("parallel_tool_calls", Json::Bool(false)),
    ]);
    let error_body = oai_obj(vec![(
        "error",
        oai_obj(vec![("message", oai_str("rate limited"))]),
    )]);
    // The failed exchange is not appended: the second payload replays only
    // the inputs seen so far.
    let payload2 = oai_obj(vec![
        ("model", oai_str("<model-name>")),
        (
            "messages",
            Json::Arr(vec![
                oai_obj(vec![("role", oai_str("system")), ("content", oai_str(sys_msg))]),
                oai_obj(vec![("role", oai_str("user")), ("content", oai_str("one"))]),
                oai_obj(vec![("role", oai_str("user")), ("content", oai_str("two"))]),
            ]),
        ),
        ("parallel_tool_calls", Json::Bool(false)),
    ]);
    let ok_body = oai_obj(vec![(
        "choices",
        Json::Arr(vec![oai_obj(vec![(
            "message",
            oai_obj(vec![("role", oai_str("assistant")), ("content", oai_str("fine"))]),
        )])]),
    )]);

    let mut exchanges = std::collections::VecDeque::new();
    exchanges.push_back((payload1, error_body));
    exchanges.push_back((payload2, ok_body));
    let client = OaiSeqStub { exchanges: std::cell::RefCell::new(exchanges) };

    let mut chat = OpenAIChat::new(config, client, vec![]);
    chat.set_system_prompt(sys_msg.to_owned());

    let first = chat.get_inference(&vec![Message::text(Role::User, "one".into())], ToolChoice::NoTools);
    if let Err(Error::LLMErrorMessage(msg)) = first {
        assert_eq!(msg, "rate limited");
    } else {
        panic!("type mismatch");
    }

    let second = chat
        .get_inference(&vec![Message::text(Role::User, "two".into())], ToolChoice::NoTools)
        .expect("receive response");
    assert_eq!(second.len(), 1);
}
