//! The Anthropic-shaped provider adapter.
//!
//! The payload carries the system prompt in a dedicated `system` field, and
//! this provider requires an API version tag and a max-token limit at
//! construction time. Tool call arguments come back as a native JSON
//! object.

use vstd::prelude::*;

use crate::config::Config;
use crate::config::ConfigView;
use crate::config::ModelProvider;
use crate::error::Error;
use crate::error::ErrorView;
use crate::json::deep_entries;
use crate::json::deep_seq;
use crate::json::clone_json_list;
use crate::json::json_arr1;
use crate::json::json_index;
use crate::json::json_obj1;
use crate::json::json_obj2;
use crate::json::json_obj3;
use crate::json::lemma_deep_seq;
use crate::json::lemma_deep_seq_push;
use crate::json::push_entry;
use crate::json::Json;
use crate::json::JsonView;
use crate::llm::messages::messages_view;
use crate::llm::messages::Message;
use crate::llm::messages::MessageView;
use crate::llm::messages::Role;
use crate::llm::messages::ToolCall;
use crate::llm::util::check_for_error;
use crate::llm::util::llm_to_role;
use crate::llm::util::opt_i64_entry;
use crate::llm::util::opt_num_entry;
use crate::llm::util::params_of_entries;
use crate::llm::util::res_view;
use crate::llm::util::role_to_llm;
use crate::llm::util::set_i64_param;
use crate::llm::util::set_num_param;
use crate::llm::util::spec_check_error;
use crate::llm::util::spec_llm_to_role;
use crate::llm::util::spec_role_to_llm;
use crate::llm::util::spec_tool_schema;
use crate::llm::util::tool_params_to_value;
use crate::llm::util::ParseOutcome;
use crate::request::Client;
use crate::strutil::str_eq;
use crate::tools::ToolChoice;
use crate::tools::ToolChoiceView;
use crate::tools::ToolSpec;
use crate::tools::ToolSpecView;

verus! {

/// The history entries one input message contributes: a text message in the
/// vendor shape, a tool result as a `tool_result` fragment under the user
/// role, and nothing for a tool call offered as input.
pub open spec fn anthropic_input_entry(provider: ModelProvider, m: MessageView) -> Seq<JsonView> {
    match m {
        MessageView::Text { role, message } => seq![
            JsonView::Obj(
                seq![
                    ("role"@, JsonView::Str(spec_role_to_llm(provider, role))),
                    ("content"@, JsonView::Str(message)),
                ],
            ),
        ],
        MessageView::ToolResult { call_id, name, result } => seq![
            JsonView::Obj(
                seq![
                    ("role"@, JsonView::Str(spec_role_to_llm(provider, Role::User))),
                    (
                        "content"@,
                        JsonView::Arr(
                            seq![
                                JsonView::Obj(
                                    seq![
                                        ("type"@, JsonView::Str("tool_result"@)),
                                        ("tool_use_id"@, JsonView::Str(call_id)),
                                        ("content"@, JsonView::Str(result)),
                                    ],
                                ),
                            ],
                        ),
                    ),
                ],
            ),
        ],
        MessageView::ToolCall { .. } => Seq::empty(),
    }
}

/// The history entries a batch of input messages contributes, in order.
pub open spec fn anthropic_input_entries(provider: ModelProvider, msgs: Seq<MessageView>) -> Seq<
    JsonView,
>
    decreases msgs.len(),
{
    if msgs.len() == 0 {
        Seq::empty()
    } else {
        anthropic_input_entry(provider, msgs[0]) + anthropic_input_entries(
            provider,
            msgs.drop_first(),
        )
    }
}

/// The tool declarations attached to a payload.
pub open spec fn anthropic_tools_array(tools: Seq<ToolSpecView>) -> Seq<JsonView> {
    tools.map_values(
        |t: ToolSpecView|
            JsonView::Obj(
                seq![
                    ("description"@, JsonView::Str(t.description)),
                    ("name"@, JsonView::Str(t.name)),
                    ("input_schema"@, spec_tool_schema(t.params, ModelProvider::Anthropic)),
                ],
            ),
    )
}

/// The payload entries the tool choice contributes. Whenever tools are
/// attached, parallel tool use is disabled in the `tool_choice` directive.
pub open spec fn anthropic_tool_entries(tools: Seq<ToolSpecView>, choice: ToolChoiceView) -> Seq<
    (Seq<char>, JsonView),
> {
    match choice {
        ToolChoiceView::NoTools => Seq::empty(),
        ToolChoiceView::Auto => seq![
            (
                "tool_choice"@,
                JsonView::Obj(
                    seq![
                        ("type"@, JsonView::Str("auto"@)),
                        ("disable_parallel_tool_use"@, JsonView::Bool(true)),
                    ],
                ),
            ),
            ("tools"@, JsonView::Arr(anthropic_tools_array(tools))),
        ],
        ToolChoiceView::CallOne => seq![
            (
                "tool_choice"@,
                JsonView::Obj(
                    seq![
                        ("type"@, JsonView::Str("any"@)),
                        ("disable_parallel_tool_use"@, JsonView::Bool(true)),
                    ],
                ),
            ),
            ("tools"@, JsonView::Arr(anthropic_tools_array(tools))),
        ],
        ToolChoiceView::Force(name) => seq![
            (
                "tool_choice"@,
                JsonView::Obj(
                    seq![
                        ("type"@, JsonView::Str("tool"@)),
                        ("name"@, JsonView::Str(name)),
                        ("disable_parallel_tool_use"@, JsonView::Bool(true)),
                    ],
                ),
            ),
            ("tools"@, JsonView::Arr(anthropic_tools_array(tools))),
        ],
    }
}

/// The whole payload of one inference call: the model, the system prompt in
/// its dedicated field, the replayed history, every configured sampling
/// parameter and no other, and the tool directives.
pub open spec fn anthropic_payload(
    c: ConfigView,
    system_prompt: Seq<char>,
    history: Seq<JsonView>,
    tools: Seq<ToolSpecView>,
    choice: ToolChoiceView,
) -> JsonView {
    JsonView::Obj(
        seq![
            ("model"@, JsonView::Str(c.name)),
            ("system"@, JsonView::Str(system_prompt)),
            ("messages"@, JsonView::Arr(history)),
        ] + opt_i64_entry("max_tokens"@, c.max_tokens) + opt_num_entry("top_p"@, c.top_p)
            + opt_i64_entry("top_k"@, c.top_k) + opt_num_entry("temperature"@, c.temperature) + (
        match c.stop_sequence {
            Some(s) => seq![("stop_sequences"@, JsonView::Arr(seq![JsonView::Str(s)]))],
            None => Seq::<(Seq<char>, JsonView)>::empty(),
        }) + anthropic_tool_entries(tools, choice),
    )
}

/// What one content fragment normalizes to, given the response role: a text
/// message, a tool call, or the first error met.
pub open spec fn anthropic_fragment(msg: JsonView, role: Role) -> Result<MessageView, ErrorView> {
    match json_index(msg, "type"@) {
        JsonView::Str(t) => if t == "text"@ {
            match json_index(msg, "text"@) {
                JsonView::Str(s) => Ok(MessageView::Text { role, message: s }),
                _ => Err(
                    ErrorView::LLMResponseError("can't extract text from LLM API response."@),
                ),
            }
        } else if t == "tool_use"@ {
            match json_index(msg, "id"@) {
                JsonView::Str(id) => match json_index(msg, "name"@) {
                    JsonView::Str(name) => match json_index(msg, "input"@) {
                        JsonView::Obj(es) => Ok(
                            MessageView::ToolCall { call_id: id, name, params: es },
                        ),
                        _ => Err(
                            ErrorView::LLMResponseError("can't enumerate tool call parameters."@),
                        ),
                    },
                    _ => Err(
                        ErrorView::LLMResponseError(
                            "can't extract tool name from LLM API response."@,
                        ),
                    ),
                },
                _ => Err(
                    ErrorView::LLMResponseError(
                        "can't extract tool call id from LLM API response."@,
                    ),
                ),
            }
        } else {
            Err(ErrorView::LLMResponseError("unexpected message type."@))
        },
        _ => Err(
            ErrorView::LLMResponseError("can't extract message type from LLM API response."@),
        ),
    }
}

/// The history entry recording one response fragment: the response role and
/// the fragment, verbatim, as a one-element content list.
pub open spec fn anthropic_echo_entry(role_s: Seq<char>, msg: JsonView) -> JsonView {
    JsonView::Obj(
        seq![("role"@, JsonView::Str(role_s)), ("content"@, JsonView::Arr(seq![msg]))],
    )
}

/// What walking the content fragments does: each fragment is appended to
/// the history verbatim, then normalized; an error stops the walk.
pub open spec fn anthropic_fragments(msgs: Seq<JsonView>, role_s: Seq<char>, role: Role) -> ParseOutcome
    decreases msgs.len(),
{
    if msgs.len() == 0 {
        ParseOutcome { result: Ok(Seq::empty()), appended: Seq::empty() }
    } else {
        match anthropic_fragment(msgs[0], role) {
            Err(e) => ParseOutcome {
                result: Err(e),
                appended: seq![anthropic_echo_entry(role_s, msgs[0])],
            },
            Ok(m) => {
                let rest = anthropic_fragments(msgs.drop_first(), role_s, role);
                ParseOutcome {
                    result: match rest.result {
                        Ok(more) => Ok(seq![m] + more),
                        Err(e) => Err(e),
                    },
                    appended: seq![anthropic_echo_entry(role_s, msgs[0])] + rest.appended,
                }
            },
        }
    }
}

/// What processing a whole response does: an error envelope short-circuits
/// with the history untouched; otherwise the response role is read and the
/// content fragments are walked in order.
pub open spec fn anthropic_parse(resp: JsonView) -> ParseOutcome {
    match spec_check_error(resp) {
        Some(e) => ParseOutcome { result: Err(e), appended: Seq::empty() },
        None => match json_index(resp, "role"@) {
            JsonView::Str(role_s) => match spec_llm_to_role(role_s) {
                Some(role) => match json_index(resp, "content"@) {
                    JsonView::Arr(msgs) => anthropic_fragments(msgs, role_s, role),
                    _ => ParseOutcome {
                        result: Err(
                            ErrorView::LLMResponseError(
                                "can't enumerate messages in the response."@,
                            ),
                        ),
                        appended: Seq::empty(),
                    },
                },
                None => ParseOutcome {
                    result: Err(
                        ErrorView::LLMResponseError("LLM returned message with an unknown role."@),
                    ),
                    appended: Seq::empty(),
                },
            },
            _ => ParseOutcome {
                result: Err(
                    ErrorView::LLMResponseError("can't extract role from LLM API response."@),
                ),
                appended: Seq::empty(),
            },
        },
    }
}

/// Peeling one message off the input batch.
proof fn lemma_anthropic_inputs_skip(provider: ModelProvider, msgs: Seq<MessageView>, i: int)
    requires
        0 <= i < msgs.len(),
    ensures
        anthropic_input_entries(provider, msgs.skip(i)) == anthropic_input_entry(provider, msgs[i])
            + anthropic_input_entries(provider, msgs.skip(i + 1)),
{
    assert(msgs.skip(i)[0] == msgs[i]);
    assert(msgs.skip(i).drop_first() =~= msgs.skip(i + 1));
}

/// Peeling one fragment off the content list.
proof fn lemma_anthropic_fragments_skip(msgs: Seq<JsonView>, role_s: Seq<char>, role: Role, i: int)
    requires
        0 <= i < msgs.len(),
    ensures
        anthropic_fragments(msgs.skip(i), role_s, role) == ({
            match anthropic_fragment(msgs[i], role) {
                Err(e) => ParseOutcome {
                    result: Err(e),
                    appended: seq![anthropic_echo_entry(role_s, msgs[i])],
                },
                Ok(m) => {
                    let rest = anthropic_fragments(msgs.skip(i + 1), role_s, role);
                    ParseOutcome {
                        result: match rest.result {
                            Ok(more) => Ok(seq![m] + more),
                            Err(e) => Err(e),
                        },
                        appended: seq![anthropic_echo_entry(role_s, msgs[i])] + rest.appended,
                    }
                },
            }
        }),
{
    assert(msgs.skip(i)[0] == msgs[i]);
    assert(msgs.skip(i).drop_first() =~= msgs.skip(i + 1));
}

/// Chat with an Anthropic-shaped provider, owning the vendor-native
/// history. Creation requires an API version and a max-token limit.
pub struct AnthropicChat<C: Client> {
    system_prompt: String,
    history: Vec<Json>,
    config: Config,
    api_version: String,
    client: C,
    tools: Vec<ToolSpec>,
}

impl<C: Client> AnthropicChat<C> {
    /// The system prompt as currently set.
    pub closed spec fn spec_system_prompt(self) -> Seq<char> {
        self.system_prompt@
    }

    /// The vendor-native history, oldest entry first.
    pub closed spec fn spec_history(self) -> Seq<JsonView> {
        deep_seq(self.history@)
    }

    /// The configuration the chat was created with.
    pub closed spec fn spec_config(self) -> ConfigView {
        self.config@
    }

    /// The tools bound to the chat.
    pub closed spec fn spec_tools(self) -> Seq<ToolSpecView> {
        crate::tools::tool_specs_view(self.tools@)
    }

    /// The transport the chat sends through.
    pub closed spec fn spec_client(self) -> C {
        self.client
    }

    /// Create a chat with an empty history and an empty system prompt. The
    /// API version and the max-token limit are mandatory: a configuration
    /// missing either is rejected before any network call.
    pub fn new(config: Config, client: C, tools: Vec<ToolSpec>) -> (r: Result<AnthropicChat<C>, Error>)
        ensures
            match r {
                Ok(chat) => {
                    &&& config@.api_version is Some
                    &&& config@.max_tokens is Some
                    &&& chat.spec_system_prompt() == Seq::<char>::empty()
                    &&& chat.spec_history() == Seq::<JsonView>::empty()
                    &&& chat.spec_config() == config@
                    &&& chat.spec_tools() == crate::tools::tool_specs_view(tools@)
                    &&& chat.spec_client() == client
                },
                Err(e) => {
                    &&& (config@.api_version is None || config@.max_tokens is None)
                    &&& e@ == (if config@.api_version is None {
                        ErrorView::MissingArgError("api-version is mandatory for anthropic."@)
                    } else {
                        ErrorView::MissingArgError("max-tokens is mandatory for anthropic."@)
                    })
                },
            },
    {
        let api_version = match &config.api_version {
            Some(v) => v.clone(),
            None => {
                return Err(Error::MissingArgError("api-version is mandatory for anthropic."));
            },
        };
        if config.max_tokens.is_none() {
            return Err(Error::MissingArgError("max-tokens is mandatory for anthropic."));
        }
        let r = AnthropicChat {
            system_prompt: String::new(),
            history: Vec::new(),
            config,
            api_version,
            client,
            tools,
        };
        proof {
            assert(r.spec_history() =~= Seq::<JsonView>::empty());
        }
        Ok(r)
    }

    /// Forget the conversation so far.
    pub fn clear_history(&mut self)
        ensures
            final(self).spec_history() == Seq::<JsonView>::empty(),
            final(self).spec_system_prompt() == old(self).spec_system_prompt(),
            final(self).spec_config() == old(self).spec_config(),
            final(self).spec_tools() == old(self).spec_tools(),
            final(self).spec_client() == old(self).spec_client(),
    {
        self.history.clear();
        proof {
            assert(final(self).spec_history() =~= Seq::<JsonView>::empty());
        }
    }

    /// Set the system prompt; it travels in the payload's `system` field.
    pub fn set_system_prompt(&mut self, prompt: String)
        ensures
            final(self).spec_system_prompt() == prompt@,
            final(self).spec_history() == old(self).spec_history(),
            final(self).spec_config() == old(self).spec_config(),
            final(self).spec_tools() == old(self).spec_tools(),
            final(self).spec_client() == old(self).spec_client(),
    {
        self.system_prompt = prompt;
    }

    /// The vendor-shaped history entry for one input text message.
    fn text_entry(provider: ModelProvider, txt: &crate::llm::messages::Text) -> (r: Json)
        ensures
            seq![r.deep()] == anthropic_input_entry(
                provider,
                MessageView::Text { role: txt.role, message: txt.message@ },
            ),
    {
        let r = json_obj2(
            "role",
            Json::Str(role_to_llm(provider, txt.role).to_owned()),
            "content",
            Json::Str(txt.message.clone()),
        );
        proof {
            assert(seq![r.deep()] == anthropic_input_entry(
                provider,
                MessageView::Text { role: txt.role, message: txt.message@ },
            ));
        }
        r
    }

    /// The vendor-shaped history entry for one input tool result.
    fn tool_result_entry(provider: ModelProvider, res: &crate::llm::messages::ToolResult) -> (r:
        Json)
        ensures
            seq![r.deep()] == anthropic_input_entry(
                provider,
                MessageView::ToolResult {
                    call_id: res.call_id@,
                    name: res.name@,
                    result: res.result@,
                },
            ),
    {
        let fragment = json_obj3(
            "type",
            Json::Str("tool_result".to_owned()),
            "tool_use_id",
            Json::Str(res.call_id.clone()),
            "content",
            Json::Str(res.result.clone()),
        );
        let r = json_obj2(
            "role",
            Json::Str(role_to_llm(provider, Role::User).to_owned()),
            "content",
            json_arr1(fragment),
        );
        proof {
            assert(seq![r.deep()] == anthropic_input_entry(
                provider,
                MessageView::ToolResult {
                    call_id: res.call_id@,
                    name: res.name@,
                    result: res.result@,
                },
            ));
        }
        r
    }

    /// Append the input messages to the history and build the payload of
    /// this turn.
    pub fn prep_payload(&mut self, messages: &Vec<Message>, tools: ToolChoice) -> (r: Json)
        ensures
            final(self).spec_system_prompt() == old(self).spec_system_prompt(),
            final(self).spec_config() == old(self).spec_config(),
            final(self).spec_tools() == old(self).spec_tools(),
            final(self).spec_client() == old(self).spec_client(),
            final(self).spec_history() == old(self).spec_history() + anthropic_input_entries(
                old(self).spec_config().provider,
                messages_view(messages@),
            ),
            r.deep() == anthropic_payload(
                old(self).spec_config(),
                old(self).spec_system_prompt(),
                final(self).spec_history(),
                old(self).spec_tools(),
                tools@,
            ),
    {
        let ghost self0 = *self;
        let ghost mv = messages_view(messages@);
        let ghost provider = self.config@.provider;
        let ghost mut delta: Seq<JsonView> = Seq::empty();
        let n = messages.len();
        proof {
            assert(mv.skip(0) =~= mv);
            assert(deep_seq(self.history@) + delta =~= deep_seq(self.history@));
        }
        for i in 0..n
            invariant
                n == messages.len(),
                mv == messages_view(messages@),
                mv.len() == n,
                self.system_prompt == self0.system_prompt,
                self.config == self0.config,
                self.api_version == self0.api_version,
                self.tools == self0.tools,
                self.client == self0.client,
                deep_seq(self.history@) == deep_seq(self0.history@) + delta,
                anthropic_input_entries(provider, mv) == delta + anthropic_input_entries(
                    provider,
                    mv.skip(i as int),
                ),
                provider == self0.config@.provider,
        {
            let ghost pre = self.history@;
            let m = &messages[i];
            match m {
                Message::Text(txt) => {
                    let entry = Self::text_entry(self.config.provider, txt);
                    self.history.push(entry);
                    proof {
                        lemma_deep_seq_push(pre, self.history@.last());
                        assert(mv[i as int] == (MessageView::Text {
                            role: txt.role,
                            message: txt.message@,
                        }));
                        delta = delta + anthropic_input_entry(provider, mv[i as int]);
                        assert(deep_seq(self.history@) =~= deep_seq(self0.history@) + delta);
                    }
                },
                Message::ToolResult(res) => {
                    let entry = Self::tool_result_entry(self.config.provider, res);
                    self.history.push(entry);
                    proof {
                        lemma_deep_seq_push(pre, self.history@.last());
                        assert(mv[i as int] == (MessageView::ToolResult {
                            call_id: res.call_id@,
                            name: res.name@,
                            result: res.result@,
                        }));
                        delta = delta + anthropic_input_entry(provider, mv[i as int]);
                        assert(deep_seq(self.history@) =~= deep_seq(self0.history@) + delta);
                    }
                },
                Message::ToolCall(_) => {
                    proof {
                        assert(anthropic_input_entry(provider, mv[i as int]) =~= Seq::<
                            JsonView,
                        >::empty());
                        delta = delta + anthropic_input_entry(provider, mv[i as int]);
                        assert(deep_seq(self.history@) =~= deep_seq(self0.history@) + delta);
                    }
                },
            }
            proof {
                lemma_anthropic_inputs_skip(provider, mv, i as int);
                assert(anthropic_input_entries(provider, mv) =~= delta + anthropic_input_entries(
                    provider,
                    mv.skip(i + 1int),
                ));
            }
        }
        proof {
            assert(mv.skip(n as int) =~= Seq::<MessageView>::empty());
            assert(anthropic_input_entries(provider, mv) =~= delta);
        }
        let mut entries: Vec<(String, Json)> = Vec::new();
        push_entry(&mut entries, "model", Json::Str(self.config.name.clone()));
        push_entry(&mut entries, "system", Json::Str(self.system_prompt.clone()));
        push_entry(&mut entries, "messages", Json::Arr(clone_json_list(&self.history)));
        set_i64_param(&mut entries, "max_tokens", &self.config.max_tokens);
        set_num_param(&mut entries, "top_p", &self.config.top_p);
        set_i64_param(&mut entries, "top_k", &self.config.top_k);
        set_num_param(&mut entries, "temperature", &self.config.temperature);
        match &self.config.stop_sequence {
            Some(s) => {
                push_entry(&mut entries, "stop_sequences", json_arr1(Json::Str(s.clone())));
            },
            None => {},
        }
        self.prep_tool_use(&mut entries, tools);
        proof {
            assert(deep_entries(entries@) =~~= anthropic_payload(
                self0.config@,
                self0.system_prompt@,
                deep_seq(self.history@),
                self0.spec_tools(),
                tools@,
            )->Obj_0);
        }
        Json::Obj(entries)
    }

    /// Attach the tool-choice directive, with parallel tool use disabled,
    /// and the tool declarations.
    fn prep_tool_use(&self, entries: &mut Vec<(String, Json)>, tools: ToolChoice)
        ensures
            deep_entries(final(entries)@) == deep_entries(old(entries)@) + anthropic_tool_entries(
                self.spec_tools(),
                tools@,
            ),
    {
        let ghost pre = deep_entries(entries@);
        let ghost choice = tools@;
        match tools {
            ToolChoice::NoTools => {},
            ToolChoice::Auto => {
                let d = json_obj2(
                    "type",
                    Json::Str("auto".to_owned()),
                    "disable_parallel_tool_use",
                    Json::Bool(true),
                );
                push_entry(entries, "tool_choice", d);
                self.add_tools(entries);
            },
            ToolChoice::CallOne => {
                let d = json_obj2(
                    "type",
                    Json::Str("any".to_owned()),
                    "disable_parallel_tool_use",
                    Json::Bool(true),
                );
                push_entry(entries, "tool_choice", d);
                self.add_tools(entries);
            },
            ToolChoice::Force(tool) => {
                let d = json_obj3(
                    "type",
                    Json::Str("tool".to_owned()),
                    "name",
                    Json::Str(tool),
                    "disable_parallel_tool_use",
                    Json::Bool(true),
                );
                push_entry(entries, "tool_choice", d);
                self.add_tools(entries);
            },
        }
        proof {
            assert(deep_entries(entries@) =~= pre + anthropic_tool_entries(
                self.spec_tools(),
                choice,
            ));
        }
    }

    /// Attach the tool declarations.
    fn add_tools(&self, entries: &mut Vec<(String, Json)>)
        ensures
            deep_entries(final(entries)@) == deep_entries(old(entries)@) + seq![
                ("tools"@, JsonView::Arr(anthropic_tools_array(self.spec_tools()))),
            ],
    {
        let ghost tv = self.spec_tools();
        let mut arr: Vec<Json> = Vec::new();
        let n = self.tools.len();
        for i in 0..n
            invariant
                n == self.tools.len(),
                tv == self.spec_tools(),
                tv.len() == n,
                arr@.len() == i,
                forall|j: int| 0 <= j < i ==> arr@[j].deep() == anthropic_tools_array(tv)[j],
        {
            let spec = &self.tools[i];
            let o = json_obj3(
                "description",
                Json::Str(spec.description.clone()),
                "name",
                Json::Str(spec.name.clone()),
                "input_schema",
                tool_params_to_value(&spec.params, ModelProvider::Anthropic),
            );
            arr.push(o);
            proof {
                assert(tv[i as int] == self.tools@[i as int]@);
                assert(arr@.last().deep() == anthropic_tools_array(tv)[i as int]);
            }
        }
        proof {
            lemma_deep_seq(arr@);
            assert(deep_seq(arr@) =~= anthropic_tools_array(tv));
        }
        push_entry(entries, "tools", Json::Arr(arr));
    }

    /// Normalize one content fragment.
    fn message_of_fragment(msg: &Json, role: Role) -> (r: Result<Message, Error>)
        ensures
            match r {
                Ok(m) => anthropic_fragment(msg.deep(), role) == Ok::<MessageView, ErrorView>(m@),
                Err(e) => anthropic_fragment(msg.deep(), role) == Err::<MessageView, ErrorView>(
                    e@,
                ),
            },
    {
        let t = match msg.get("type") {
            Some(v) => match v.as_str() {
                Some(s) => s,
                None => {
                    return Err(
                        Error::LLMResponseError("can't extract message type from LLM API response."),
                    );
                },
            },
            None => {
                return Err(
                    Error::LLMResponseError("can't extract message type from LLM API response."),
                );
            },
        };
        if str_eq(t.as_str(), "text") {
            match msg.get("text") {
                Some(v) => match v.as_str() {
                    Some(s) => Ok(Message::text(role, s.clone())),
                    None => Err(Error::LLMResponseError("can't extract text from LLM API response.")),
                },
                None => Err(Error::LLMResponseError("can't extract text from LLM API response.")),
            }
        } else if str_eq(t.as_str(), "tool_use") {
            let id = match msg.get("id") {
                Some(v) => match v.as_str() {
                    Some(s) => s.clone(),
                    None => {
                        return Err(
                            Error::LLMResponseError(
                                "can't extract tool call id from LLM API response.",
                            ),
                        );
                    },
                },
                None => {
                    return Err(
                        Error::LLMResponseError("can't extract tool call id from LLM API response."),
                    );
                },
            };
            let name = match msg.get("name") {
                Some(v) => match v.as_str() {
                    Some(s) => s.clone(),
                    None => {
                        return Err(
                            Error::LLMResponseError("can't extract tool name from LLM API response."),
                        );
                    },
                },
                None => {
                    return Err(
                        Error::LLMResponseError("can't extract tool name from LLM API response."),
                    );
                },
            };
            match msg.get("input") {
                Some(v) => match v.as_object() {
                    Some(entries) => {
                        let params = params_of_entries(entries);
                        Ok(Message::ToolCall(ToolCall { call_id: id, name, params }))
                    },
                    None => Err(Error::LLMResponseError("can't enumerate tool call parameters.")),
                },
                None => Err(Error::LLMResponseError("can't enumerate tool call parameters.")),
            }
        } else {
            Err(Error::LLMResponseError("unexpected message type."))
        }
    }

    /// Translate a response into normalized messages, appending each
    /// fragment verbatim to the history. An explicit error envelope is
    /// surfaced with the history untouched.
    pub fn process_response(&mut self, response: Json) -> (r: Result<Vec<Message>, Error>)
        ensures
            final(self).spec_system_prompt() == old(self).spec_system_prompt(),
            final(self).spec_config() == old(self).spec_config(),
            final(self).spec_tools() == old(self).spec_tools(),
            final(self).spec_client() == old(self).spec_client(),
            final(self).spec_history() == old(self).spec_history() + anthropic_parse(
                response@,
            ).appended,
            res_view(r) == anthropic_parse(response@).result,
    {
        let ghost self0 = *self;
        proof {
            assert(deep_seq(self.history@) + Seq::<JsonView>::empty() =~= deep_seq(
                self.history@,
            ));
        }
        match check_for_error(&response) {
            Err(e) => {
                return Err(e);
            },
            Ok(u) => {},
        }
        let role_s = match response.get("role") {
            Some(v) => match v.as_str() {
                Some(s) => s.clone(),
                None => {
                    return Err(Error::LLMResponseError("can't extract role from LLM API response."));
                },
            },
            None => {
                return Err(Error::LLMResponseError("can't extract role from LLM API response."));
            },
        };
        let role = match llm_to_role(role_s.as_str()) {
            Ok(ro) => ro,
            Err(e) => {
                return Err(e);
            },
        };
        let items = match response.get("content") {
            Some(c) => match c.as_array() {
                Some(a) => a,
                None => {
                    return Err(
                        Error::LLMResponseError("can't enumerate messages in the response."),
                    );
                },
            },
            None => {
                return Err(Error::LLMResponseError("can't enumerate messages in the response."));
            },
        };
        let ghost csv = deep_seq(items@);
        let ghost mut delta: Seq<JsonView> = Seq::empty();
        let mut out: Vec<Message> = Vec::new();
        let n = items.len();
        proof {
            lemma_deep_seq(items@);
            assert(csv.skip(0) =~= csv);
            assert(messages_view(out@) =~= Seq::<MessageView>::empty());
            if anthropic_fragments(csv, role_s@, role).result is Ok {
                assert(messages_view(out@) + anthropic_fragments(csv, role_s@, role).result->Ok_0
                    =~= anthropic_fragments(csv, role_s@, role).result->Ok_0);
            }
            assert(delta + anthropic_fragments(csv, role_s@, role).appended =~= anthropic_fragments(
                csv,
                role_s@,
                role,
            ).appended);
        }
        for i in 0..n
            invariant
                n == items.len(),
                csv == deep_seq(items@),
                csv.len() == n,
                self0 == *old(self),
                anthropic_parse(response@) == anthropic_fragments(csv, role_s@, role),
                self.system_prompt == self0.system_prompt,
                self.config == self0.config,
                self.api_version == self0.api_version,
                self.tools == self0.tools,
                self.client == self0.client,
                deep_seq(self.history@) == deep_seq(self0.history@) + delta,
                anthropic_fragments(csv, role_s@, role).result == (match anthropic_fragments(
                    csv.skip(i as int),
                    role_s@,
                    role,
                ).result {
                    Ok(more) => Ok::<Seq<MessageView>, ErrorView>(messages_view(out@) + more),
                    Err(e) => Err::<Seq<MessageView>, ErrorView>(e),
                }),
                anthropic_fragments(csv, role_s@, role).appended == delta + anthropic_fragments(
                    csv.skip(i as int),
                    role_s@,
                    role,
                ).appended,
        {
            proof {
                lemma_deep_seq(items@);
                lemma_anthropic_fragments_skip(csv, role_s@, role, i as int);
            }
            let msg = &items[i];
            let echo = json_obj2(
                "role",
                Json::Str(role_s.clone()),
                "content",
                json_arr1(msg.deep_clone()),
            );
            let ghost pre = self.history@;
            let ghost delta_old = delta;
            self.history.push(echo);
            proof {
                lemma_deep_seq_push(pre, self.history@.last());
                assert(self.history@.last().deep() == anthropic_echo_entry(
                    role_s@,
                    csv[i as int],
                ));
                delta = delta + seq![anthropic_echo_entry(role_s@, csv[i as int])];
                assert(deep_seq(self.history@) =~= deep_seq(self0.history@) + delta);
            }
            match Self::message_of_fragment(msg, role) {
                Ok(m) => {
                    let ghost pre_out = out@;
                    out.push(m);
                    proof {
                        assert(messages_view(out@) =~= messages_view(pre_out) + seq![
                            out@.last()@,
                        ]);
                        if anthropic_fragments(csv, role_s@, role).result is Ok {
                            assert(messages_view(out@) + anthropic_fragments(
                                csv.skip(i + 1int),
                                role_s@,
                                role,
                            ).result->Ok_0 =~= messages_view(pre_out) + anthropic_fragments(
                                csv.skip(i as int),
                                role_s@,
                                role,
                            ).result->Ok_0);
                        }
                        assert(delta + anthropic_fragments(csv.skip(i + 1int), role_s@, role).appended
                            =~= delta_old + anthropic_fragments(
                            csv.skip(i as int),
                            role_s@,
                            role,
                        ).appended);
                    }
                },
                Err(e) => {
                    proof {
                        assert(anthropic_fragments(csv, role_s@, role).appended =~= delta);
                    }
                    return Err(e);
                },
            }
        }
        proof {
            assert(csv.skip(n as int) =~= Seq::<JsonView>::empty());
            if anthropic_fragments(csv, role_s@, role).result is Ok {
                assert(messages_view(out@) + Seq::<MessageView>::empty() =~= messages_view(out@));
            }
            assert(anthropic_fragments(csv, role_s@, role).appended =~= delta + Seq::<
                JsonView,
            >::empty());
        }
        Ok(out)
    }

    /// One inference turn: append the inputs, send the payload with the
    /// API key and version headers, and normalize whatever the provider
    /// answered.
    pub fn get_inference(&mut self, messages: &Vec<Message>, tools: ToolChoice) -> (r: Result<
        Vec<Message>,
        Error,
    >)
        ensures
            final(self).spec_system_prompt() == old(self).spec_system_prompt(),
            final(self).spec_config() == old(self).spec_config(),
            final(self).spec_tools() == old(self).spec_tools(),
            final(self).spec_client() == old(self).spec_client(),
            ({
                let hist1 = old(self).spec_history() + anthropic_input_entries(
                    old(self).spec_config().provider,
                    messages_view(messages@),
                );
                ||| (r is Err && final(self).spec_history() == hist1)
                ||| exists|resp: JsonView|
                    {
                        &&& res_view(r) == anthropic_parse(resp).result
                        &&& final(self).spec_history() == hist1 + anthropic_parse(resp).appended
                    }
            }),
    {
        let payload = self.prep_payload(messages, tools);
        let mut headers: Vec<(String, String)> = Vec::new();
        headers.push(("x-api-key".to_owned(), self.config.api_key.clone()));
        headers.push(("anthropic-version".to_owned(), self.api_version.clone()));
        let params: Vec<(String, String)> = Vec::new();
        let response = match self.client.make_json_request(
            self.config.api_url.as_str(),
            payload,
            &headers,
            &params,
        ) {
            Ok(v) => v,
            Err(e) => {
                return Err(e);
            },
        };
        let ghost resp = response@;
        let r = self.process_response(response);
        proof {
            assert(res_view(r) == anthropic_parse(resp).result);
        }
        r
    }
}


/// The leading characters of the payload keys, telling every pair apart.
proof fn lemma_anthropic_key_chars()
    ensures
        "model"@[0] == 'm' && "model"@[1] == 'o',
        "system"@[0] == 's' && "system"@[1] == 'y',
        "messages"@[0] == 'm' && "messages"@[1] == 'e',
        "max_tokens"@[0] == 'm' && "max_tokens"@[1] == 'a',
        "top_p"@[0] == 't' && "top_p"@[1] == 'o' && "top_p"@[2] == 'p' && "top_p"@[3] == '_'
            && "top_p"@[4] == 'p',
        "top_k"@[0] == 't' && "top_k"@[1] == 'o' && "top_k"@[2] == 'p' && "top_k"@[3] == '_'
            && "top_k"@[4] == 'k',
        "temperature"@[0] == 't' && "temperature"@[1] == 'e',
        "stop_sequences"@[0] == 's' && "stop_sequences"@[1] == 't',
        "tool_choice"@[0] == 't' && "tool_choice"@[1] == 'o' && "tool_choice"@[2] == 'o',
        "tools"@[0] == 't' && "tools"@[1] == 'o' && "tools"@[2] == 'o' && "tools"@[3] == 'l'
            && "tools"@[4] == 's',
        "tool_choice"@[3] == 'l' && "tool_choice"@[4] == '_',
        "type"@[0] == 't' && "type"@[1] == 'y',
        "name"@[0] == 'n',
        "disable_parallel_tool_use"@[0] == 'd',
{
    reveal_strlit("model");
    reveal_strlit("system");
    reveal_strlit("messages");
    reveal_strlit("max_tokens");
    reveal_strlit("top_p");
    reveal_strlit("top_k");
    reveal_strlit("temperature");
    reveal_strlit("stop_sequences");
    reveal_strlit("tool_choice");
    reveal_strlit("tools");
    reveal_strlit("type");
    reveal_strlit("name");
    reveal_strlit("disable_parallel_tool_use");
}

/// The payload entries the tool choice contributes hold exactly the tool
/// directive keys, and only when tools are attached.
proof fn lemma_anthropic_tool_entries_has_key(
    tools: Seq<ToolSpecView>,
    choice: ToolChoiceView,
    probe: Seq<char>,
)
    ensures
        crate::json::entries_has_key(anthropic_tool_entries(tools, choice), probe) == (!(choice
            is NoTools) && (probe == "tool_choice"@ || probe == "tools"@)),
{
    match choice {
        ToolChoiceView::NoTools => {},
        ToolChoiceView::Auto => {
            crate::json::lemma_has_key_pair(
                (
                    "tool_choice"@,
                    JsonView::Obj(
                        seq![
                            ("type"@, JsonView::Str("auto"@)),
                            ("disable_parallel_tool_use"@, JsonView::Bool(true)),
                        ],
                    ),
                ),
                ("tools"@, JsonView::Arr(anthropic_tools_array(tools))),
                probe,
            );
        },
        ToolChoiceView::CallOne => {
            crate::json::lemma_has_key_pair(
                (
                    "tool_choice"@,
                    JsonView::Obj(
                        seq![
                            ("type"@, JsonView::Str("any"@)),
                            ("disable_parallel_tool_use"@, JsonView::Bool(true)),
                        ],
                    ),
                ),
                ("tools"@, JsonView::Arr(anthropic_tools_array(tools))),
                probe,
            );
        },
        ToolChoiceView::Force(name) => {
            crate::json::lemma_has_key_pair(
                (
                    "tool_choice"@,
                    JsonView::Obj(
                        seq![
                            ("type"@, JsonView::Str("tool"@)),
                            ("name"@, JsonView::Str(name)),
                            ("disable_parallel_tool_use"@, JsonView::Bool(true)),
                        ],
                    ),
                ),
                ("tools"@, JsonView::Arr(anthropic_tools_array(tools))),
                probe,
            );
        },
    }
}

/// Each key's presence in the whole payload, by walking the segments.
proof fn lemma_anthropic_payload_has_key(
    c: ConfigView,
    system_prompt: Seq<char>,
    history: Seq<JsonView>,
    tools: Seq<ToolSpecView>,
    choice: ToolChoiceView,
    probe: Seq<char>,
)
    ensures
        crate::json::json_has_key(
            anthropic_payload(c, system_prompt, history, tools, choice),
            probe,
        ) == (probe == "model"@ || probe == "system"@ || probe == "messages"@ || (c.max_tokens
            is Some && probe == "max_tokens"@) || (c.top_p is Some && probe == "top_p"@) || (c.top_k
            is Some && probe == "top_k"@) || (c.temperature is Some && probe == "temperature"@) || (
        c.stop_sequence is Some && probe == "stop_sequences"@) || (!(choice is NoTools) && (probe
            == "tool_choice"@ || probe == "tools"@))),
{
    broadcast use crate::json::lemma_entries_has_key_concat;
    broadcast use crate::llm::util::lemma_opt_i64_entry_has_key;
    broadcast use crate::llm::util::lemma_opt_num_entry_has_key;

    crate::json::lemma_has_key_triple(
        ("model"@, JsonView::Str(c.name)),
        ("system"@, JsonView::Str(system_prompt)),
        ("messages"@, JsonView::Arr(history)),
        probe,
    );
    match c.stop_sequence {
        Some(st) => {
            crate::json::lemma_has_key_single(
                ("stop_sequences"@, JsonView::Arr(seq![JsonView::Str(st)])),
                probe,
            );
        },
        None => {},
    }
    lemma_anthropic_tool_entries_has_key(tools, choice, probe);
}

/// Law: for any system prompt, history, tool set and tool choice, the built
/// payload includes a sampling parameter field exactly when that parameter
/// is configured — an absent parameter is omitted, never sent as a default.
#[verifier::rlimit(100)]
pub proof fn lemma_anthropic_params_present_iff(
    c: ConfigView,
    system_prompt: Seq<char>,
    history: Seq<JsonView>,
    tools: Seq<ToolSpecView>,
    choice: ToolChoiceView,
)
    ensures
        crate::json::json_has_key(
            anthropic_payload(c, system_prompt, history, tools, choice),
            "temperature"@,
        ) == (c.temperature is Some),
        crate::json::json_has_key(
            anthropic_payload(c, system_prompt, history, tools, choice),
            "top_p"@,
        ) == (c.top_p is Some),
        crate::json::json_has_key(
            anthropic_payload(c, system_prompt, history, tools, choice),
            "top_k"@,
        ) == (c.top_k is Some),
        crate::json::json_has_key(
            anthropic_payload(c, system_prompt, history, tools, choice),
            "max_tokens"@,
        ) == (c.max_tokens is Some),
        crate::json::json_has_key(
            anthropic_payload(c, system_prompt, history, tools, choice),
            "stop_sequences"@,
        ) == (c.stop_sequence is Some),
{
    lemma_anthropic_key_chars();
    lemma_anthropic_payload_has_key(c, system_prompt, history, tools, choice, "temperature"@);
    lemma_anthropic_payload_has_key(c, system_prompt, history, tools, choice, "top_p"@);
    lemma_anthropic_payload_has_key(c, system_prompt, history, tools, choice, "top_k"@);
    lemma_anthropic_payload_has_key(c, system_prompt, history, tools, choice, "max_tokens"@);
    lemma_anthropic_payload_has_key(c, system_prompt, history, tools, choice, "stop_sequences"@);
}

/// Law: whenever tools are attached — the model decides, must call some
/// tool, or must call a named tool — the tool-choice directive of the built
/// payload disables parallel tool use.
#[verifier::rlimit(100)]
pub proof fn lemma_anthropic_parallel_disabled(
    c: ConfigView,
    system_prompt: Seq<char>,
    history: Seq<JsonView>,
    tools: Seq<ToolSpecView>,
    choice: ToolChoiceView,
)
    requires
        !(choice is NoTools),
    ensures
        crate::json::json_index(
            crate::json::json_index(
                anthropic_payload(c, system_prompt, history, tools, choice),
                "tool_choice"@,
            ),
            "disable_parallel_tool_use"@,
        ) == JsonView::Bool(true),
{
    broadcast use crate::json::lemma_entries_has_key_concat;
    broadcast use crate::json::lemma_entries_index_concat;
    broadcast use crate::llm::util::lemma_opt_i64_entry_has_key;
    broadcast use crate::llm::util::lemma_opt_num_entry_has_key;

    lemma_anthropic_key_chars();
    let probe = "tool_choice"@;
    crate::json::lemma_has_key_triple(
        ("model"@, JsonView::Str(c.name)),
        ("system"@, JsonView::Str(system_prompt)),
        ("messages"@, JsonView::Arr(history)),
        probe,
    );
    match c.stop_sequence {
        Some(st) => {
            crate::json::lemma_has_key_single(
                ("stop_sequences"@, JsonView::Arr(seq![JsonView::Str(st)])),
                probe,
            );
        },
        None => {},
    }
    match choice {
        ToolChoiceView::NoTools => {},
        ToolChoiceView::Auto => {
            let d = ("tool_choice"@, JsonView::Obj(
                seq![
                    ("type"@, JsonView::Str("auto"@)),
                    ("disable_parallel_tool_use"@, JsonView::Bool(true)),
                ],
            ));
            let ts = ("tools"@, JsonView::Arr(anthropic_tools_array(tools)));
            crate::json::lemma_has_key_pair(d, ts, probe);
            crate::json::lemma_index_pair(d, ts, probe);
            crate::json::lemma_index_pair(
                ("type"@, JsonView::Str("auto"@)),
                ("disable_parallel_tool_use"@, JsonView::Bool(true)),
                "disable_parallel_tool_use"@,
            );
        },
        ToolChoiceView::CallOne => {
            let d = ("tool_choice"@, JsonView::Obj(
                seq![
                    ("type"@, JsonView::Str("any"@)),
                    ("disable_parallel_tool_use"@, JsonView::Bool(true)),
                ],
            ));
            let ts = ("tools"@, JsonView::Arr(anthropic_tools_array(tools)));
            crate::json::lemma_has_key_pair(d, ts, probe);
            crate::json::lemma_index_pair(d, ts, probe);
            crate::json::lemma_index_pair(
                ("type"@, JsonView::Str("any"@)),
                ("disable_parallel_tool_use"@, JsonView::Bool(true)),
                "disable_parallel_tool_use"@,
            );
        },
        ToolChoiceView::Force(name) => {
            let d = ("tool_choice"@, JsonView::Obj(
                seq![
                    ("type"@, JsonView::Str("tool"@)),
                    ("name"@, JsonView::Str(name)),
                    ("disable_parallel_tool_use"@, JsonView::Bool(true)),
                ],
            ));
            let ts = ("tools"@, JsonView::Arr(anthropic_tools_array(tools)));
            crate::json::lemma_has_key_pair(d, ts, probe);
            crate::json::lemma_index_pair(d, ts, probe);
            crate::json::lemma_index_triple(
                ("type"@, JsonView::Str("tool"@)),
                ("name"@, JsonView::Str(name)),
                ("disable_parallel_tool_use"@, JsonView::Bool(true)),
                "disable_parallel_tool_use"@,
            );
        },
    }
}

} // verus!
