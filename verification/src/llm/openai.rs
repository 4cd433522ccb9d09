//! The OpenAI-shaped provider adapter.
//!
//! The payload places the system prompt as the first history entry, carries
//! the whole replayed history under `messages`, and encodes tool call
//! arguments as a serialized JSON string that needs a nested parse on the
//! way back.

use vstd::prelude::*;

use crate::config::Config;
use crate::config::ConfigView;
use crate::error::Error;
use crate::error::ErrorView;
use crate::json::deep_entries;
use crate::json::deep_seq;
use crate::json::clone_json_list;
use crate::json::json_arr1;
use crate::json::entries_has_key;
use crate::json::entries_index;
use crate::json::json_has_key;
use crate::json::json_index;
use crate::json::json_obj1;
use crate::json::json_obj2;
use crate::json::json_obj3;
use crate::json::json_obj4;
use crate::json::json_parse;
use crate::json::lemma_deep_seq;
use crate::json::lemma_deep_seq_push;
use crate::json::parse_json;
use crate::json::push_entry;
use crate::json::Json;
use crate::json::JsonView;
use crate::llm::messages::messages_view;
use crate::llm::messages::Message;
use crate::llm::messages::MessageView;
use crate::llm::messages::ToolCall;
use crate::llm::util::check_for_error;
use crate::llm::util::lemma_opt_i64_entry_has_key;
use crate::llm::util::lemma_opt_num_entry_has_key;
use crate::llm::util::lemma_opt_str_entry_has_key;
use crate::llm::util::llm_to_role;
use crate::llm::util::opt_i64_entry;
use crate::llm::util::opt_num_entry;
use crate::llm::util::opt_str_entry;
use crate::llm::util::params_of_entries;
use crate::llm::util::res_view;
use crate::llm::util::role_to_llm;
use crate::llm::util::set_i64_param;
use crate::llm::util::set_num_param;
use crate::llm::util::spec_check_error;
use crate::llm::util::spec_llm_to_role;
use crate::llm::util::spec_role_to_llm;
use crate::llm::util::spec_tool_schema;
use crate::llm::util::tool_params_to_value;
use crate::llm::util::ParseOutcome;
use crate::config::ModelProvider;
use crate::request::Client;
use crate::tools::ToolChoice;
use crate::tools::ToolChoiceView;
use crate::tools::ToolSpec;
use crate::tools::ToolSpecView;

verus! {

/// The history entry holding the system prompt.
pub open spec fn openai_system_entry(prompt: Seq<char>) -> JsonView {
    JsonView::Obj(
        seq![("role"@, JsonView::Str("system"@)), ("content"@, JsonView::Str(prompt))],
    )
}

/// The history entries one input message contributes: a text message in the
/// vendor shape, a tool result under the `tool` role, and nothing for a
/// tool call offered as input.
pub open spec fn openai_input_entry(provider: ModelProvider, m: MessageView) -> Seq<JsonView> {
    match m {
        MessageView::Text { role, message } => seq![
            JsonView::Obj(
                seq![
                    ("role"@, JsonView::Str(spec_role_to_llm(provider, role))),
                    ("content"@, JsonView::Str(message)),
                ],
            ),
        ],
        MessageView::ToolResult { call_id, name, result } => seq![
            JsonView::Obj(
                seq![
                    ("role"@, JsonView::Str("tool"@)),
                    ("content"@, JsonView::Str(result)),
                    ("tool_call_id"@, JsonView::Str(call_id)),
                ],
            ),
        ],
        MessageView::ToolCall { .. } => Seq::empty(),
    }
}

/// The history entries a batch of input messages contributes, in order.
pub open spec fn openai_input_entries(provider: ModelProvider, msgs: Seq<MessageView>) -> Seq<
    JsonView,
>
    decreases msgs.len(),
{
    if msgs.len() == 0 {
        Seq::empty()
    } else {
        openai_input_entry(provider, msgs[0]) + openai_input_entries(provider, msgs.drop_first())
    }
}

/// The tool declarations attached to a payload.
pub open spec fn openai_tools_array(tools: Seq<ToolSpecView>) -> Seq<JsonView> {
    tools.map_values(
        |t: ToolSpecView|
            JsonView::Obj(
                seq![
                    ("type"@, JsonView::Str("function"@)),
                    (
                        "function"@,
                        JsonView::Obj(
                            seq![
                                ("description"@, JsonView::Str(t.description)),
                                ("name"@, JsonView::Str(t.name)),
                                ("parameters"@, spec_tool_schema(t.params, ModelProvider::OpenAI)),
                                ("strict"@, JsonView::Bool(true)),
                            ],
                        ),
                    ),
                ],
            ),
    )
}

/// The payload entries the tool choice contributes. Whatever the choice,
/// parallel tool calling is disabled.
pub open spec fn openai_tool_entries(tools: Seq<ToolSpecView>, choice: ToolChoiceView) -> Seq<
    (Seq<char>, JsonView),
> {
    (match choice {
        ToolChoiceView::NoTools => Seq::empty(),
        ToolChoiceView::Auto => seq![
            ("tool_choice"@, JsonView::Str("auto"@)),
            ("tools"@, JsonView::Arr(openai_tools_array(tools))),
        ],
        ToolChoiceView::CallOne => seq![
            ("tool_choice"@, JsonView::Str("required"@)),
            ("tools"@, JsonView::Arr(openai_tools_array(tools))),
        ],
        ToolChoiceView::Force(name) => seq![
            (
                "tool_choice"@,
                JsonView::Obj(
                    seq![
                        ("type"@, JsonView::Str("function"@)),
                        ("function"@, JsonView::Obj(seq![("name"@, JsonView::Str(name))])),
                    ],
                ),
            ),
            ("tools"@, JsonView::Arr(openai_tools_array(tools))),
        ],
    }) + seq![("parallel_tool_calls"@, JsonView::Bool(false))]
}

/// The whole payload of one inference call: the model, the replayed
/// history, every configured sampling parameter and no other, and the tool
/// directives.
pub open spec fn openai_payload(
    c: ConfigView,
    history: Seq<JsonView>,
    tools: Seq<ToolSpecView>,
    choice: ToolChoiceView,
) -> JsonView {
    JsonView::Obj(
        seq![("model"@, JsonView::Str(c.name)), ("messages"@, JsonView::Arr(history))]
            + opt_num_entry("frequency_penalty"@, c.frequency_penalty) + opt_num_entry(
            "presence_penalty"@,
            c.presence_penalty,
        ) + opt_i64_entry("n"@, c.n) + opt_num_entry("top_p"@, c.top_p) + opt_num_entry(
            "temperature"@,
            c.temperature,
        ) + opt_i64_entry("max_completion_tokens"@, c.max_tokens) + opt_str_entry(
            "stop"@,
            c.stop_sequence,
        ) + openai_tool_entries(tools, choice),
    )
}

/// What one tool call fragment normalizes to: a tool call message, or the
/// first error in reading its id, name or serialized arguments.
pub open spec fn openai_call(call: JsonView) -> Result<MessageView, ErrorView> {
    match json_index(call, "id"@) {
        JsonView::Str(id) => match json_index(json_index(call, "function"@), "name"@) {
            JsonView::Str(name) => match json_index(json_index(call, "function"@), "arguments"@) {
                JsonView::Str(args) => match json_parse(args) {
                    Ok(doc) => match doc {
                        JsonView::Obj(es) => Ok(
                            MessageView::ToolCall { call_id: id, name, params: es },
                        ),
                        _ => Err(ErrorView::LLMResponseError("can't enumerate arguments."@)),
                    },
                    Err(pe) => Err(ErrorView::LLMJsonError(pe)),
                },
                _ => Err(
                    ErrorView::LLMResponseError(
                        "can't extract tool arguments from LLM API response."@,
                    ),
                ),
            },
            _ => Err(
                ErrorView::LLMResponseError("can't extract tool name from LLM API response."@),
            ),
        },
        _ => Err(
            ErrorView::LLMResponseError("can't extract tool call id from LLM API response."@),
        ),
    }
}

/// What a list of tool call fragments normalizes to, stopping at the first
/// error.
pub open spec fn openai_calls(calls: Seq<JsonView>) -> Result<Seq<MessageView>, ErrorView>
    decreases calls.len(),
{
    if calls.len() == 0 {
        Ok(Seq::empty())
    } else {
        match openai_call(calls[0]) {
            Ok(m) => match openai_calls(calls.drop_first()) {
                Ok(ms) => Ok(seq![m] + ms),
                Err(e) => Err(e),
            },
            Err(e) => Err(e),
        }
    }
}

/// What one choice's message normalizes to: its text content, its refusal
/// content and its tool calls, in that order, or the first error met.
pub open spec fn openai_choice(msg: JsonView) -> Result<Seq<MessageView>, ErrorView> {
    match json_index(msg, "role"@) {
        JsonView::Str(rs) => match spec_llm_to_role(rs) {
            Some(role) => {
                let content = match json_index(msg, "content"@) {
                    JsonView::Null => Ok(Seq::<MessageView>::empty()),
                    JsonView::Str(s) => Ok(seq![MessageView::Text { role, message: s }]),
                    _ => Err(
                        ErrorView::LLMResponseError(
                            "can't extract message content from LLM API response."@,
                        ),
                    ),
                };
                let refusal = match json_index(msg, "refusal"@) {
                    JsonView::Null => Ok(Seq::<MessageView>::empty()),
                    JsonView::Str(s) => Ok(seq![MessageView::Text { role, message: s }]),
                    _ => Err(
                        ErrorView::LLMResponseError(
                            "can't extract refusal content from LLM API response."@,
                        ),
                    ),
                };
                let calls = match json_index(msg, "tool_calls"@) {
                    JsonView::Null => Ok(Seq::<MessageView>::empty()),
                    JsonView::Arr(cs) => openai_calls(cs),
                    _ => Err(
                        ErrorView::LLMResponseError(
                            "unexpected answer format, can't enumerate tool call requests."@,
                        ),
                    ),
                };
                match content {
                    Err(e) => Err(e),
                    Ok(c) => match refusal {
                        Err(e) => Err(e),
                        Ok(rf) => match calls {
                            Err(e) => Err(e),
                            Ok(cl) => Ok(c + rf + cl),
                        },
                    },
                }
            },
            None => Err(
                ErrorView::LLMResponseError("LLM returned message with an unknown role."@),
            ),
        },
        _ => Err(
            ErrorView::LLMResponseError("can't extract message role from LLM API response."@),
        ),
    }
}

/// What walking the choices does: each choice's message is appended to the
/// history verbatim, then normalized; an error stops the walk.
pub open spec fn openai_choices(cs: Seq<JsonView>) -> ParseOutcome
    decreases cs.len(),
{
    if cs.len() == 0 {
        ParseOutcome { result: Ok(Seq::empty()), appended: Seq::empty() }
    } else {
        let msg = json_index(cs[0], "message"@);
        match openai_choice(msg) {
            Err(e) => ParseOutcome { result: Err(e), appended: seq![msg] },
            Ok(ms) => {
                let rest = openai_choices(cs.drop_first());
                ParseOutcome {
                    result: match rest.result {
                        Ok(more) => Ok(ms + more),
                        Err(e) => Err(e),
                    },
                    appended: seq![msg] + rest.appended,
                }
            },
        }
    }
}

/// What processing a whole response does: an error envelope short-circuits
/// with the history untouched; otherwise the choices are walked in order.
pub open spec fn openai_parse(resp: JsonView) -> ParseOutcome {
    match spec_check_error(resp) {
        Some(e) => ParseOutcome { result: Err(e), appended: Seq::empty() },
        None => match json_index(resp, "choices"@) {
            JsonView::Arr(cs) => openai_choices(cs),
            _ => ParseOutcome {
                result: Err(
                    ErrorView::LLMResponseError(
                        "unexpected answer format, can't enumerate response messages."@,
                    ),
                ),
                appended: Seq::empty(),
            },
        },
    }
}

/// Peeling one message off the input batch.
proof fn lemma_openai_inputs_skip(provider: ModelProvider, msgs: Seq<MessageView>, i: int)
    requires
        0 <= i < msgs.len(),
    ensures
        openai_input_entries(provider, msgs.skip(i)) == openai_input_entry(provider, msgs[i])
            + openai_input_entries(provider, msgs.skip(i + 1)),
{
    assert(msgs.skip(i)[0] == msgs[i]);
    assert(msgs.skip(i).drop_first() =~= msgs.skip(i + 1));
}

/// Peeling one call off a tool call list.
proof fn lemma_openai_calls_skip(calls: Seq<JsonView>, i: int)
    requires
        0 <= i < calls.len(),
    ensures
        openai_calls(calls.skip(i)) == (match openai_call(calls[i]) {
            Ok(m) => match openai_calls(calls.skip(i + 1)) {
                Ok(ms) => Ok::<Seq<MessageView>, ErrorView>(seq![m] + ms),
                Err(e) => Err(e),
            },
            Err(e) => Err(e),
        }),
{
    assert(calls.skip(i)[0] == calls[i]);
    assert(calls.skip(i).drop_first() =~= calls.skip(i + 1));
}

/// Peeling one choice off the choice list.
proof fn lemma_openai_choices_skip(cs: Seq<JsonView>, i: int)
    requires
        0 <= i < cs.len(),
    ensures
        openai_choices(cs.skip(i)) == ({
            let msg = json_index(cs[i], "message"@);
            match openai_choice(msg) {
                Err(e) => ParseOutcome { result: Err(e), appended: seq![msg] },
                Ok(ms) => {
                    let rest = openai_choices(cs.skip(i + 1));
                    ParseOutcome {
                        result: match rest.result {
                            Ok(more) => Ok(ms + more),
                            Err(e) => Err(e),
                        },
                        appended: seq![msg] + rest.appended,
                    }
                },
            }
        }),
{
    assert(cs.skip(i)[0] == cs[i]);
    assert(cs.skip(i).drop_first() =~= cs.skip(i + 1));
}

/// Chat with an OpenAI-shaped provider, owning the vendor-native history.
pub struct OpenAIChat<C: Client> {
    system_prompt: String,
    history: Vec<Json>,
    config: Config,
    client: C,
    tools: Vec<ToolSpec>,
}

impl<C: Client> OpenAIChat<C> {
    /// The system prompt as currently set.
    pub closed spec fn spec_system_prompt(self) -> Seq<char> {
        self.system_prompt@
    }

    /// The vendor-native history, oldest entry first.
    pub closed spec fn spec_history(self) -> Seq<JsonView> {
        deep_seq(self.history@)
    }

    /// The configuration the chat was created with.
    pub closed spec fn spec_config(self) -> ConfigView {
        self.config@
    }

    /// The tools bound to the chat.
    pub closed spec fn spec_tools(self) -> Seq<ToolSpecView> {
        crate::tools::tool_specs_view(self.tools@)
    }

    /// The transport the chat sends through.
    pub closed spec fn spec_client(self) -> C {
        self.client
    }

    /// Create a chat with an empty history and an empty system prompt.
    pub fn new(config: Config, client: C, tools: Vec<ToolSpec>) -> (r: OpenAIChat<C>)
        ensures
            r.spec_system_prompt() == Seq::<char>::empty(),
            r.spec_history() == Seq::<JsonView>::empty(),
            r.spec_config() == config@,
            r.spec_tools() == crate::tools::tool_specs_view(tools@),
            r.spec_client() == client,
    {
        let r = OpenAIChat { system_prompt: String::new(), history: Vec::new(), config, client, tools };
        proof {
            assert(r.spec_history() =~= Seq::<JsonView>::empty());
        }
        r
    }

    /// Forget the conversation so far.
    pub fn clear_history(&mut self)
        ensures
            final(self).spec_history() == Seq::<JsonView>::empty(),
            final(self).spec_system_prompt() == old(self).spec_system_prompt(),
            final(self).spec_config() == old(self).spec_config(),
            final(self).spec_tools() == old(self).spec_tools(),
            final(self).spec_client() == old(self).spec_client(),
    {
        self.history.clear();
        proof {
            assert(final(self).spec_history() =~= Seq::<JsonView>::empty());
        }
    }

    /// Set the system prompt. The vendor convention places it as the first
    /// history entry: it is appended to an empty history and overwrites the
    /// first entry otherwise.
    pub fn set_system_prompt(&mut self, prompt: String)
        ensures
            final(self).spec_system_prompt() == prompt@,
            final(self).spec_history() == (if old(self).spec_history().len() == 0 {
                seq![openai_system_entry(prompt@)]
            } else {
                old(self).spec_history().update(0, openai_system_entry(prompt@))
            }),
            final(self).spec_config() == old(self).spec_config(),
            final(self).spec_tools() == old(self).spec_tools(),
            final(self).spec_client() == old(self).spec_client(),
    {
        self.system_prompt = prompt.clone();
        let val = json_obj2("role", Json::Str("system".to_owned()), "content", Json::Str(prompt));
        proof {
            assert(val.deep() == openai_system_entry(self.system_prompt@));
        }
        let ghost pre = self.history@;
        if self.history.len() == 0 {
            self.history.push(val);
            proof {
                lemma_deep_seq_push(pre, final(self).history@.last());
                assert(deep_seq(self.history@) =~= seq![
                    openai_system_entry(self.system_prompt@),
                ]);
            }
        } else {
            self.history.set(0, val);
            proof {
                lemma_deep_seq(pre);
                lemma_deep_seq(self.history@);
                assert(deep_seq(self.history@) =~= deep_seq(pre).update(
                    0,
                    openai_system_entry(self.system_prompt@),
                ));
            }
        }
    }


    /// The vendor-shaped history entry for one input text message.
    fn text_entry(provider: ModelProvider, txt: &crate::llm::messages::Text) -> (r: Json)
        ensures
            seq![r.deep()] == openai_input_entry(
                provider,
                MessageView::Text { role: txt.role, message: txt.message@ },
            ),
    {
        let r = json_obj2(
            "role",
            Json::Str(role_to_llm(provider, txt.role).to_owned()),
            "content",
            Json::Str(txt.message.clone()),
        );
        proof {
            assert(seq![r.deep()] == openai_input_entry(
                provider,
                MessageView::Text { role: txt.role, message: txt.message@ },
            ));
        }
        r
    }

    /// The vendor-shaped history entry for one input tool result.
    fn tool_result_entry(provider: ModelProvider, res: &crate::llm::messages::ToolResult) -> (r:
        Json)
        ensures
            seq![r.deep()] == openai_input_entry(
                provider,
                MessageView::ToolResult {
                    call_id: res.call_id@,
                    name: res.name@,
                    result: res.result@,
                },
            ),
    {
        let r = json_obj3(
            "role",
            Json::Str("tool".to_owned()),
            "content",
            Json::Str(res.result.clone()),
            "tool_call_id",
            Json::Str(res.call_id.clone()),
        );
        proof {
            assert(seq![r.deep()] == openai_input_entry(
                provider,
                MessageView::ToolResult {
                    call_id: res.call_id@,
                    name: res.name@,
                    result: res.result@,
                },
            ));
        }
        r
    }

    /// Append the input messages to the history and build the payload of
    /// this turn.
    pub fn prep_payload(&mut self, messages: &Vec<Message>, tools: ToolChoice) -> (r: Json)
        ensures
            final(self).spec_system_prompt() == old(self).spec_system_prompt(),
            final(self).spec_config() == old(self).spec_config(),
            final(self).spec_tools() == old(self).spec_tools(),
            final(self).spec_client() == old(self).spec_client(),
            final(self).spec_history() == old(self).spec_history() + openai_input_entries(
                old(self).spec_config().provider,
                messages_view(messages@),
            ),
            r.deep() == openai_payload(
                old(self).spec_config(),
                final(self).spec_history(),
                old(self).spec_tools(),
                tools@,
            ),
    {
        let ghost self0 = *self;
        let ghost mv = messages_view(messages@);
        let ghost provider = self.config@.provider;
        let ghost mut delta: Seq<JsonView> = Seq::empty();
        let n = messages.len();
        proof {
            assert(mv.skip(0) =~= mv);
            assert(deep_seq(self.history@) + delta =~= deep_seq(self.history@));
        }
        for i in 0..n
            invariant
                n == messages.len(),
                mv == messages_view(messages@),
                mv.len() == n,
                self.system_prompt == self0.system_prompt,
                self.config == self0.config,
                self.tools == self0.tools,
                self.client == self0.client,
                deep_seq(self.history@) == deep_seq(self0.history@) + delta,
                openai_input_entries(provider, mv) == delta + openai_input_entries(
                    provider,
                    mv.skip(i as int),
                ),
                provider == self0.config@.provider,
        {
            let ghost pre = self.history@;
            let m = &messages[i];
            match m {
                Message::Text(txt) => {
                    let entry = Self::text_entry(self.config.provider, txt);
                    self.history.push(entry);
                    proof {
                        lemma_deep_seq_push(pre, self.history@.last());
                        assert(mv[i as int] == (MessageView::Text {
                            role: txt.role,
                            message: txt.message@,
                        }));
                        delta = delta + openai_input_entry(provider, mv[i as int]);
                        assert(deep_seq(self.history@) =~= deep_seq(self0.history@) + delta);
                    }
                },
                Message::ToolResult(res) => {
                    let entry = Self::tool_result_entry(self.config.provider, res);
                    self.history.push(entry);
                    proof {
                        lemma_deep_seq_push(pre, self.history@.last());
                        assert(mv[i as int] == (MessageView::ToolResult {
                            call_id: res.call_id@,
                            name: res.name@,
                            result: res.result@,
                        }));
                        delta = delta + openai_input_entry(provider, mv[i as int]);
                        assert(deep_seq(self.history@) =~= deep_seq(self0.history@) + delta);
                    }
                },
                Message::ToolCall(_) => {
                    proof {
                        assert(openai_input_entry(provider, mv[i as int]) =~= Seq::<
                            JsonView,
                        >::empty());
                        delta = delta + openai_input_entry(provider, mv[i as int]);
                        assert(deep_seq(self.history@) =~= deep_seq(self0.history@) + delta);
                    }
                },
            }
            proof {
                lemma_openai_inputs_skip(provider, mv, i as int);
                assert(openai_input_entries(provider, mv) =~= delta + openai_input_entries(
                    provider,
                    mv.skip(i + 1int),
                ));
            }
        }
        proof {
            assert(mv.skip(n as int) =~= Seq::<MessageView>::empty());
            assert(openai_input_entries(provider, mv) =~= delta);
            assert(final(self).spec_history() == old(self).spec_history() + openai_input_entries(
                provider,
                mv,
            ));
        }
        let mut entries: Vec<(String, Json)> = Vec::new();
        push_entry(&mut entries, "model", Json::Str(self.config.name.clone()));
        push_entry(&mut entries, "messages", Json::Arr(clone_json_list(&self.history)));
        set_num_param(&mut entries, "frequency_penalty", &self.config.frequency_penalty);
        set_num_param(&mut entries, "presence_penalty", &self.config.presence_penalty);
        set_i64_param(&mut entries, "n", &self.config.n);
        set_num_param(&mut entries, "top_p", &self.config.top_p);
        set_num_param(&mut entries, "temperature", &self.config.temperature);
        set_i64_param(&mut entries, "max_completion_tokens", &self.config.max_tokens);
        match &self.config.stop_sequence {
            Some(s) => {
                push_entry(&mut entries, "stop", Json::Str(s.clone()));
            },
            None => {},
        }
        self.prep_tool_use(&mut entries, tools);
        proof {
            assert(deep_entries(entries@) =~~= openai_payload(
                self0.config@,
                deep_seq(self.history@),
                self0.spec_tools(),
                tools@,
            )->Obj_0);
            assert(self0.spec_tools() == old(self).spec_tools());
        }
        Json::Obj(entries)
    }

    /// Attach the tool-choice directive and the tool declarations, and
    /// disable parallel tool calling whatever the choice.
    fn prep_tool_use(&self, entries: &mut Vec<(String, Json)>, tools: ToolChoice)
        ensures
            deep_entries(final(entries)@) == deep_entries(old(entries)@) + openai_tool_entries(
                self.spec_tools(),
                tools@,
            ),
    {
        let ghost pre = deep_entries(entries@);
        let ghost choice = tools@;
        match tools {
            ToolChoice::NoTools => {
                proof {
                    assert(choice == ToolChoiceView::NoTools);
                }
            },
            ToolChoice::Auto => {
                push_entry(entries, "tool_choice", Json::Str("auto".to_owned()));
                self.add_tools(entries);
            },
            ToolChoice::CallOne => {
                push_entry(entries, "tool_choice", Json::Str("required".to_owned()));
                self.add_tools(entries);
            },
            ToolChoice::Force(tool) => {
                let d = json_obj2(
                    "type",
                    Json::Str("function".to_owned()),
                    "function",
                    json_obj1("name", Json::Str(tool)),
                );
                push_entry(entries, "tool_choice", d);
                self.add_tools(entries);
            },
        }
        push_entry(entries, "parallel_tool_calls", Json::Bool(false));
        proof {
            if choice is NoTools {
                assert(openai_tool_entries(self.spec_tools(), choice) =~~= seq![
                    ("parallel_tool_calls"@, JsonView::Bool(false)),
                ]);
                assert(deep_entries(entries@) =~~= pre + openai_tool_entries(
                    self.spec_tools(),
                    choice,
                ));
            }
            assert(deep_entries(entries@) =~~= pre + openai_tool_entries(
                self.spec_tools(),
                choice,
            ));
        }
    }

    /// Attach the tool declarations.
    fn add_tools(&self, entries: &mut Vec<(String, Json)>)
        ensures
            deep_entries(final(entries)@) == deep_entries(old(entries)@) + seq![
                ("tools"@, JsonView::Arr(openai_tools_array(self.spec_tools()))),
            ],
    {
        let ghost tv = self.spec_tools();
        let mut arr: Vec<Json> = Vec::new();
        let n = self.tools.len();
        for i in 0..n
            invariant
                n == self.tools.len(),
                tv == self.spec_tools(),
                tv.len() == n,
                arr@.len() == i,
                forall|j: int| 0 <= j < i ==> arr@[j].deep() == openai_tools_array(tv)[j],
        {
            let spec = &self.tools[i];
            let f = json_obj4(
                "description",
                Json::Str(spec.description.clone()),
                "name",
                Json::Str(spec.name.clone()),
                "parameters",
                tool_params_to_value(&spec.params, ModelProvider::OpenAI),
                "strict",
                Json::Bool(true),
            );
            let o = json_obj2("type", Json::Str("function".to_owned()), "function", f);
            arr.push(o);
            proof {
                assert(tv[i as int] == self.tools@[i as int]@);
                assert(arr@.last().deep() == openai_tools_array(tv)[i as int]);
            }
        }
        proof {
            lemma_deep_seq(arr@);
            assert(deep_seq(arr@) =~= openai_tools_array(tv));
        }
        push_entry(entries, "tools", Json::Arr(arr));
    }

    /// Normalize one tool call fragment.
    fn message_of_call(call: &Json) -> (r: Result<Message, Error>)
        ensures
            match r {
                Ok(m) => openai_call(call.deep()) == Ok::<MessageView, ErrorView>(m@),
                Err(e) => openai_call(call.deep()) == Err::<MessageView, ErrorView>(e@),
            },
    {
        let null_doc = Json::Null;
        let id = match call.get("id") {
            Some(v) => match v.as_str() {
                Some(s) => s.clone(),
                None => {
                    return Err(
                        Error::LLMResponseError("can't extract tool call id from LLM API response."),
                    );
                },
            },
            None => {
                return Err(
                    Error::LLMResponseError("can't extract tool call id from LLM API response."),
                );
            },
        };
        let f = match call.get("function") {
            Some(v) => v,
            None => &null_doc,
        };
        let name = match f.get("name") {
            Some(v) => match v.as_str() {
                Some(s) => s.clone(),
                None => {
                    return Err(
                        Error::LLMResponseError("can't extract tool name from LLM API response."),
                    );
                },
            },
            None => {
                return Err(
                    Error::LLMResponseError("can't extract tool name from LLM API response."),
                );
            },
        };
        let args = match f.get("arguments") {
            Some(v) => match v.as_str() {
                Some(s) => s,
                None => {
                    return Err(
                        Error::LLMResponseError(
                            "can't extract tool arguments from LLM API response.",
                        ),
                    );
                },
            },
            None => {
                return Err(
                    Error::LLMResponseError("can't extract tool arguments from LLM API response."),
                );
            },
        };
        match parse_json(args.as_str()) {
            Ok(doc) => match doc.as_object() {
                Some(entries) => {
                    let params = params_of_entries(entries);
                    Ok(Message::ToolCall(ToolCall { call_id: id, name, params }))
                },
                None => Err(Error::LLMResponseError("can't enumerate arguments.")),
            },
            Err(e) => Err(Error::LLMJsonError(e)),
        }
    }

    /// Normalize one choice's message.
    fn messages_of_choice(msg: &Json) -> (r: Result<Vec<Message>, Error>)
        ensures
            res_view(r) == openai_choice(msg.deep()),
    {
        let role_s = match msg.get("role") {
            Some(v) => match v.as_str() {
                Some(s) => s,
                None => {
                    return Err(
                        Error::LLMResponseError("can't extract message role from LLM API response."),
                    );
                },
            },
            None => {
                return Err(
                    Error::LLMResponseError("can't extract message role from LLM API response."),
                );
            },
        };
        let role = match llm_to_role(role_s.as_str()) {
            Ok(ro) => ro,
            Err(e) => {
                return Err(e);
            },
        };
        let mut out: Vec<Message> = Vec::new();
        match msg.get("content") {
            Some(c) => {
                if !c.is_null() {
                    match c.as_str() {
                        Some(s) => {
                            out.push(Message::text(role, s.clone()));
                        },
                        None => {
                            return Err(
                                Error::LLMResponseError(
                                    "can't extract message content from LLM API response.",
                                ),
                            );
                        },
                    }
                }
            },
            None => {},
        }
        let ghost content_msgs = messages_view(out@);
        match msg.get("refusal") {
            Some(c) => {
                if !c.is_null() {
                    match c.as_str() {
                        Some(s) => {
                            out.push(Message::text(role, s.clone()));
                        },
                        None => {
                            return Err(
                                Error::LLMResponseError(
                                    "can't extract refusal content from LLM API response.",
                                ),
                            );
                        },
                    }
                }
            },
            None => {},
        }
        let ghost cr_msgs = messages_view(out@);
        proof {
            assert(content_msgs =~~= (match json_index(msg.deep(), "content"@) {
                JsonView::Str(s) => seq![MessageView::Text { role, message: s }],
                _ => Seq::<MessageView>::empty(),
            }));
            assert(cr_msgs =~~= content_msgs + (match json_index(msg.deep(), "refusal"@) {
                JsonView::Str(s) => seq![MessageView::Text { role, message: s }],
                _ => Seq::<MessageView>::empty(),
            }));
            assert(cr_msgs + Seq::<MessageView>::empty() =~= cr_msgs);
            assert(match json_index(msg.deep(), "tool_calls"@) {
                JsonView::Null => openai_choice(msg.deep()) == Ok::<Seq<MessageView>, ErrorView>(
                    cr_msgs,
                ),
                JsonView::Arr(cs) => openai_choice(msg.deep()) == (match openai_calls(cs) {
                    Ok(cl) => Ok::<Seq<MessageView>, ErrorView>(cr_msgs + cl),
                    Err(e) => Err::<Seq<MessageView>, ErrorView>(e),
                }),
                _ => openai_choice(msg.deep()) == Err::<Seq<MessageView>, ErrorView>(
                    ErrorView::LLMResponseError(
                        "unexpected answer format, can't enumerate tool call requests."@,
                    ),
                ),
            });
        }
        match msg.get("tool_calls") {
            Some(tc) => {
                if !tc.is_null() {
                    match tc.as_array() {
                        Some(calls) => {
                            let ghost csv = deep_seq(calls@);
                            let n = calls.len();
                            proof {
                                lemma_deep_seq(calls@);
                                assert(csv.skip(0) =~= csv);
                            }
                            for i in 0..n
                                invariant
                                    n == calls.len(),
                                    csv == deep_seq(calls@),
                                    csv.len() == n,
                                    openai_choice(msg.deep()) == (match openai_calls(csv) {
                                        Ok(cl) => Ok::<Seq<MessageView>, ErrorView>(cr_msgs + cl),
                                        Err(e) => Err::<Seq<MessageView>, ErrorView>(e),
                                    }),
                                    openai_calls(csv) matches Ok(ms) ==> messages_view(out@)
                                        + openai_calls(csv.skip(i as int))->Ok_0 == cr_msgs + ms,
                                    openai_calls(csv) is Ok ==> openai_calls(
                                        csv.skip(i as int),
                                    ) is Ok,
                                    openai_calls(csv) matches Err(e) ==> openai_calls(
                                        csv.skip(i as int),
                                    ) == Err::<Seq<MessageView>, ErrorView>(e),
                            {
                                proof {
                                    lemma_deep_seq(calls@);
                                    lemma_openai_calls_skip(csv, i as int);
                                }
                                match Self::message_of_call(&calls[i]) {
                                    Ok(m) => {
                                        let ghost pre = out@;
                                        out.push(m);
                                        proof {
                                            assert(messages_view(out@) =~= messages_view(pre)
                                                + seq![out@.last()@]);
                                            if openai_calls(csv) is Ok {
                                                assert(messages_view(out@) + openai_calls(
                                                    csv.skip(i + 1int),
                                                )->Ok_0 =~= messages_view(pre) + openai_calls(
                                                    csv.skip(i as int),
                                                )->Ok_0);
                                            }
                                        }
                                    },
                                    Err(e) => {
                                        return Err(e);
                                    },
                                }
                            }
                            proof {
                                assert(csv.skip(n as int) =~= Seq::<JsonView>::empty());
                                if openai_calls(csv) matches Ok(ms) {
                                    assert(messages_view(out@) + Seq::<MessageView>::empty()
                                        =~= messages_view(out@));
                                }
                            }
                        },
                        None => {
                            return Err(
                                Error::LLMResponseError(
                                    "unexpected answer format, can't enumerate tool call requests.",
                                ),
                            );
                        },
                    }
                }
            },
            None => {},
        }
        Ok(out)
    }

    /// Translate a response into normalized messages, appending each
    /// choice's message fragment verbatim to the history. An explicit error
    /// envelope is surfaced with the history untouched.
    pub fn process_response(&mut self, response: Json) -> (r: Result<Vec<Message>, Error>)
        ensures
            final(self).spec_system_prompt() == old(self).spec_system_prompt(),
            final(self).spec_config() == old(self).spec_config(),
            final(self).spec_tools() == old(self).spec_tools(),
            final(self).spec_client() == old(self).spec_client(),
            final(self).spec_history() == old(self).spec_history() + openai_parse(
                response@,
            ).appended,
            res_view(r) == openai_parse(response@).result,
    {
        let ghost self0 = *self;
        proof {
            assert(deep_seq(self.history@) + Seq::<JsonView>::empty() =~= deep_seq(
                self.history@,
            ));
        }
        match check_for_error(&response) {
            Err(e) => {
                return Err(e);
            },
            Ok(u) => {},
        }
        let items = match response.get("choices") {
            Some(c) => match c.as_array() {
                Some(a) => a,
                None => {
                    return Err(
                        Error::LLMResponseError(
                            "unexpected answer format, can't enumerate response messages.",
                        ),
                    );
                },
            },
            None => {
                return Err(
                    Error::LLMResponseError(
                        "unexpected answer format, can't enumerate response messages.",
                    ),
                );
            },
        };
        let ghost csv = deep_seq(items@);
        let ghost mut delta: Seq<JsonView> = Seq::empty();
        let mut out: Vec<Message> = Vec::new();
        let n = items.len();
        proof {
            lemma_deep_seq(items@);
            assert(csv.skip(0) =~= csv);
            assert(messages_view(out@) =~= Seq::<MessageView>::empty());
            if openai_choices(csv).result is Ok {
                assert(messages_view(out@) + openai_choices(csv).result->Ok_0 =~= openai_choices(
                    csv,
                ).result->Ok_0);
            }
            assert(delta + openai_choices(csv).appended =~= openai_choices(csv).appended);
        }
        for i in 0..n
            invariant
                n == items.len(),
                csv == deep_seq(items@),
                csv.len() == n,
                self0 == *old(self),
                openai_parse(response@) == openai_choices(csv),
                self.system_prompt == self0.system_prompt,
                self.config == self0.config,
                self.tools == self0.tools,
                self.client == self0.client,
                deep_seq(self.history@) == deep_seq(self0.history@) + delta,
                openai_choices(csv).result == (match openai_choices(csv.skip(i as int)).result {
                    Ok(more) => Ok::<Seq<MessageView>, ErrorView>(messages_view(out@) + more),
                    Err(e) => Err::<Seq<MessageView>, ErrorView>(e),
                }),
                openai_choices(csv).appended == delta + openai_choices(csv.skip(i as int)).appended,
        {
            proof {
                lemma_deep_seq(items@);
                lemma_openai_choices_skip(csv, i as int);
            }
            let c = &items[i];
            let null_doc = Json::Null;
            let msg = match c.get("message") {
                Some(m) => m,
                None => &null_doc,
            };
            let ghost pre = self.history@;
            let ghost delta_old = delta;
            self.history.push(msg.deep_clone());
            proof {
                lemma_deep_seq_push(pre, self.history@.last());
                delta = delta + seq![json_index(csv[i as int], "message"@)];
                assert(deep_seq(self.history@) =~= deep_seq(self0.history@) + delta);
            }
            match Self::messages_of_choice(msg) {
                Ok(ms) => {
                    let mut ms = ms;
                    let ghost pre_out = out@;
                    let ghost msv = messages_view(ms@);
                    out.append(&mut ms);
                    proof {
                        assert(messages_view(out@) =~= messages_view(pre_out) + msv);
                        if openai_choices(csv).result is Ok {
                            assert(messages_view(out@) + openai_choices(
                                csv.skip(i + 1int),
                            ).result->Ok_0 =~= messages_view(pre_out) + openai_choices(
                                csv.skip(i as int),
                            ).result->Ok_0);
                        }
                        assert(delta + openai_choices(csv.skip(i + 1int)).appended =~= delta_old
                            + openai_choices(csv.skip(i as int)).appended);
                    }
                },
                Err(e) => {
                    proof {
                        assert(openai_choices(csv).appended =~= delta);
                    }
                    return Err(e);
                },
            }
        }
        proof {
            assert(csv.skip(n as int) =~= Seq::<JsonView>::empty());
            assert(openai_choices(csv).result matches Ok(ms) ==> messages_view(out@) + Seq::<
                MessageView,
            >::empty() =~= messages_view(out@));
            assert(openai_choices(csv).appended =~= delta + Seq::<JsonView>::empty());
        }
        Ok(out)
    }

    /// One inference turn: append the inputs, send the payload, and
    /// normalize whatever the provider answered.
    pub fn get_inference(&mut self, messages: &Vec<Message>, tools: ToolChoice) -> (r: Result<
        Vec<Message>,
        Error,
    >)
        ensures
            final(self).spec_system_prompt() == old(self).spec_system_prompt(),
            final(self).spec_config() == old(self).spec_config(),
            final(self).spec_tools() == old(self).spec_tools(),
            final(self).spec_client() == old(self).spec_client(),
            ({
                let hist1 = old(self).spec_history() + openai_input_entries(
                    old(self).spec_config().provider,
                    messages_view(messages@),
                );
                ||| (r is Err && final(self).spec_history() == hist1)
                ||| exists|resp: JsonView|
                    {
                        &&& res_view(r) == openai_parse(resp).result
                        &&& final(self).spec_history() == hist1 + openai_parse(resp).appended
                    }
            }),
    {
        let payload = self.prep_payload(messages, tools);
        let mut token = "Bearer ".to_owned();
        token.append(self.config.api_key.as_str());
        let mut headers: Vec<(String, String)> = Vec::new();
        headers.push(("Authorization".to_owned(), token));
        let params: Vec<(String, String)> = Vec::new();
        let response = match self.client.make_json_request(
            self.config.api_url.as_str(),
            payload,
            &headers,
            &params,
        ) {
            Ok(v) => v,
            Err(e) => {
                return Err(e);
            },
        };
        let ghost resp = response@;
        let r = self.process_response(response);
        proof {
            assert(res_view(r) == openai_parse(resp).result);
        }
        r
    }
}


/// The payload entries the tool choice contributes hold exactly the tool
/// directive keys, and the parallel-disabling key always.
proof fn lemma_openai_tool_entries_has_key(
    tools: Seq<ToolSpecView>,
    choice: ToolChoiceView,
    probe: Seq<char>,
)
    ensures
        crate::json::entries_has_key(openai_tool_entries(tools, choice), probe) == (probe
            == "parallel_tool_calls"@ || (!(choice is NoTools) && (probe == "tool_choice"@ || probe
            == "tools"@))),
{
    broadcast use crate::json::lemma_entries_has_key_concat;

    let par = ("parallel_tool_calls"@, JsonView::Bool(false));
    crate::json::lemma_has_key_single(par, probe);
    match choice {
        ToolChoiceView::NoTools => {
            assert(Seq::<(Seq<char>, JsonView)>::empty() + seq![par] =~= seq![par]);
        },
        ToolChoiceView::Auto => {
            crate::json::lemma_has_key_pair(
                ("tool_choice"@, JsonView::Str("auto"@)),
                ("tools"@, JsonView::Arr(openai_tools_array(tools))),
                probe,
            );
        },
        ToolChoiceView::CallOne => {
            crate::json::lemma_has_key_pair(
                ("tool_choice"@, JsonView::Str("required"@)),
                ("tools"@, JsonView::Arr(openai_tools_array(tools))),
                probe,
            );
        },
        ToolChoiceView::Force(name) => {
            crate::json::lemma_has_key_pair(
                (
                    "tool_choice"@,
                    JsonView::Obj(
                        seq![
                            ("type"@, JsonView::Str("function"@)),
                            ("function"@, JsonView::Obj(seq![("name"@, JsonView::Str(name))])),
                        ],
                    ),
                ),
                ("tools"@, JsonView::Arr(openai_tools_array(tools))),
                probe,
            );
        },
    }
}

/// Each key's presence in the whole payload, by walking the segments.
proof fn lemma_openai_payload_has_key(
    c: ConfigView,
    history: Seq<JsonView>,
    tools: Seq<ToolSpecView>,
    choice: ToolChoiceView,
    probe: Seq<char>,
)
    ensures
        json_has_key(openai_payload(c, history, tools, choice), probe) == (probe == "model"@
            || probe == "messages"@ || (c.frequency_penalty is Some && probe == "frequency_penalty"@)
            || (c.presence_penalty is Some && probe == "presence_penalty"@) || (c.n is Some && probe
            == "n"@) || (c.top_p is Some && probe == "top_p"@) || (c.temperature is Some && probe
            == "temperature"@) || (c.max_tokens is Some && probe == "max_completion_tokens"@) || (
        c.stop_sequence is Some && probe == "stop"@) || probe == "parallel_tool_calls"@ || (!(choice
            is NoTools) && (probe == "tool_choice"@ || probe == "tools"@))),
{
    broadcast use crate::json::lemma_entries_has_key_concat;
    broadcast use lemma_opt_i64_entry_has_key;
    broadcast use lemma_opt_num_entry_has_key;
    broadcast use lemma_opt_str_entry_has_key;

    crate::json::lemma_has_key_pair(
        ("model"@, JsonView::Str(c.name)),
        ("messages"@, JsonView::Arr(history)),
        probe,
    );
    lemma_openai_tool_entries_has_key(tools, choice, probe);
}

/// The leading characters of the payload keys, telling every pair apart.
proof fn lemma_openai_key_chars()
    ensures
        "model"@[0] == 'm' && "model"@[1] == 'o',
        "messages"@[0] == 'm' && "messages"@[1] == 'e',
        "frequency_penalty"@[0] == 'f',
        "presence_penalty"@[0] == 'p' && "presence_penalty"@[1] == 'r',
        "n"@[0] == 'n',
        "top_p"@[0] == 't' && "top_p"@[1] == 'o' && "top_p"@[2] == 'p',
        "temperature"@[0] == 't' && "temperature"@[1] == 'e',
        "max_completion_tokens"@[0] == 'm' && "max_completion_tokens"@[1] == 'a',
        "stop"@[0] == 's',
        "tool_choice"@[0] == 't' && "tool_choice"@[1] == 'o' && "tool_choice"@[2] == 'o'
            && "tool_choice"@[3] == 'l' && "tool_choice"@[4] == '_',
        "tools"@[0] == 't' && "tools"@[1] == 'o' && "tools"@[2] == 'o' && "tools"@[3] == 'l'
            && "tools"@[4] == 's',
        "parallel_tool_calls"@[0] == 'p' && "parallel_tool_calls"@[1] == 'a',
{
    reveal_strlit("model");
    reveal_strlit("messages");
    reveal_strlit("frequency_penalty");
    reveal_strlit("presence_penalty");
    reveal_strlit("n");
    reveal_strlit("top_p");
    reveal_strlit("temperature");
    reveal_strlit("max_completion_tokens");
    reveal_strlit("stop");
    reveal_strlit("tool_choice");
    reveal_strlit("tools");
    reveal_strlit("parallel_tool_calls");
}

/// Law: for any history, tool set and tool choice, the built payload
/// includes a sampling parameter field exactly when that parameter is
/// configured — an absent parameter is omitted, never sent as a default.
#[verifier::rlimit(100)]
pub proof fn lemma_openai_params_present_iff(
    c: ConfigView,
    history: Seq<JsonView>,
    tools: Seq<ToolSpecView>,
    choice: ToolChoiceView,
)
    ensures
        json_has_key(openai_payload(c, history, tools, choice), "temperature"@) == (c.temperature
            is Some),
        json_has_key(openai_payload(c, history, tools, choice), "top_p"@) == (c.top_p is Some),
        json_has_key(openai_payload(c, history, tools, choice), "frequency_penalty"@) == (
        c.frequency_penalty is Some),
        json_has_key(openai_payload(c, history, tools, choice), "presence_penalty"@) == (
        c.presence_penalty is Some),
        json_has_key(openai_payload(c, history, tools, choice), "n"@) == (c.n is Some),
        json_has_key(openai_payload(c, history, tools, choice), "max_completion_tokens"@) == (
        c.max_tokens is Some),
        json_has_key(openai_payload(c, history, tools, choice), "stop"@) == (c.stop_sequence
            is Some),
{
    lemma_openai_key_chars();
    lemma_openai_payload_has_key(c, history, tools, choice, "temperature"@);
    lemma_openai_payload_has_key(c, history, tools, choice, "top_p"@);
    lemma_openai_payload_has_key(c, history, tools, choice, "frequency_penalty"@);
    lemma_openai_payload_has_key(c, history, tools, choice, "presence_penalty"@);
    lemma_openai_payload_has_key(c, history, tools, choice, "n"@);
    lemma_openai_payload_has_key(c, history, tools, choice, "max_completion_tokens"@);
    lemma_openai_payload_has_key(c, history, tools, choice, "stop"@);
}

/// Law: whatever the tool choice, the built payload always disables
/// parallel tool calling.
#[verifier::rlimit(100)]
pub proof fn lemma_openai_parallel_disabled(
    c: ConfigView,
    history: Seq<JsonView>,
    tools: Seq<ToolSpecView>,
    choice: ToolChoiceView,
)
    ensures
        json_index(openai_payload(c, history, tools, choice), "parallel_tool_calls"@)
            == JsonView::Bool(false),
{
    broadcast use crate::json::lemma_entries_has_key_concat;
    broadcast use crate::json::lemma_entries_index_concat;
    broadcast use lemma_opt_i64_entry_has_key;
    broadcast use lemma_opt_num_entry_has_key;
    broadcast use lemma_opt_str_entry_has_key;

    lemma_openai_key_chars();
    let probe = "parallel_tool_calls"@;
    crate::json::lemma_has_key_pair(
        ("model"@, JsonView::Str(c.name)),
        ("messages"@, JsonView::Arr(history)),
        probe,
    );
    let par = ("parallel_tool_calls"@, JsonView::Bool(false));
    match choice {
        ToolChoiceView::NoTools => {
            assert(Seq::<(Seq<char>, JsonView)>::empty() + seq![par] =~= seq![par]);
            assert(entries_index(seq![par], probe) == JsonView::Bool(false));
        },
        ToolChoiceView::Auto => {
            crate::json::lemma_has_key_pair(
                ("tool_choice"@, JsonView::Str("auto"@)),
                ("tools"@, JsonView::Arr(openai_tools_array(tools))),
                probe,
            );
            assert(entries_index(seq![par], probe) == JsonView::Bool(false));
        },
        ToolChoiceView::CallOne => {
            crate::json::lemma_has_key_pair(
                ("tool_choice"@, JsonView::Str("required"@)),
                ("tools"@, JsonView::Arr(openai_tools_array(tools))),
                probe,
            );
            assert(entries_index(seq![par], probe) == JsonView::Bool(false));
        },
        ToolChoiceView::Force(name) => {
            crate::json::lemma_has_key_pair(
                (
                    "tool_choice"@,
                    JsonView::Obj(
                        seq![
                            ("type"@, JsonView::Str("function"@)),
                            ("function"@, JsonView::Obj(seq![("name"@, JsonView::Str(name))])),
                        ],
                    ),
                ),
                ("tools"@, JsonView::Arr(openai_tools_array(tools))),
                probe,
            );
            assert(entries_index(seq![par], probe) == JsonView::Bool(false));
        },
    }
}

} // verus!
