//! The GCP-shaped provider adapter.
//!
//! The system prompt travels in a `systemInstruction` field, sampling
//! parameters sit in a nested `generationConfig` object, and the credential
//! is a query parameter. This provider never assigns a tool call
//! identifier: tool calls are normalized with an empty call id.

use vstd::prelude::*;

use crate::config::Config;
use crate::config::ConfigView;
use crate::config::ModelProvider;
use crate::error::Error;
use crate::error::ErrorView;
use crate::json::deep_entries;
use crate::json::deep_seq;
use crate::json::clone_json_list;
use crate::json::json_arr1;
use crate::json::json_index;
use crate::json::json_obj1;
use crate::json::json_obj2;
use crate::json::json_obj3;
use crate::json::lemma_deep_seq;
use crate::json::lemma_deep_seq_push;
use crate::json::push_entry;
use crate::json::Json;
use crate::json::JsonView;
use crate::llm::messages::messages_view;
use crate::llm::messages::Message;
use crate::llm::messages::MessageView;
use crate::llm::messages::Role;
use crate::llm::messages::ToolCall;
use crate::llm::util::check_for_error;
use crate::llm::util::llm_to_role;
use crate::llm::util::opt_i64_entry;
use crate::llm::util::opt_num_entry;
use crate::llm::util::params_of_entries;
use crate::llm::util::res_view;
use crate::llm::util::role_to_llm;
use crate::llm::util::set_i64_param;
use crate::llm::util::set_num_param;
use crate::llm::util::spec_check_error;
use crate::llm::util::spec_llm_to_role;
use crate::llm::util::spec_role_to_llm;
use crate::llm::util::spec_tool_schema;
use crate::llm::util::tool_params_to_value;
use crate::llm::util::ParseOutcome;
use crate::request::Client;
use crate::tools::ToolChoice;
use crate::tools::ToolChoiceView;
use crate::tools::ToolSpec;
use crate::tools::ToolSpecView;

verus! {

/// The history entries one input message contributes: a text message as a
/// one-part content, a tool result as a `functionResponse` part under the
/// user role, and nothing for a tool call offered as input.
pub open spec fn gcp_input_entry(provider: ModelProvider, m: MessageView) -> Seq<JsonView> {
    match m {
        MessageView::Text { role, message } => seq![
            JsonView::Obj(
                seq![
                    ("role"@, JsonView::Str(spec_role_to_llm(provider, role))),
                    (
                        "parts"@,
                        JsonView::Arr(
                            seq![JsonView::Obj(seq![("text"@, JsonView::Str(message))])],
                        ),
                    ),
                ],
            ),
        ],
        MessageView::ToolResult { call_id, name, result } => seq![
            JsonView::Obj(
                seq![
                    ("role"@, JsonView::Str("user"@)),
                    (
                        "parts"@,
                        JsonView::Arr(
                            seq![
                                JsonView::Obj(
                                    seq![
                                        (
                                            "functionResponse"@,
                                            JsonView::Obj(
                                                seq![
                                                    ("name"@, JsonView::Str(name)),
                                                    (
                                                        "response"@,
                                                        JsonView::Obj(
                                                            seq![
                                                                ("name"@, JsonView::Str(name)),
                                                                ("content"@, JsonView::Str(result)),
                                                            ],
                                                        ),
                                                    ),
                                                ],
                                            ),
                                        ),
                                    ],
                                ),
                            ],
                        ),
                    ),
                ],
            ),
        ],
        MessageView::ToolCall { .. } => Seq::empty(),
    }
}

/// The history entries a batch of input messages contributes, in order.
pub open spec fn gcp_input_entries(provider: ModelProvider, msgs: Seq<MessageView>) -> Seq<JsonView>
    decreases msgs.len(),
{
    if msgs.len() == 0 {
        Seq::empty()
    } else {
        gcp_input_entry(provider, msgs[0]) + gcp_input_entries(provider, msgs.drop_first())
    }
}

/// The sampling parameters of the nested `generationConfig` object: every
/// configured parameter and no other.
pub open spec fn gcp_gen_config(c: ConfigView) -> Seq<(Seq<char>, JsonView)> {
    opt_i64_entry("maxOutputTokens"@, c.max_tokens) + opt_num_entry("topP"@, c.top_p)
        + opt_i64_entry("topK"@, c.top_k) + opt_num_entry("temperature"@, c.temperature)
        + opt_num_entry("presencePenalty"@, c.presence_penalty) + opt_num_entry(
        "frequencyPenalty"@,
        c.frequency_penalty,
    ) + (match c.stop_sequence {
        Some(s) => seq![("stopSequences"@, JsonView::Arr(seq![JsonView::Str(s)]))],
        None => Seq::<(Seq<char>, JsonView)>::empty(),
    })
}

/// The tool declarations attached to a payload.
pub open spec fn gcp_tools_array(tools: Seq<ToolSpecView>) -> Seq<JsonView> {
    tools.map_values(
        |t: ToolSpecView|
            JsonView::Obj(
                seq![
                    ("name"@, JsonView::Str(t.name)),
                    ("description"@, JsonView::Str(t.description)),
                    ("parameters"@, spec_tool_schema(t.params, ModelProvider::GCP)),
                ],
            ),
    )
}

/// The payload entries the tool choice contributes.
pub open spec fn gcp_tool_entries(tools: Seq<ToolSpecView>, choice: ToolChoiceView) -> Seq<
    (Seq<char>, JsonView),
> {
    let decls = (
        "tools"@,
        JsonView::Arr(
            seq![
                JsonView::Obj(
                    seq![("function_declarations"@, JsonView::Arr(gcp_tools_array(tools)))],
                ),
            ],
        ),
    );
    match choice {
        ToolChoiceView::NoTools => Seq::empty(),
        ToolChoiceView::Auto => seq![
            (
                "tool_config"@,
                JsonView::Obj(
                    seq![
                        (
                            "function_calling_config"@,
                            JsonView::Obj(seq![("mode"@, JsonView::Str("AUTO"@))]),
                        ),
                    ],
                ),
            ),
            decls,
        ],
        ToolChoiceView::CallOne => seq![
            (
                "tool_config"@,
                JsonView::Obj(
                    seq![
                        (
                            "function_calling_config"@,
                            JsonView::Obj(seq![("mode"@, JsonView::Str("ANY"@))]),
                        ),
                    ],
                ),
            ),
            decls,
        ],
        ToolChoiceView::Force(name) => seq![
            (
                "tool_config"@,
                JsonView::Obj(
                    seq![
                        (
                            "function_calling_config"@,
                            JsonView::Obj(
                                seq![
                                    ("mode"@, JsonView::Str("ANY"@)),
                                    (
                                        "allowed_function_names"@,
                                        JsonView::Arr(seq![JsonView::Str(name)]),
                                    ),
                                ],
                            ),
                        ),
                    ],
                ),
            ),
            decls,
        ],
    }
}

/// The whole payload of one inference call: the system instruction, the
/// replayed history under `contents`, the generation configuration, and the
/// tool directives.
pub open spec fn gcp_payload(
    c: ConfigView,
    system_prompt: Seq<char>,
    history: Seq<JsonView>,
    tools: Seq<ToolSpecView>,
    choice: ToolChoiceView,
) -> JsonView {
    JsonView::Obj(
        seq![
            (
                "systemInstruction"@,
                JsonView::Obj(
                    seq![
                        (
                            "parts"@,
                            JsonView::Obj(seq![("text"@, JsonView::Str(system_prompt))]),
                        ),
                    ],
                ),
            ),
            ("contents"@, JsonView::Arr(history)),
            ("generationConfig"@, JsonView::Obj(gcp_gen_config(c))),
        ] + gcp_tool_entries(tools, choice),
    )
}

/// What one response part normalizes to, given the candidate's role: a tool
/// call with an empty call id, a text message, or the first error met.
pub open spec fn gcp_part(part: JsonView, role: Role) -> Result<MessageView, ErrorView> {
    if json_index(part, "functionCall"@) matches JsonView::Obj(_) {
        match json_index(json_index(part, "functionCall"@), "name"@) {
            JsonView::Str(name) => match json_index(json_index(part, "functionCall"@), "args"@) {
                JsonView::Obj(es) => Ok(
                    MessageView::ToolCall { call_id: Seq::empty(), name, params: es },
                ),
                _ => Err(ErrorView::LLMResponseError("can't enumerate tool call parameters."@)),
            },
            _ => Err(
                ErrorView::LLMResponseError("can't extract tool name from LLM API response."@),
            ),
        }
    } else {
        match json_index(part, "text"@) {
            JsonView::Str(s) => Ok(MessageView::Text { role, message: s }),
            _ => Err(ErrorView::LLMResponseError("unexpected message type."@)),
        }
    }
}

/// What a list of parts normalizes to, stopping at the first error.
pub open spec fn gcp_parts(parts: Seq<JsonView>, role: Role) -> Result<Seq<MessageView>, ErrorView>
    decreases parts.len(),
{
    if parts.len() == 0 {
        Ok(Seq::empty())
    } else {
        match gcp_part(parts[0], role) {
            Ok(m) => match gcp_parts(parts.drop_first(), role) {
                Ok(ms) => Ok(seq![m] + ms),
                Err(e) => Err(e),
            },
            Err(e) => Err(e),
        }
    }
}

/// What one candidate normalizes to: its content's role is read, then its
/// parts are walked in order.
pub open spec fn gcp_candidate(c: JsonView) -> Result<Seq<MessageView>, ErrorView> {
    let content = json_index(c, "content"@);
    match json_index(content, "role"@) {
        JsonView::Str(role_s) => match spec_llm_to_role(role_s) {
            Some(role) => match json_index(content, "parts"@) {
                JsonView::Arr(parts) => gcp_parts(parts, role),
                _ => Err(
                    ErrorView::LLMResponseError(
                        "unexpected answer format, can't enumerate message parts."@,
                    ),
                ),
            },
            None => Err(
                ErrorView::LLMResponseError("LLM returned message with an unknown role."@),
            ),
        },
        _ => Err(
            ErrorView::LLMResponseError("can't extract message role from LLM API response."@),
        ),
    }
}

/// What walking the candidates does: each candidate's content is appended
/// to the history verbatim, then normalized; an error stops the walk.
pub open spec fn gcp_candidates(cs: Seq<JsonView>) -> ParseOutcome
    decreases cs.len(),
{
    if cs.len() == 0 {
        ParseOutcome { result: Ok(Seq::empty()), appended: Seq::empty() }
    } else {
        let content = json_index(cs[0], "content"@);
        match gcp_candidate(cs[0]) {
            Err(e) => ParseOutcome { result: Err(e), appended: seq![content] },
            Ok(ms) => {
                let rest = gcp_candidates(cs.drop_first());
                ParseOutcome {
                    result: match rest.result {
                        Ok(more) => Ok(ms + more),
                        Err(e) => Err(e),
                    },
                    appended: seq![content] + rest.appended,
                }
            },
        }
    }
}

/// What processing a whole response does: an error envelope short-circuits
/// with the history untouched; otherwise the candidates are walked in
/// order.
pub open spec fn gcp_parse(resp: JsonView) -> ParseOutcome {
    match spec_check_error(resp) {
        Some(e) => ParseOutcome { result: Err(e), appended: Seq::empty() },
        None => match json_index(resp, "candidates"@) {
            JsonView::Arr(cs) => gcp_candidates(cs),
            _ => ParseOutcome {
                result: Err(
                    ErrorView::LLMResponseError("can't enumerate messages in the response."@),
                ),
                appended: Seq::empty(),
            },
        },
    }
}

/// Peeling one message off the input batch.
proof fn lemma_gcp_inputs_skip(provider: ModelProvider, msgs: Seq<MessageView>, i: int)
    requires
        0 <= i < msgs.len(),
    ensures
        gcp_input_entries(provider, msgs.skip(i)) == gcp_input_entry(provider, msgs[i])
            + gcp_input_entries(provider, msgs.skip(i + 1)),
{
    assert(msgs.skip(i)[0] == msgs[i]);
    assert(msgs.skip(i).drop_first() =~= msgs.skip(i + 1));
}

/// Peeling one part off a part list.
proof fn lemma_gcp_parts_skip(parts: Seq<JsonView>, role: Role, i: int)
    requires
        0 <= i < parts.len(),
    ensures
        gcp_parts(parts.skip(i), role) == (match gcp_part(parts[i], role) {
            Ok(m) => match gcp_parts(parts.skip(i + 1), role) {
                Ok(ms) => Ok::<Seq<MessageView>, ErrorView>(seq![m] + ms),
                Err(e) => Err(e),
            },
            Err(e) => Err(e),
        }),
{
    assert(parts.skip(i)[0] == parts[i]);
    assert(parts.skip(i).drop_first() =~= parts.skip(i + 1));
}

/// Peeling one candidate off the candidate list.
proof fn lemma_gcp_candidates_skip(cs: Seq<JsonView>, i: int)
    requires
        0 <= i < cs.len(),
    ensures
        gcp_candidates(cs.skip(i)) == ({
            let content = json_index(cs[i], "content"@);
            match gcp_candidate(cs[i]) {
                Err(e) => ParseOutcome { result: Err(e), appended: seq![content] },
                Ok(ms) => {
                    let rest = gcp_candidates(cs.skip(i + 1));
                    ParseOutcome {
                        result: match rest.result {
                            Ok(more) => Ok(ms + more),
                            Err(e) => Err(e),
                        },
                        appended: seq![content] + rest.appended,
                    }
                },
            }
        }),
{
    assert(cs.skip(i)[0] == cs[i]);
    assert(cs.skip(i).drop_first() =~= cs.skip(i + 1));
}

/// Chat with a GCP-shaped provider, owning the vendor-native history.
pub struct GcpChat<C: Client> {
    system_prompt: String,
    history: Vec<Json>,
    config: Config,
    client: C,
    tools: Vec<ToolSpec>,
}

impl<C: Client> GcpChat<C> {
    /// The system prompt as currently set.
    pub closed spec fn spec_system_prompt(self) -> Seq<char> {
        self.system_prompt@
    }

    /// The vendor-native history, oldest entry first.
    pub closed spec fn spec_history(self) -> Seq<JsonView> {
        deep_seq(self.history@)
    }

    /// The configuration the chat was created with.
    pub closed spec fn spec_config(self) -> ConfigView {
        self.config@
    }

    /// The tools bound to the chat.
    pub closed spec fn spec_tools(self) -> Seq<ToolSpecView> {
        crate::tools::tool_specs_view(self.tools@)
    }

    /// The transport the chat sends through.
    pub closed spec fn spec_client(self) -> C {
        self.client
    }

    /// Create a chat with an empty history and an empty system prompt.
    pub fn new(config: Config, client: C, tools: Vec<ToolSpec>) -> (r: Result<GcpChat<C>, Error>)
        ensures
            match r {
                Ok(chat) => {
                    &&& chat.spec_system_prompt() == Seq::<char>::empty()
                    &&& chat.spec_history() == Seq::<JsonView>::empty()
                    &&& chat.spec_config() == config@
                    &&& chat.spec_tools() == crate::tools::tool_specs_view(tools@)
                    &&& chat.spec_client() == client
                },
                Err(e) => false,
            },
    {
        let r = GcpChat {
            system_prompt: String::new(),
            history: Vec::new(),
            config,
            client,
            tools,
        };
        proof {
            assert(r.spec_history() =~= Seq::<JsonView>::empty());
        }
        Ok(r)
    }

    /// Forget the conversation so far.
    pub fn clear_history(&mut self)
        ensures
            final(self).spec_history() == Seq::<JsonView>::empty(),
            final(self).spec_system_prompt() == old(self).spec_system_prompt(),
            final(self).spec_config() == old(self).spec_config(),
            final(self).spec_tools() == old(self).spec_tools(),
            final(self).spec_client() == old(self).spec_client(),
    {
        self.history.clear();
        proof {
            assert(final(self).spec_history() =~= Seq::<JsonView>::empty());
        }
    }

    /// Set the system prompt; it travels in the payload's
    /// `systemInstruction` field.
    pub fn set_system_prompt(&mut self, prompt: String)
        ensures
            final(self).spec_system_prompt() == prompt@,
            final(self).spec_history() == old(self).spec_history(),
            final(self).spec_config() == old(self).spec_config(),
            final(self).spec_tools() == old(self).spec_tools(),
            final(self).spec_client() == old(self).spec_client(),
    {
        self.system_prompt = prompt;
    }

    /// The vendor-shaped history entry for one input text message.
    fn text_entry(provider: ModelProvider, txt: &crate::llm::messages::Text) -> (r: Json)
        ensures
            seq![r.deep()] == gcp_input_entry(
                provider,
                MessageView::Text { role: txt.role, message: txt.message@ },
            ),
    {
        let part = json_obj1("text", Json::Str(txt.message.clone()));
        let r = json_obj2(
            "role",
            Json::Str(role_to_llm(provider, txt.role).to_owned()),
            "parts",
            json_arr1(part),
        );
        proof {
            assert(seq![r.deep()] == gcp_input_entry(
                provider,
                MessageView::Text { role: txt.role, message: txt.message@ },
            ));
        }
        r
    }

    /// The vendor-shaped history entry for one input tool result.
    fn tool_result_entry(provider: ModelProvider, res: &crate::llm::messages::ToolResult) -> (r:
        Json)
        ensures
            seq![r.deep()] == gcp_input_entry(
                provider,
                MessageView::ToolResult {
                    call_id: res.call_id@,
                    name: res.name@,
                    result: res.result@,
                },
            ),
    {
        let response = json_obj2(
            "name",
            Json::Str(res.name.clone()),
            "content",
            Json::Str(res.result.clone()),
        );
        let fr = json_obj2("name", Json::Str(res.name.clone()), "response", response);
        let part = json_obj1("functionResponse", fr);
        let r = json_obj2("role", Json::Str("user".to_owned()), "parts", json_arr1(part));
        proof {
            assert(seq![r.deep()] == gcp_input_entry(
                provider,
                MessageView::ToolResult {
                    call_id: res.call_id@,
                    name: res.name@,
                    result: res.result@,
                },
            ));
        }
        r
    }

    /// Append the input messages to the history and build the payload of
    /// this turn.
    pub fn prep_payload(&mut self, messages: &Vec<Message>, tools: ToolChoice) -> (r: Json)
        ensures
            final(self).spec_system_prompt() == old(self).spec_system_prompt(),
            final(self).spec_config() == old(self).spec_config(),
            final(self).spec_tools() == old(self).spec_tools(),
            final(self).spec_client() == old(self).spec_client(),
            final(self).spec_history() == old(self).spec_history() + gcp_input_entries(
                old(self).spec_config().provider,
                messages_view(messages@),
            ),
            r.deep() == gcp_payload(
                old(self).spec_config(),
                old(self).spec_system_prompt(),
                final(self).spec_history(),
                old(self).spec_tools(),
                tools@,
            ),
    {
        let ghost self0 = *self;
        let ghost mv = messages_view(messages@);
        let ghost provider = self.config@.provider;
        let ghost mut delta: Seq<JsonView> = Seq::empty();
        let n = messages.len();
        proof {
            assert(mv.skip(0) =~= mv);
            assert(deep_seq(self.history@) + delta =~= deep_seq(self.history@));
        }
        for i in 0..n
            invariant
                n == messages.len(),
                mv == messages_view(messages@),
                mv.len() == n,
                self.system_prompt == self0.system_prompt,
                self.config == self0.config,
                self.tools == self0.tools,
                self.client == self0.client,
                deep_seq(self.history@) == deep_seq(self0.history@) + delta,
                gcp_input_entries(provider, mv) == delta + gcp_input_entries(
                    provider,
                    mv.skip(i as int),
                ),
                provider == self0.config@.provider,
        {
            let ghost pre = self.history@;
            let m = &messages[i];
            match m {
                Message::Text(txt) => {
                    let entry = Self::text_entry(self.config.provider, txt);
                    self.history.push(entry);
                    proof {
                        lemma_deep_seq_push(pre, self.history@.last());
                        assert(mv[i as int] == (MessageView::Text {
                            role: txt.role,
                            message: txt.message@,
                        }));
                        delta = delta + gcp_input_entry(provider, mv[i as int]);
                        assert(deep_seq(self.history@) =~= deep_seq(self0.history@) + delta);
                    }
                },
                Message::ToolResult(res) => {
                    let entry = Self::tool_result_entry(self.config.provider, res);
                    self.history.push(entry);
                    proof {
                        lemma_deep_seq_push(pre, self.history@.last());
                        assert(mv[i as int] == (MessageView::ToolResult {
                            call_id: res.call_id@,
                            name: res.name@,
                            result: res.result@,
                        }));
                        delta = delta + gcp_input_entry(provider, mv[i as int]);
                        assert(deep_seq(self.history@) =~= deep_seq(self0.history@) + delta);
                    }
                },
                Message::ToolCall(_) => {
                    proof {
                        assert(gcp_input_entry(provider, mv[i as int]) =~= Seq::<
                            JsonView,
                        >::empty());
                        delta = delta + gcp_input_entry(provider, mv[i as int]);
                        assert(deep_seq(self.history@) =~= deep_seq(self0.history@) + delta);
                    }
                },
            }
            proof {
                lemma_gcp_inputs_skip(provider, mv, i as int);
                assert(gcp_input_entries(provider, mv) =~= delta + gcp_input_entries(
                    provider,
                    mv.skip(i + 1int),
                ));
            }
        }
        proof {
            assert(mv.skip(n as int) =~= Seq::<MessageView>::empty());
            assert(gcp_input_entries(provider, mv) =~= delta);
        }
        let sys = json_obj1(
            "parts",
            json_obj1("text", Json::Str(self.system_prompt.clone())),
        );
        let mut entries: Vec<(String, Json)> = Vec::new();
        push_entry(&mut entries, "systemInstruction", sys);
        push_entry(&mut entries, "contents", Json::Arr(clone_json_list(&self.history)));
        let mut gc: Vec<(String, Json)> = Vec::new();
        set_i64_param(&mut gc, "maxOutputTokens", &self.config.max_tokens);
        set_num_param(&mut gc, "topP", &self.config.top_p);
        set_i64_param(&mut gc, "topK", &self.config.top_k);
        set_num_param(&mut gc, "temperature", &self.config.temperature);
        set_num_param(&mut gc, "presencePenalty", &self.config.presence_penalty);
        set_num_param(&mut gc, "frequencyPenalty", &self.config.frequency_penalty);
        match &self.config.stop_sequence {
            Some(s) => {
                push_entry(&mut gc, "stopSequences", json_arr1(Json::Str(s.clone())));
            },
            None => {},
        }
        let ghost gcv = gc@;
        proof {
            assert(deep_entries(gcv) =~~= gcp_gen_config(self0.config@));
        }
        push_entry(&mut entries, "generationConfig", Json::Obj(gc));
        self.prep_tool_use(&mut entries, tools);
        proof {
            assert(deep_entries(entries@) =~~= gcp_payload(
                self0.config@,
                self0.system_prompt@,
                deep_seq(self.history@),
                self0.spec_tools(),
                tools@,
            )->Obj_0);
        }
        Json::Obj(entries)
    }

    /// Attach the tool-choice directive and the tool declarations.
    fn prep_tool_use(&self, entries: &mut Vec<(String, Json)>, tools: ToolChoice)
        ensures
            deep_entries(final(entries)@) == deep_entries(old(entries)@) + gcp_tool_entries(
                self.spec_tools(),
                tools@,
            ),
    {
        let ghost pre = deep_entries(entries@);
        let ghost choice = tools@;
        match tools {
            ToolChoice::NoTools => {},
            ToolChoice::Auto => {
                let d = json_obj1(
                    "function_calling_config",
                    json_obj1("mode", Json::Str("AUTO".to_owned())),
                );
                push_entry(entries, "tool_config", d);
                self.add_tools(entries);
            },
            ToolChoice::CallOne => {
                let d = json_obj1(
                    "function_calling_config",
                    json_obj1("mode", Json::Str("ANY".to_owned())),
                );
                push_entry(entries, "tool_config", d);
                self.add_tools(entries);
            },
            ToolChoice::Force(tool) => {
                let d = json_obj1(
                    "function_calling_config",
                    json_obj2(
                        "mode",
                        Json::Str("ANY".to_owned()),
                        "allowed_function_names",
                        json_arr1(Json::Str(tool)),
                    ),
                );
                push_entry(entries, "tool_config", d);
                self.add_tools(entries);
            },
        }
        proof {
            assert(deep_entries(entries@) =~= pre + gcp_tool_entries(self.spec_tools(), choice));
        }
    }

    /// Attach the tool declarations.
    fn add_tools(&self, entries: &mut Vec<(String, Json)>)
        ensures
            deep_entries(final(entries)@) == deep_entries(old(entries)@) + seq![
                (
                    "tools"@,
                    JsonView::Arr(
                        seq![
                            JsonView::Obj(
                                seq![
                                    (
                                        "function_declarations"@,
                                        JsonView::Arr(gcp_tools_array(self.spec_tools())),
                                    ),
                                ],
                            ),
                        ],
                    ),
                ),
            ],
    {
        let ghost tv = self.spec_tools();
        let mut arr: Vec<Json> = Vec::new();
        let n = self.tools.len();
        for i in 0..n
            invariant
                n == self.tools.len(),
                tv == self.spec_tools(),
                tv.len() == n,
                arr@.len() == i,
                forall|j: int| 0 <= j < i ==> arr@[j].deep() == gcp_tools_array(tv)[j],
        {
            let spec = &self.tools[i];
            let o = json_obj3(
                "name",
                Json::Str(spec.name.clone()),
                "description",
                Json::Str(spec.description.clone()),
                "parameters",
                tool_params_to_value(&spec.params, ModelProvider::GCP),
            );
            arr.push(o);
            proof {
                assert(tv[i as int] == self.tools@[i as int]@);
                assert(arr@.last().deep() == gcp_tools_array(tv)[i as int]);
            }
        }
        proof {
            lemma_deep_seq(arr@);
            assert(deep_seq(arr@) =~= gcp_tools_array(tv));
        }
        push_entry(entries, "tools", json_arr1(json_obj1("function_declarations", Json::Arr(arr))));
    }

    /// Normalize one part of a candidate's content.
    fn message_of_part(part: &Json, role: Role) -> (r: Result<Message, Error>)
        ensures
            match r {
                Ok(m) => gcp_part(part.deep(), role) == Ok::<MessageView, ErrorView>(m@),
                Err(e) => gcp_part(part.deep(), role) == Err::<MessageView, ErrorView>(e@),
            },
    {
        let null_doc = Json::Null;
        let fc = match part.get("functionCall") {
            Some(v) => v,
            None => &null_doc,
        };
        let fc_is_object = match fc.as_object() {
            Some(o) => true,
            None => false,
        };
        if fc_is_object {
            let name = match fc.get("name") {
                Some(v) => match v.as_str() {
                    Some(s) => s.clone(),
                    None => {
                        return Err(
                            Error::LLMResponseError("can't extract tool name from LLM API response."),
                        );
                    },
                },
                None => {
                    return Err(
                        Error::LLMResponseError("can't extract tool name from LLM API response."),
                    );
                },
            };
            match fc.get("args") {
                Some(v) => match v.as_object() {
                    Some(entries) => {
                        let params = params_of_entries(entries);
                        Ok(Message::ToolCall(ToolCall { call_id: String::new(), name, params }))
                    },
                    None => Err(Error::LLMResponseError("can't enumerate tool call parameters.")),
                },
                None => Err(Error::LLMResponseError("can't enumerate tool call parameters.")),
            }
        } else {
            let txt = match part.get("text") {
                Some(v) => v.as_str(),
                None => None,
            };
            match txt {
                Some(s) => Ok(Message::text(role, s.clone())),
                None => Err(Error::LLMResponseError("unexpected message type.")),
            }
        }
    }

    /// Normalize one candidate: read its content's role, then walk its
    /// parts.
    fn messages_of_candidate(c: &Json) -> (r: Result<Vec<Message>, Error>)
        ensures
            res_view(r) == gcp_candidate(c.deep()),
    {
        let null_doc = Json::Null;
        let content = match c.get("content") {
            Some(v) => v,
            None => &null_doc,
        };
        let role_s = match content.get("role") {
            Some(v) => match v.as_str() {
                Some(s) => s,
                None => {
                    return Err(
                        Error::LLMResponseError("can't extract message role from LLM API response."),
                    );
                },
            },
            None => {
                return Err(
                    Error::LLMResponseError("can't extract message role from LLM API response."),
                );
            },
        };
        let role = match llm_to_role(role_s.as_str()) {
            Ok(ro) => ro,
            Err(e) => {
                return Err(e);
            },
        };
        let parts = match content.get("parts") {
            Some(v) => match v.as_array() {
                Some(a) => a,
                None => {
                    return Err(
                        Error::LLMResponseError(
                            "unexpected answer format, can't enumerate message parts.",
                        ),
                    );
                },
            },
            None => {
                return Err(
                    Error::LLMResponseError(
                        "unexpected answer format, can't enumerate message parts.",
                    ),
                );
            },
        };
        let ghost pv = deep_seq(parts@);
        let mut out: Vec<Message> = Vec::new();
        let n = parts.len();
        proof {
            lemma_deep_seq(parts@);
            assert(pv.skip(0) =~= pv);
            assert(messages_view(out@) =~= Seq::<MessageView>::empty());
            if gcp_parts(pv, role) is Ok {
                assert(messages_view(out@) + gcp_parts(pv, role)->Ok_0 =~= gcp_parts(
                    pv,
                    role,
                )->Ok_0);
            }
        }
        for i in 0..n
            invariant
                n == parts.len(),
                pv == deep_seq(parts@),
                pv.len() == n,
                gcp_candidate(c.deep()) == gcp_parts(pv, role),
                gcp_parts(pv, role) matches Ok(ms) ==> messages_view(out@) + gcp_parts(
                    pv.skip(i as int),
                    role,
                )->Ok_0 == ms,
                gcp_parts(pv, role) is Ok ==> gcp_parts(pv.skip(i as int), role) is Ok,
                gcp_parts(pv, role) matches Err(e) ==> gcp_parts(pv.skip(i as int), role) == Err::<
                    Seq<MessageView>,
                    ErrorView,
                >(e),
        {
            proof {
                lemma_deep_seq(parts@);
                lemma_gcp_parts_skip(pv, role, i as int);
            }
            match Self::message_of_part(&parts[i], role) {
                Ok(m) => {
                    let ghost pre_out = out@;
                    out.push(m);
                    proof {
                        assert(messages_view(out@) =~= messages_view(pre_out) + seq![
                            out@.last()@,
                        ]);
                        if gcp_parts(pv, role) is Ok {
                            assert(messages_view(out@) + gcp_parts(pv.skip(i + 1int), role)->Ok_0
                                =~= messages_view(pre_out) + gcp_parts(
                                pv.skip(i as int),
                                role,
                            )->Ok_0);
                        }
                    }
                },
                Err(e) => {
                    return Err(e);
                },
            }
        }
        proof {
            assert(pv.skip(n as int) =~= Seq::<JsonView>::empty());
            if gcp_parts(pv, role) is Ok {
                assert(messages_view(out@) + Seq::<MessageView>::empty() =~= messages_view(out@));
            }
        }
        Ok(out)
    }

    /// Translate a response into normalized messages, appending each
    /// candidate's content verbatim to the history. An explicit error
    /// envelope is surfaced with the history untouched.
    pub fn process_response(&mut self, response: Json) -> (r: Result<Vec<Message>, Error>)
        ensures
            final(self).spec_system_prompt() == old(self).spec_system_prompt(),
            final(self).spec_config() == old(self).spec_config(),
            final(self).spec_tools() == old(self).spec_tools(),
            final(self).spec_client() == old(self).spec_client(),
            final(self).spec_history() == old(self).spec_history() + gcp_parse(
                response@,
            ).appended,
            res_view(r) == gcp_parse(response@).result,
    {
        let ghost self0 = *self;
        proof {
            assert(deep_seq(self.history@) + Seq::<JsonView>::empty() =~= deep_seq(
                self.history@,
            ));
        }
        match check_for_error(&response) {
            Err(e) => {
                return Err(e);
            },
            Ok(u) => {},
        }
        let items = match response.get("candidates") {
            Some(c) => match c.as_array() {
                Some(a) => a,
                None => {
                    return Err(
                        Error::LLMResponseError("can't enumerate messages in the response."),
                    );
                },
            },
            None => {
                return Err(Error::LLMResponseError("can't enumerate messages in the response."));
            },
        };
        let ghost csv = deep_seq(items@);
        let ghost mut delta: Seq<JsonView> = Seq::empty();
        let mut out: Vec<Message> = Vec::new();
        let n = items.len();
        proof {
            lemma_deep_seq(items@);
            assert(csv.skip(0) =~= csv);
            assert(messages_view(out@) =~= Seq::<MessageView>::empty());
            if gcp_candidates(csv).result is Ok {
                assert(messages_view(out@) + gcp_candidates(csv).result->Ok_0 =~= gcp_candidates(
                    csv,
                ).result->Ok_0);
            }
            assert(delta + gcp_candidates(csv).appended =~= gcp_candidates(csv).appended);
        }
        for i in 0..n
            invariant
                n == items.len(),
                csv == deep_seq(items@),
                csv.len() == n,
                self0 == *old(self),
                gcp_parse(response@) == gcp_candidates(csv),
                self.system_prompt == self0.system_prompt,
                self.config == self0.config,
                self.tools == self0.tools,
                self.client == self0.client,
                deep_seq(self.history@) == deep_seq(self0.history@) + delta,
                gcp_candidates(csv).result == (match gcp_candidates(csv.skip(i as int)).result {
                    Ok(more) => Ok::<Seq<MessageView>, ErrorView>(messages_view(out@) + more),
                    Err(e) => Err::<Seq<MessageView>, ErrorView>(e),
                }),
                gcp_candidates(csv).appended == delta + gcp_candidates(csv.skip(i as int)).appended,
        {
            proof {
                lemma_deep_seq(items@);
                lemma_gcp_candidates_skip(csv, i as int);
            }
            let c = &items[i];
            let null_doc = Json::Null;
            let content = match c.get("content") {
                Some(m) => m,
                None => &null_doc,
            };
            let ghost pre = self.history@;
            let ghost delta_old = delta;
            self.history.push(content.deep_clone());
            proof {
                lemma_deep_seq_push(pre, self.history@.last());
                delta = delta + seq![json_index(csv[i as int], "content"@)];
                assert(deep_seq(self.history@) =~= deep_seq(self0.history@) + delta);
            }
            match Self::messages_of_candidate(c) {
                Ok(ms) => {
                    let mut ms = ms;
                    let ghost pre_out = out@;
                    let ghost msv = messages_view(ms@);
                    out.append(&mut ms);
                    proof {
                        assert(messages_view(out@) =~= messages_view(pre_out) + msv);
                        if gcp_candidates(csv).result is Ok {
                            assert(messages_view(out@) + gcp_candidates(
                                csv.skip(i + 1int),
                            ).result->Ok_0 =~= messages_view(pre_out) + gcp_candidates(
                                csv.skip(i as int),
                            ).result->Ok_0);
                        }
                        assert(delta + gcp_candidates(csv.skip(i + 1int)).appended =~= delta_old
                            + gcp_candidates(csv.skip(i as int)).appended);
                    }
                },
                Err(e) => {
                    proof {
                        assert(gcp_candidates(csv).appended =~= delta);
                    }
                    return Err(e);
                },
            }
        }
        proof {
            assert(csv.skip(n as int) =~= Seq::<JsonView>::empty());
            if gcp_candidates(csv).result is Ok {
                assert(messages_view(out@) + Seq::<MessageView>::empty() =~= messages_view(out@));
            }
            assert(gcp_candidates(csv).appended =~= delta + Seq::<JsonView>::empty());
        }
        Ok(out)
    }

    /// One inference turn: append the inputs, send the payload with the API
    /// key as a query parameter, and normalize whatever the provider
    /// answered.
    pub fn get_inference(&mut self, messages: &Vec<Message>, tools: ToolChoice) -> (r: Result<
        Vec<Message>,
        Error,
    >)
        ensures
            final(self).spec_system_prompt() == old(self).spec_system_prompt(),
            final(self).spec_config() == old(self).spec_config(),
            final(self).spec_tools() == old(self).spec_tools(),
            final(self).spec_client() == old(self).spec_client(),
            ({
                let hist1 = old(self).spec_history() + gcp_input_entries(
                    old(self).spec_config().provider,
                    messages_view(messages@),
                );
                ||| (r is Err && final(self).spec_history() == hist1)
                ||| exists|resp: JsonView|
                    {
                        &&& res_view(r) == gcp_parse(resp).result
                        &&& final(self).spec_history() == hist1 + gcp_parse(resp).appended
                    }
            }),
    {
        let payload = self.prep_payload(messages, tools);
        let headers: Vec<(String, String)> = Vec::new();
        let mut params: Vec<(String, String)> = Vec::new();
        params.push(("key".to_owned(), self.config.api_key.clone()));
        let response = match self.client.make_json_request(
            self.config.api_url.as_str(),
            payload,
            &headers,
            &params,
        ) {
            Ok(v) => v,
            Err(e) => {
                return Err(e);
            },
        };
        let ghost resp = response@;
        let r = self.process_response(response);
        proof {
            assert(res_view(r) == gcp_parse(resp).result);
        }
        r
    }
}


/// The leading characters of the payload keys, telling every pair apart.
proof fn lemma_gcp_key_chars()
    ensures
        "systemInstruction"@[0] == 's' && "systemInstruction"@[1] == 'y',
        "contents"@[0] == 'c',
        "generationConfig"@[0] == 'g',
        "tool_config"@[0] == 't' && "tool_config"@[1] == 'o' && "tool_config"@[2] == 'o'
            && "tool_config"@[3] == 'l' && "tool_config"@[4] == '_',
        "tools"@[0] == 't' && "tools"@[1] == 'o' && "tools"@[2] == 'o' && "tools"@[3] == 'l'
            && "tools"@[4] == 's',
        "maxOutputTokens"@[0] == 'm',
        "topP"@[0] == 't' && "topP"@[1] == 'o' && "topP"@[2] == 'p' && "topP"@[3] == 'P',
        "topK"@[0] == 't' && "topK"@[1] == 'o' && "topK"@[2] == 'p' && "topK"@[3] == 'K',
        "temperature"@[0] == 't' && "temperature"@[1] == 'e',
        "presencePenalty"@[0] == 'p',
        "frequencyPenalty"@[0] == 'f',
        "stopSequences"@[0] == 's',
{
    reveal_strlit("systemInstruction");
    reveal_strlit("contents");
    reveal_strlit("generationConfig");
    reveal_strlit("tool_config");
    reveal_strlit("tools");
    reveal_strlit("maxOutputTokens");
    reveal_strlit("topP");
    reveal_strlit("topK");
    reveal_strlit("temperature");
    reveal_strlit("presencePenalty");
    reveal_strlit("frequencyPenalty");
    reveal_strlit("stopSequences");
}

/// Law: for any system prompt, history, tool set and tool choice, the
/// payload's generation configuration includes a sampling parameter field
/// exactly when that parameter is configured — an absent parameter is
/// omitted, never sent as a default.
#[verifier::rlimit(100)]
pub proof fn lemma_gcp_params_present_iff(
    c: ConfigView,
    system_prompt: Seq<char>,
    history: Seq<JsonView>,
    tools: Seq<ToolSpecView>,
    choice: ToolChoiceView,
)
    ensures
        crate::json::json_index(
            gcp_payload(c, system_prompt, history, tools, choice),
            "generationConfig"@,
        ) == JsonView::Obj(gcp_gen_config(c)),
        crate::json::entries_has_key(gcp_gen_config(c), "temperature"@) == (c.temperature is Some),
        crate::json::entries_has_key(gcp_gen_config(c), "topP"@) == (c.top_p is Some),
        crate::json::entries_has_key(gcp_gen_config(c), "topK"@) == (c.top_k is Some),
        crate::json::entries_has_key(gcp_gen_config(c), "maxOutputTokens"@) == (c.max_tokens
            is Some),
        crate::json::entries_has_key(gcp_gen_config(c), "presencePenalty"@) == (c.presence_penalty
            is Some),
        crate::json::entries_has_key(gcp_gen_config(c), "frequencyPenalty"@) == (
        c.frequency_penalty is Some),
        crate::json::entries_has_key(gcp_gen_config(c), "stopSequences"@) == (c.stop_sequence
            is Some),
{
    broadcast use crate::json::lemma_entries_has_key_concat;
    broadcast use crate::json::lemma_entries_index_concat;
    broadcast use crate::llm::util::lemma_opt_i64_entry_has_key;
    broadcast use crate::llm::util::lemma_opt_num_entry_has_key;

    lemma_gcp_key_chars();
    let sys = (
        "systemInstruction"@,
        JsonView::Obj(
            seq![("parts"@, JsonView::Obj(seq![("text"@, JsonView::Str(system_prompt))]))],
        ),
    );
    let contents = ("contents"@, JsonView::Arr(history));
    let gen = ("generationConfig"@, JsonView::Obj(gcp_gen_config(c)));
    let probe = "generationConfig"@;
    crate::json::lemma_has_key_triple(sys, contents, gen, probe);
    crate::json::lemma_index_triple(sys, contents, gen, probe);
    match c.stop_sequence {
        Some(st) => {
            crate::json::lemma_has_key_single(
                ("stopSequences"@, JsonView::Arr(seq![JsonView::Str(st)])),
                "temperature"@,
            );
            crate::json::lemma_has_key_single(
                ("stopSequences"@, JsonView::Arr(seq![JsonView::Str(st)])),
                "topP"@,
            );
            crate::json::lemma_has_key_single(
                ("stopSequences"@, JsonView::Arr(seq![JsonView::Str(st)])),
                "topK"@,
            );
            crate::json::lemma_has_key_single(
                ("stopSequences"@, JsonView::Arr(seq![JsonView::Str(st)])),
                "maxOutputTokens"@,
            );
            crate::json::lemma_has_key_single(
                ("stopSequences"@, JsonView::Arr(seq![JsonView::Str(st)])),
                "presencePenalty"@,
            );
            crate::json::lemma_has_key_single(
                ("stopSequences"@, JsonView::Arr(seq![JsonView::Str(st)])),
                "frequencyPenalty"@,
            );
            crate::json::lemma_has_key_single(
                ("stopSequences"@, JsonView::Arr(seq![JsonView::Str(st)])),
                "stopSequences"@,
            );
        },
        None => {},
    }
}

} // verus!
