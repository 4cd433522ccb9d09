//! Shared pieces of the provider adapters: role name tables, optional
//! payload parameters, and the tool declaration schema.

use vstd::prelude::*;

use crate::config::opt_int_view;
use crate::config::ModelProvider;
use crate::error::Error;
use crate::error::ErrorView;
use crate::json::deep_entries;
use crate::json::deep_seq;
use crate::json::lemma_deep_entries_push;
use crate::json::lemma_deep_seq_push;
use crate::json::json_has_key;
use crate::json::json_index;
use crate::json::lemma_deep_entries;
use crate::json::push_entry;
use crate::json::Json;
use crate::json::JsonView;
use crate::llm::messages::messages_view;
use crate::llm::messages::params_view;
use crate::llm::messages::Message;
use crate::llm::messages::MessageView;
use crate::llm::messages::Role;
use crate::strutil::str_eq;
use crate::tools::spec_param_type_str;
use crate::tools::ToolParam;
use crate::tools::ToolParamView;

verus! {

/// The role name each provider uses on the wire for each logical role.
pub open spec fn spec_role_to_llm(provider: ModelProvider, role: Role) -> Seq<char> {
    match provider {
        ModelProvider::OpenAI => match role {
            Role::System => "system"@,
            Role::Model => "assistant"@,
            Role::User => "user"@,
        },
        ModelProvider::Anthropic => match role {
            Role::System => ""@,
            Role::Model => "assistant"@,
            Role::User => "user"@,
        },
        ModelProvider::GCP => match role {
            Role::System => "system"@,
            Role::Model => "model"@,
            Role::User => "user"@,
        },
    }
}

/// Get the provider-specific role name for a logical role.
pub fn role_to_llm(provider: ModelProvider, role: Role) -> (r: &'static str)
    ensures
        r@ == spec_role_to_llm(provider, role),
{
    match provider {
        ModelProvider::OpenAI => match role {
            Role::System => "system",
            Role::Model => "assistant",
            Role::User => "user",
        },
        ModelProvider::Anthropic => match role {
            Role::System => "",
            Role::Model => "assistant",
            Role::User => "user",
        },
        ModelProvider::GCP => match role {
            Role::System => "system",
            Role::Model => "model",
            Role::User => "user",
        },
    }
}

/// The logical role named by a wire role, when it is recognized.
pub open spec fn spec_llm_to_role(s: Seq<char>) -> Option<Role> {
    if s == "system"@ {
        Some(Role::System)
    } else if s == "model"@ || s == "assistant"@ {
        Some(Role::Model)
    } else if s == "user"@ {
        Some(Role::User)
    } else {
        None
    }
}

/// Get the logical role for a wire role name; an unrecognized name is a
/// response format error.
pub fn llm_to_role(role: &str) -> (r: Result<Role, Error>)
    ensures
        match r {
            Ok(ro) => spec_llm_to_role(role@) == Some(ro),
            Err(e) => spec_llm_to_role(role@) is None && e@ == ErrorView::LLMResponseError(
                "LLM returned message with an unknown role."@,
            ),
        },
{
    if str_eq(role, "system") {
        Ok(Role::System)
    } else if str_eq(role, "model") || str_eq(role, "assistant") {
        Ok(Role::Model)
    } else if str_eq(role, "user") {
        Ok(Role::User)
    } else {
        Err(Error::LLMResponseError("LLM returned message with an unknown role."))
    }
}

/// The entries an optional integer parameter contributes to a payload:
/// one entry when configured, none otherwise.
pub open spec fn opt_i64_entry(key: Seq<char>, v: Option<int>) -> Seq<(Seq<char>, JsonView)> {
    match v {
        Some(x) => seq![(key, JsonView::Int(x))],
        None => Seq::empty(),
    }
}

/// The entries an optional number parameter contributes to a payload.
pub open spec fn opt_num_entry(key: Seq<char>, v: Option<serde_json::Number>) -> Seq<
    (Seq<char>, JsonView),
> {
    match v {
        Some(x) => seq![(key, JsonView::Num(x))],
        None => Seq::empty(),
    }
}

/// The entries an optional string parameter contributes to a payload.
pub open spec fn opt_str_entry(key: Seq<char>, v: Option<Seq<char>>) -> Seq<(Seq<char>, JsonView)> {
    match v {
        Some(x) => seq![(key, JsonView::Str(x))],
        None => Seq::empty(),
    }
}

/// An optional integer parameter's entries hold exactly its own key, and
/// only when it is configured.
pub broadcast proof fn lemma_opt_i64_entry_has_key(key: Seq<char>, v: Option<int>, probe: Seq<char>)
    ensures
        #[trigger] crate::json::entries_has_key(opt_i64_entry(key, v), probe) == (v is Some && key
            == probe),
{
    match v {
        Some(x) => {
            crate::json::lemma_has_key_single((key, JsonView::Int(x)), probe);
        },
        None => {},
    }
}

/// An optional number parameter's entries hold exactly its own key, and
/// only when it is configured.
pub broadcast proof fn lemma_opt_num_entry_has_key(
    key: Seq<char>,
    v: Option<serde_json::Number>,
    probe: Seq<char>,
)
    ensures
        #[trigger] crate::json::entries_has_key(opt_num_entry(key, v), probe) == (v is Some && key
            == probe),
{
    match v {
        Some(x) => {
            crate::json::lemma_has_key_single((key, JsonView::Num(x)), probe);
        },
        None => {},
    }
}

/// An optional string parameter's entries hold exactly its own key, and
/// only when it is configured.
pub broadcast proof fn lemma_opt_str_entry_has_key(
    key: Seq<char>,
    v: Option<Seq<char>>,
    probe: Seq<char>,
)
    ensures
        #[trigger] crate::json::entries_has_key(opt_str_entry(key, v), probe) == (v is Some && key
            == probe),
{
    match v {
        Some(x) => {
            crate::json::lemma_has_key_single((key, JsonView::Str(x)), probe);
        },
        None => {},
    }
}

/// Append an integer parameter to payload entries when it is configured,
/// and nothing otherwise.
pub fn set_i64_param(entries: &mut Vec<(String, Json)>, key: &str, val: &Option<i64>)
    ensures
        deep_entries(final(entries)@) == deep_entries(old(entries)@) + opt_i64_entry(
            key@,
            opt_int_view(*val),
        ),
{
    match val {
        Some(v) => {
            push_entry(entries, key, Json::Int(*v));
        },
        None => {
            proof {
                assert(deep_entries(entries@) + Seq::<(Seq<char>, JsonView)>::empty()
                    =~= deep_entries(entries@));
            }
        },
    }
}

/// Append a number parameter to payload entries when it is configured, and
/// nothing otherwise.
pub fn set_num_param(entries: &mut Vec<(String, Json)>, key: &str, val: &Option<serde_json::Number>)
    ensures
        deep_entries(final(entries)@) == deep_entries(old(entries)@) + opt_num_entry(key@, *val),
{
    match val {
        Some(v) => {
            push_entry(entries, key, Json::Num(v.clone()));
        },
        None => {
            proof {
                assert(deep_entries(entries@) + Seq::<(Seq<char>, JsonView)>::empty()
                    =~= deep_entries(entries@));
            }
        },
    }
}

/// What processing one response amounts to: the normalized messages or the
/// error, together with the fragments appended to the history on the way.
#[verifier::ext_equal]
pub struct ParseOutcome {
    /// The normalized messages, or the first error met.
    pub result: Result<Seq<MessageView>, ErrorView>,
    /// The history entries appended while walking the response.
    pub appended: Seq<JsonView>,
}

/// The view of a processing result.
pub open spec fn res_view(r: Result<Vec<Message>, Error>) -> Result<Seq<MessageView>, ErrorView> {
    match r {
        Ok(msgs) => Ok(messages_view(msgs@)),
        Err(e) => Err(e@),
    }
}

/// The error envelope of a response, if it carries one: a provider error
/// with the envelope's message, or a format error when the envelope has no
/// readable message.
pub open spec fn spec_check_error(resp: JsonView) -> Option<ErrorView> {
    if json_has_key(resp, "error"@) {
        match json_index(json_index(resp, "error"@), "message"@) {
            JsonView::Str(m) => Some(ErrorView::LLMErrorMessage(m)),
            _ => Some(
                ErrorView::LLMResponseError("can't extract error message from LLM API response."@),
            ),
        }
    } else {
        None
    }
}

/// Surface the error envelope of a response, when it carries one.
pub fn check_for_error(response: &Json) -> (r: Result<(), Error>)
    ensures
        match r {
            Ok(u) => spec_check_error(response@) is None,
            Err(e) => spec_check_error(response@) == Some(e@),
        },
{
    match response.get("error") {
        Some(err) => {
            match err.get("message") {
                Some(m) => match m.as_str() {
                    Some(s) => Err(Error::LLMErrorMessage(s.clone())),
                    None => Err(
                        Error::LLMResponseError(
                            "can't extract error message from LLM API response.",
                        ),
                    ),
                },
                None => Err(
                    Error::LLMResponseError("can't extract error message from LLM API response."),
                ),
            }
        },
        None => Ok(()),
    }
}

/// The flattened arguments of a tool call: one parameter per object entry,
/// in the order the provider emitted them.
pub fn params_of_entries(entries: &Vec<(String, Json)>) -> (r: Vec<crate::llm::messages::ToolParam>)
    ensures
        params_view(r@) == deep_entries(entries@),
{
    let n = entries.len();
    let mut out: Vec<crate::llm::messages::ToolParam> = Vec::new();
    for i in 0..n
        invariant
            n == entries.len(),
            out@.len() == i,
            forall|j: int|
                0 <= j < i ==> out@[j].name@ == entries@[j].0@ && out@[j].value.deep()
                    == entries@[j].1.deep(),
    {
        let e = &entries[i];
        out.push(crate::llm::messages::ToolParam { name: e.0.clone(), value: e.1.deep_clone() });
    }
    proof {
        lemma_deep_entries(entries@);
        assert(params_view(out@) =~= deep_entries(entries@));
    }
    out
}

/// A copy of a tool call's arguments, with the same views.
pub fn clone_params(params: &Vec<crate::llm::messages::ToolParam>) -> (r: Vec<
    crate::llm::messages::ToolParam,
>)
    ensures
        params_view(r@) == params_view(params@),
{
    let n = params.len();
    let mut out: Vec<crate::llm::messages::ToolParam> = Vec::new();
    for i in 0..n
        invariant
            n == params.len(),
            out@.len() == i,
            forall|j: int|
                0 <= j < i ==> out@[j].name@ == params@[j].name@ && out@[j].value.deep()
                    == params@[j].value.deep(),
    {
        let p = &params[i];
        out.push(
            crate::llm::messages::ToolParam { name: p.name.clone(), value: p.value.deep_clone() },
        );
    }
    proof {
        assert(params_view(out@) =~= params_view(params@));
    }
    out
}

/// The declaration of one tool parameter in the vendor schema.
pub open spec fn property_view(p: ToolParamView) -> JsonView {
    JsonView::Obj(
        seq![
            ("type"@, JsonView::Str(spec_param_type_str(p.data_type))),
            ("description"@, JsonView::Str(p.description)),
        ],
    )
}

/// The `properties` entries of the schema: one per declared parameter, in
/// declaration order.
pub open spec fn schema_properties(ps: Seq<ToolParamView>) -> Seq<(Seq<char>, JsonView)> {
    ps.map_values(|p: ToolParamView| (p.name, property_view(p)))
}

/// The `required` array of the schema: the names of the required
/// parameters, in declaration order.
pub open spec fn required_names(ps: Seq<ToolParamView>) -> Seq<JsonView>
    decreases ps.len(),
{
    if ps.len() == 0 {
        Seq::empty()
    } else {
        (if ps[0].required {
            seq![JsonView::Str(ps[0].name)]
        } else {
            Seq::empty()
        }) + required_names(ps.drop_first())
    }
}

/// The vendor tool declaration schema for a parameter list: an object
/// schema with ordered properties and the required names; providers that
/// reject unknown fields additionally disallow extra properties.
pub open spec fn spec_tool_schema(ps: Seq<ToolParamView>, provider: ModelProvider) -> JsonView {
    JsonView::Obj(
        seq![
            ("type"@, JsonView::Str("object"@)),
            ("properties"@, JsonView::Obj(schema_properties(ps))),
            ("required"@, JsonView::Arr(required_names(ps))),
        ] + (match provider {
            ModelProvider::GCP => Seq::<(Seq<char>, JsonView)>::empty(),
            _ => seq![("additionalProperties"@, JsonView::Bool(false))],
        }),
    )
}

/// Peeling the first parameter off the `required` computation.
proof fn lemma_required_names_skip(ps: Seq<ToolParamView>, i: int)
    requires
        0 <= i < ps.len(),
    ensures
        required_names(ps.skip(i)) == (if ps[i].required {
            seq![JsonView::Str(ps[i].name)]
        } else {
            Seq::<JsonView>::empty()
        }) + required_names(ps.skip(i + 1)),
{
    assert(ps.skip(i)[0] == ps[i]);
    assert(ps.skip(i).drop_first() =~= ps.skip(i + 1));
}

/// Build the vendor tool declaration schema for a parameter list.
pub fn tool_params_to_value(params: &Vec<ToolParam>, provider: ModelProvider) -> (r: Json)
    ensures
        r.deep() == spec_tool_schema(crate::tools::tool_params_view(params@), provider),
{
    let ghost psv = crate::tools::tool_params_view(params@);
    let mut props: Vec<(String, Json)> = Vec::new();
    let mut required: Vec<Json> = Vec::new();
    let n = params.len();
    proof {
        assert(psv.skip(0) =~= psv);
    }
    for i in 0..n
        invariant
            n == params.len(),
            psv == crate::tools::tool_params_view(params@),
            psv.len() == n,
            deep_entries(props@) == schema_properties(psv.take(i as int)),
            deep_seq(required@) + required_names(psv.skip(i as int)) == required_names(psv),
    {
        let p = &params[i];
        let mut pe: Vec<(String, Json)> = Vec::new();
        push_entry(&mut pe, "type", Json::Str(p.data_type.type_str().to_owned()));
        push_entry(&mut pe, "description", Json::Str(p.description.clone()));
        proof {
            assert(deep_entries(pe@) =~= seq![
                ("type"@, JsonView::Str(spec_param_type_str(psv[i as int].data_type))),
                ("description"@, JsonView::Str(psv[i as int].description)),
            ]);
        }
        let ghost old_props = props@;
        props.push((p.name.clone(), Json::Obj(pe)));
        proof {
            lemma_deep_entries_push(old_props, props@.last());
            assert(props@.drop_last() =~= old_props);
            assert(deep_entries(props@) =~= schema_properties(psv.take(i + 1int)));
        }
        let ghost old_req_view = required@;
        let ghost old_required = deep_seq(required@);
        if p.required {
            required.push(Json::Str(p.name.clone()));
        }
        proof {
            lemma_required_names_skip(psv, i as int);
            if psv[i as int].required {
                lemma_deep_seq_push(old_req_view, required@.last());
                assert(required@ == old_req_view.push(required@.last()));
                assert(deep_seq(required@) == old_required + seq![
                    JsonView::Str(psv[i as int].name),
                ]);
            }
            assert(deep_seq(required@) + required_names(psv.skip(i + 1int)) =~= required_names(
                psv,
            ));
        }
    }
    proof {
        assert(psv.take(n as int) =~= psv);
        assert(psv.skip(n as int) =~= Seq::<ToolParamView>::empty());
        assert(deep_seq(required@) + required_names(psv.skip(n as int)) =~= deep_seq(required@));
    }
    let mut top: Vec<(String, Json)> = Vec::new();
    push_entry(&mut top, "type", Json::Str("object".to_owned()));
    push_entry(&mut top, "properties", Json::Obj(props));
    push_entry(&mut top, "required", Json::Arr(required));
    match provider {
        ModelProvider::GCP => {},
        _ => {
            push_entry(&mut top, "additionalProperties", Json::Bool(false));
        },
    }
    proof {
        assert(deep_entries(top@) =~= (match provider {
            ModelProvider::GCP => seq![
                ("type"@, JsonView::Str("object"@)),
                ("properties"@, JsonView::Obj(schema_properties(psv))),
                ("required"@, JsonView::Arr(required_names(psv))),
            ],
            _ => seq![
                ("type"@, JsonView::Str("object"@)),
                ("properties"@, JsonView::Obj(schema_properties(psv))),
                ("required"@, JsonView::Arr(required_names(psv))),
                ("additionalProperties"@, JsonView::Bool(false)),
            ],
        }));
        assert(spec_tool_schema(psv, provider)->Obj_0 =~= deep_entries(top@));
    }
    Json::Obj(top)
}

} // verus!
