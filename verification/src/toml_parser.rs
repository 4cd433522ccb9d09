//! Reading options from the configuration file.
//!
//! The file text is parsed by the `toml` crate into a document tree; the
//! verified logic then reads the default context's settings out of that
//! tree into the options.

use vstd::prelude::*;

use crate::error::AppError;
use crate::error::AppErrorView;
use crate::json::json_has_key;
use crate::json::json_index;
use crate::json::Json;
use crate::json::JsonView;
use crate::options::Options;
use crate::options::OptionsView;
use crate::util::parse_colors;
use crate::util::spec_parse_colors;

verus! {

/// `toml::Value` appears in the signature of the trusted conversion
/// function below.
#[verifier::external_type_specification]
#[verifier::external_body]
pub struct ExTomlValue(toml::Value);

/// What the `toml` crate parses a configuration text into, carried over
/// into the library's document tree: the document on success, the parser's
/// message otherwise. A parse is a function of the text alone.
pub uninterp spec fn toml_parse(text: Seq<char>) -> Result<JsonView, Seq<char>>;

/// Relies on `toml::from_str::<toml::Table>`: parsing a TOML text yields a
/// document determined by the text alone, named `toml_parse`.
#[verifier::external_body]
pub fn parse_toml(text: &str) -> (r: Result<Json, String>)
    ensures
        match r {
            Ok(j) => toml_parse(text@) == Ok::<JsonView, Seq<char>>(j.deep()),
            Err(e) => toml_parse(text@) == Err::<JsonView, Seq<char>>(e@),
        },
{
    match toml::from_str::<toml::Table>(text) {
        Ok(t) => Ok(Json::Obj(t.into_iter().map(|(k, v)| (k, json_of_toml(v))).collect())),
        Err(e) => Err(e.to_string()),
    }
}

/// Relies on the shape of `toml::Value`: each variant is carried across
/// into the library's tree, one arm each; a float that no JSON number can
/// hold, and a datetime, carry nothing a configuration value may read.
#[verifier::external_body]
fn json_of_toml(v: toml::Value) -> Json {
    match v {
        toml::Value::String(s) => Json::Str(s),
        toml::Value::Integer(i) => Json::Int(i),
        toml::Value::Float(x) => match serde_json::Number::from_f64(x) {
            Some(n) => Json::Num(n),
            None => Json::Null,
        },
        toml::Value::Boolean(b) => Json::Bool(b),
        toml::Value::Datetime(_) => Json::Null,
        toml::Value::Array(items) => Json::Arr(items.into_iter().map(json_of_toml).collect()),
        toml::Value::Table(t) => Json::Obj(
            t.into_iter().map(|(k, x)| (k, json_of_toml(x))).collect(),
        ),
    }
}

/// Reading one optional string setting: absent keeps the current value, a
/// non-string value is rejected with the field's complaint.
pub open spec fn spec_str_field(
    ctx: JsonView,
    key: Seq<char>,
    cur: Option<Seq<char>>,
    err: Seq<char>,
) -> Result<Option<Seq<char>>, AppErrorView> {
    if json_has_key(ctx, key) {
        match json_index(ctx, key) {
            JsonView::Str(s) => Ok(Some(s)),
            _ => Err(AppErrorView::ConfigParseError(err)),
        }
    } else {
        Ok(cur)
    }
}

/// Reading one optional integer setting.
pub open spec fn spec_int_field(
    ctx: JsonView,
    key: Seq<char>,
    cur: Option<int>,
    err: Seq<char>,
) -> Result<Option<int>, AppErrorView> {
    if json_has_key(ctx, key) {
        match json_index(ctx, key) {
            JsonView::Int(i) => Ok(Some(i)),
            _ => Err(AppErrorView::ConfigParseError(err)),
        }
    } else {
        Ok(cur)
    }
}

/// Reading one optional non-integer number setting.
pub open spec fn spec_num_field(
    ctx: JsonView,
    key: Seq<char>,
    cur: Option<serde_json::Number>,
    err: Seq<char>,
) -> Result<Option<serde_json::Number>, AppErrorView> {
    if json_has_key(ctx, key) {
        match json_index(ctx, key) {
            JsonView::Num(n) => Ok(Some(n)),
            _ => Err(AppErrorView::ConfigParseError(err)),
        }
    } else {
        Ok(cur)
    }
}

/// Reading one optional color setting: the value must be a string holding a
/// well-formed color list.
pub open spec fn spec_color_field(
    tbl: JsonView,
    key: Seq<char>,
    cur: (Option<Seq<u8>>, Option<Seq<u8>>),
    err: Seq<char>,
) -> Result<(Option<Seq<u8>>, Option<Seq<u8>>), AppErrorView> {
    if json_has_key(tbl, key) {
        match json_index(tbl, key) {
            JsonView::Str(s) => match spec_parse_colors(s) {
                Some(c) => Ok(c),
                None => Err(AppErrorView::ConfigParseError(err)),
            },
            _ => Err(AppErrorView::ConfigParseError(err)),
        }
    } else {
        Ok(cur)
    }
}

/// Reading the default context's settings into the options, each field
/// replacing the current value only when the file names it.
pub open spec fn spec_apply_context(ctx: JsonView, o: OptionsView) -> Result<
    OptionsView,
    AppErrorView,
> {
    match spec_str_field(ctx, "goal"@, o.goal, "goal must be a string value"@) {
        Err(e) => Err(e),
        Ok(goal) => match spec_str_field(ctx, "model"@, o.model, "model must be a string value"@) {
            Err(e) => Err(e),
            Ok(model) => match spec_str_field(
                ctx,
                "model_provider"@,
                o.model_provider,
                "model_provider must be a string value"@,
            ) {
                Err(e) => Err(e),
                Ok(model_provider) => match spec_str_field(
                    ctx,
                    "api_key"@,
                    o.api_key,
                    "api_key must be a string value"@,
                ) {
                    Err(e) => Err(e),
                    Ok(api_key) => match spec_str_field(
                        ctx,
                        "api_url"@,
                        o.api_url,
                        "api_url must be a string value"@,
                    ) {
                        Err(e) => Err(e),
                        Ok(api_url) => match spec_str_field(
                            ctx,
                            "api_version"@,
                            o.api_version,
                            "api_version must be a string value"@,
                        ) {
                            Err(e) => Err(e),
                            Ok(api_version) => match spec_int_field(
                                ctx,
                                "max_tokens"@,
                                o.max_tokens,
                                "max_tokens must be an integer value"@,
                            ) {
                                Err(e) => Err(e),
                                Ok(max_tokens) => match spec_int_field(
                                    ctx,
                                    "n"@,
                                    o.n,
                                    "n must be an integer value"@,
                                ) {
                                    Err(e) => Err(e),
                                    Ok(n) => match spec_num_field(
                                        ctx,
                                        "temperature"@,
                                        o.temperature,
                                        "temperature must be a float value"@,
                                    ) {
                                        Err(e) => Err(e),
                                        Ok(temperature) => match spec_num_field(
                                            ctx,
                                            "top_p"@,
                                            o.top_p,
                                            "top_p must be a float value"@,
                                        ) {
                                            Err(e) => Err(e),
                                            Ok(top_p) => match spec_int_field(
                                                ctx,
                                                "top_k"@,
                                                o.top_k,
                                                "top_k must be an integer value"@,
                                            ) {
                                                Err(e) => Err(e),
                                                Ok(top_k) => match spec_num_field(
                                                    ctx,
                                                    "frequency_penalty"@,
                                                    o.frequency_penalty,
                                                    "frequency_penalty must be a float value"@,
                                                ) {
                                                    Err(e) => Err(e),
                                                    Ok(frequency_penalty) => match spec_num_field(
                                                        ctx,
                                                        "presence_penalty"@,
                                                        o.presence_penalty,
                                                        "presence_penalty must be a float value"@,
                                                    ) {
                                                        Err(e) => Err(e),
                                                        Ok(presence_penalty) => match spec_str_field(
                                                            ctx,
                                                            "stop_sequence"@,
                                                            o.stop_sequence,
                                                            "stop_sequence must be a string value"@,
                                                        ) {
                                                            Err(e) => Err(e),
                                                            Ok(stop_sequence) => match spec_str_field(
                                                                ctx,
                                                                "prompt"@,
                                                                o.prompt,
                                                                "prompt must be a string value"@,
                                                            ) {
                                                                Err(e) => Err(e),
                                                                Ok(prompt) => Ok(
                                                                    OptionsView {
                                                                        goal,
                                                                        model,
                                                                        model_provider,
                                                                        api_key,
                                                                        api_url,
                                                                        api_version,
                                                                        max_tokens,
                                                                        n,
                                                                        temperature,
                                                                        top_p,
                                                                        top_k,
                                                                        frequency_penalty,
                                                                        presence_penalty,
                                                                        stop_sequence,
                                                                        prompt,
                                                                        ..o
                                                                    },
                                                                ),
                                                            },
                                                        },
                                                    },
                                                },
                                            },
                                        },
                                    },
                                },
                            },
                        },
                    },
                },
            },
        },
    }
}

/// Reading the `settings` section into the options: a missing section, or
/// one that is not a table, changes nothing.
pub open spec fn spec_apply_settings(doc: JsonView, o: OptionsView) -> Result<
    OptionsView,
    AppErrorView,
> {
    if json_has_key(doc, "settings"@) {
        match json_index(doc, "settings"@) {
            JsonView::Obj(entries) => {
                let tbl = json_index(doc, "settings"@);
                match spec_color_field(
                    tbl,
                    "user_color"@,
                    o.user_color,
                    "user_color value must have valid format, e.g. 'fg(255,0,123);bg(0,123,255)'."@,
                ) {
                    Err(e) => Err(e),
                    Ok(user_color) => match spec_color_field(
                        tbl,
                        "apprentice_color"@,
                        o.apprentice_color,
                        "apprentice_color value must have valid format, e.g. 'fg(255,0,123);bg(0,123,255)'."@,
                    ) {
                        Err(e) => Err(e),
                        Ok(apprentice_color) => match spec_color_field(
                            tbl,
                            "tool_color"@,
                            o.tool_color,
                            "tool_color value must have valid format, e.g. 'fg(255,0,123);bg(0,123,255)'."@,
                        ) {
                            Err(e) => Err(e),
                            Ok(tool_color) => Ok(
                                OptionsView { user_color, apprentice_color, tool_color, ..o },
                            ),
                        },
                    },
                }
            },
            _ => Ok(o),
        }
    } else {
        Ok(o)
    }
}

/// What reading a parsed configuration document does: the named default
/// context's settings are read first, then the `settings` section.
pub open spec fn spec_apply_toml(doc: JsonView, o: OptionsView) -> Result<
    OptionsView,
    AppErrorView,
> {
    if json_has_key(doc, "default_context"@) {
        match json_index(doc, "default_context"@) {
            JsonView::Str(ctx_name) => if json_has_key(doc, ctx_name) {
                match json_index(doc, ctx_name) {
                    JsonView::Obj(entries) => match spec_apply_context(
                        json_index(doc, ctx_name),
                        o,
                    ) {
                        Err(e) => Err(e),
                        Ok(o2) => spec_apply_settings(doc, o2),
                    },
                    _ => Err(AppErrorView::Unknown),
                }
            } else {
                Err(
                    AppErrorView::ConfigParseError(
                        "configuration for the default context is not specified"@,
                    ),
                )
            },
            _ => Err(AppErrorView::ConfigParseError("default_context must be a string value"@)),
        }
    } else {
        spec_apply_settings(doc, o)
    }
}

/// Read one optional string setting.
fn get_str_val(ctx: &Json, key: &str, cur: &Option<String>, err: &'static str) -> (r: Result<
    Option<String>,
    AppError,
>)
    ensures
        match r {
            Ok(v) => spec_str_field(ctx.deep(), key@, crate::config::opt_str_view(*cur), err@)
                == Ok::<Option<Seq<char>>, AppErrorView>(crate::config::opt_str_view(v)),
            Err(e) => spec_str_field(ctx.deep(), key@, crate::config::opt_str_view(*cur), err@)
                == Err::<Option<Seq<char>>, AppErrorView>(e@),
        },
{
    match ctx.get(key) {
        Some(v) => match v.as_str() {
            Some(s) => Ok(Some(s.clone())),
            None => Err(AppError::ConfigParseError(err)),
        },
        None => Ok(
            match cur {
                Some(s) => Some(s.clone()),
                None => None,
            },
        ),
    }
}

/// Read one optional integer setting.
fn get_int_val(ctx: &Json, key: &str, cur: &Option<i64>, err: &'static str) -> (r: Result<
    Option<i64>,
    AppError,
>)
    ensures
        match r {
            Ok(v) => spec_int_field(ctx.deep(), key@, crate::config::opt_int_view(*cur), err@)
                == Ok::<Option<int>, AppErrorView>(crate::config::opt_int_view(v)),
            Err(e) => spec_int_field(ctx.deep(), key@, crate::config::opt_int_view(*cur), err@)
                == Err::<Option<int>, AppErrorView>(e@),
        },
{
    match ctx.get(key) {
        Some(v) => match v {
            Json::Int(i) => Ok(Some(*i)),
            _ => Err(AppError::ConfigParseError(err)),
        },
        None => Ok(*cur),
    }
}

/// Read one optional number setting.
fn get_num_val(
    ctx: &Json,
    key: &str,
    cur: &Option<serde_json::Number>,
    err: &'static str,
) -> (r: Result<Option<serde_json::Number>, AppError>)
    ensures
        match r {
            Ok(v) => spec_num_field(ctx.deep(), key@, *cur, err@) == Ok::<
                Option<serde_json::Number>,
                AppErrorView,
            >(v),
            Err(e) => spec_num_field(ctx.deep(), key@, *cur, err@) == Err::<
                Option<serde_json::Number>,
                AppErrorView,
            >(e@),
        },
{
    match ctx.get(key) {
        Some(v) => match v {
            Json::Num(n) => Ok(Some(n.clone())),
            _ => Err(AppError::ConfigParseError(err)),
        },
        None => Ok(
            match cur {
                Some(n) => Some(n.clone()),
                None => None,
            },
        ),
    }
}

/// Read one optional color setting.
fn get_color_val(
    tbl: &Json,
    key: &str,
    cur: &(Option<[u8; 3]>, Option<[u8; 3]>),
    err: &'static str,
) -> (r: Result<(Option<[u8; 3]>, Option<[u8; 3]>), AppError>)
    ensures
        match r {
            Ok(v) => spec_color_field(
                tbl.deep(),
                key@,
                crate::options::colors_view(*cur),
                err@,
            ) == Ok::<(Option<Seq<u8>>, Option<Seq<u8>>), AppErrorView>(
                crate::options::colors_view(v),
            ),
            Err(e) => spec_color_field(
                tbl.deep(),
                key@,
                crate::options::colors_view(*cur),
                err@,
            ) == Err::<(Option<Seq<u8>>, Option<Seq<u8>>), AppErrorView>(e@),
        },
{
    match tbl.get(key) {
        Some(v) => match v.as_str() {
            Some(s) => match parse_colors(s.as_str()) {
                Ok(c) => Ok(c),
                Err(u) => Err(AppError::ConfigParseError(err)),
            },
            None => Err(AppError::ConfigParseError(err)),
        },
        None => Ok(*cur),
    }
}

/// Read the configuration file's content into the options. A file that does
/// not parse is rejected whole; a malformed setting is rejected with a
/// complaint naming it; on any rejection the options are left unchanged.
#[verifier::rlimit(60)]
pub fn parse_toml_config(content: &str, options: &mut Options) -> (r: Result<(), AppError>)
    ensures
        match r {
            Ok(u) => match toml_parse(content@) {
                Ok(doc) => spec_apply_toml(doc, old(options)@) == Ok::<OptionsView, AppErrorView>(
                    final(options)@,
                ),
                Err(m) => false,
            },
            Err(e) => match toml_parse(content@) {
                Ok(doc) => spec_apply_toml(doc, old(options)@) == Err::<
                    OptionsView,
                    AppErrorView,
                >(e@),
                Err(m) => e@ == AppErrorView::TomlError(m),
            },
        },
{
    let doc = match parse_toml(content) {
        Ok(d) => d,
        Err(m) => {
            return Err(AppError::TomlError(m));
        },
    };
    match doc.get("default_context") {
        Some(dc) => {
            let ctx_name = match dc.as_str() {
                Some(s) => s,
                None => {
                    return Err(AppError::ConfigParseError("default_context must be a string value"));
                },
            };
            let ctx = match doc.get(ctx_name.as_str()) {
                Some(c) => c,
                None => {
                    return Err(
                        AppError::ConfigParseError(
                            "configuration for the default context is not specified",
                        ),
                    );
                },
            };
            match ctx.as_object() {
                Some(entries) => {},
                None => {
                    return Err(AppError::Unknown);
                },
            }
            let goal = match get_str_val(ctx, "goal", &options.goal, "goal must be a string value") {
                Ok(v) => v,
                Err(e) => {
                    return Err(e);
                },
            };
            let model = match get_str_val(
                ctx,
                "model",
                &options.model,
                "model must be a string value",
            ) {
                Ok(v) => v,
                Err(e) => {
                    return Err(e);
                },
            };
            let model_provider = match get_str_val(
                ctx,
                "model_provider",
                &options.model_provider,
                "model_provider must be a string value",
            ) {
                Ok(v) => v,
                Err(e) => {
                    return Err(e);
                },
            };
            let api_key = match get_str_val(
                ctx,
                "api_key",
                &options.api_key,
                "api_key must be a string value",
            ) {
                Ok(v) => v,
                Err(e) => {
                    return Err(e);
                },
            };
            let api_url = match get_str_val(
                ctx,
                "api_url",
                &options.api_url,
                "api_url must be a string value",
            ) {
                Ok(v) => v,
                Err(e) => {
                    return Err(e);
                },
            };
            let api_version = match get_str_val(
                ctx,
                "api_version",
                &options.api_version,
                "api_version must be a string value",
            ) {
                Ok(v) => v,
                Err(e) => {
                    return Err(e);
                },
            };
            let max_tokens = match get_int_val(
                ctx,
                "max_tokens",
                &options.max_tokens,
                "max_tokens must be an integer value",
            ) {
                Ok(v) => v,
                Err(e) => {
                    return Err(e);
                },
            };
            let n = match get_int_val(ctx, "n", &options.n, "n must be an integer value") {
                Ok(v) => v,
                Err(e) => {
                    return Err(e);
                },
            };
            let temperature = match get_num_val(
                ctx,
                "temperature",
                &options.temperature,
                "temperature must be a float value",
            ) {
                Ok(v) => v,
                Err(e) => {
                    return Err(e);
                },
            };
            let top_p = match get_num_val(
                ctx,
                "top_p",
                &options.top_p,
                "top_p must be a float value",
            ) {
                Ok(v) => v,
                Err(e) => {
                    return Err(e);
                },
            };
            let top_k = match get_int_val(
                ctx,
                "top_k",
                &options.top_k,
                "top_k must be an integer value",
            ) {
                Ok(v) => v,
                Err(e) => {
                    return Err(e);
                },
            };
            let frequency_penalty = match get_num_val(
                ctx,
                "frequency_penalty",
                &options.frequency_penalty,
                "frequency_penalty must be a float value",
            ) {
                Ok(v) => v,
                Err(e) => {
                    return Err(e);
                },
            };
            let presence_penalty = match get_num_val(
                ctx,
                "presence_penalty",
                &options.presence_penalty,
                "presence_penalty must be a float value",
            ) {
                Ok(v) => v,
                Err(e) => {
                    return Err(e);
                },
            };
            let stop_sequence = match get_str_val(
                ctx,
                "stop_sequence",
                &options.stop_sequence,
                "stop_sequence must be a string value",
            ) {
                Ok(v) => v,
                Err(e) => {
                    return Err(e);
                },
            };
            let prompt = match get_str_val(
                ctx,
                "prompt",
                &options.prompt,
                "prompt must be a string value",
            ) {
                Ok(v) => v,
                Err(e) => {
                    return Err(e);
                },
            };
            options.goal = goal;
            options.model = model;
            options.model_provider = model_provider;
            options.api_key = api_key;
            options.api_url = api_url;
            options.api_version = api_version;
            options.max_tokens = max_tokens;
            options.n = n;
            options.temperature = temperature;
            options.top_p = top_p;
            options.top_k = top_k;
            options.frequency_penalty = frequency_penalty;
            options.presence_penalty = presence_penalty;
            options.stop_sequence = stop_sequence;
            options.prompt = prompt;
        },
        None => {},
    }
    let ghost mid = options@;
    match doc.get("settings") {
        Some(section) => {
            match section.as_object() {
                Some(entries) => {
                    let user_color = match get_color_val(
                        section,
                        "user_color",
                        &options.user_color,
                        "user_color value must have valid format, e.g. 'fg(255,0,123);bg(0,123,255)'.",
                    ) {
                        Ok(v) => v,
                        Err(e) => {
                            return Err(e);
                        },
                    };
                    let apprentice_color = match get_color_val(
                        section,
                        "apprentice_color",
                        &options.apprentice_color,
                        "apprentice_color value must have valid format, e.g. 'fg(255,0,123);bg(0,123,255)'.",
                    ) {
                        Ok(v) => v,
                        Err(e) => {
                            return Err(e);
                        },
                    };
                    let tool_color = match get_color_val(
                        section,
                        "tool_color",
                        &options.tool_color,
                        "tool_color value must have valid format, e.g. 'fg(255,0,123);bg(0,123,255)'.",
                    ) {
                        Ok(v) => v,
                        Err(e) => {
                            return Err(e);
                        },
                    };
                    options.user_color = user_color;
                    options.apprentice_color = apprentice_color;
                    options.tool_color = tool_color;
                },
                None => {},
            }
        },
        None => {},
    }
    Ok(())
}

} // verus!
