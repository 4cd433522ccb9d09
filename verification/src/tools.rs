//! Tool schema: what a tool is called, what parameters it declares, and the
//! policy governing whether the model may call tools.

use vstd::prelude::*;

verus! {

/// Tool parameter data types.
#[derive(Debug, Clone, Copy, PartialEq, Eq, Structural)]
pub enum ParamType {
    /// String.
    String,
    /// Integer.
    Integer,
    /// Number.
    Number,
    /// Boolean.
    Boolean,
}

/// The wire name of each parameter type.
pub open spec fn spec_param_type_str(t: ParamType) -> Seq<char> {
    match t {
        ParamType::String => "string"@,
        ParamType::Integer => "integer"@,
        ParamType::Number => "number"@,
        ParamType::Boolean => "boolean"@,
    }
}

impl ParamType {
    /// The wire name of the type.
    pub fn type_str(&self) -> (r: &'static str)
        ensures
            r@ == spec_param_type_str(*self),
    {
        match self {
            ParamType::String => "string",
            ParamType::Integer => "integer",
            ParamType::Number => "number",
            ParamType::Boolean => "boolean",
        }
    }
}

/// Declaration of one tool parameter.
#[derive(Debug)]
pub struct ToolParam {
    /// Parameter name.
    pub name: String,
    /// Parameter description.
    pub description: String,
    /// Parameter data type.
    pub data_type: ParamType,
    /// Whether a value is required.
    pub required: bool,
}

/// The mathematical content of a [`ToolParam`].
#[verifier::ext_equal]
pub struct ToolParamView {
    /// Parameter name.
    pub name: Seq<char>,
    /// Parameter description.
    pub description: Seq<char>,
    /// Parameter data type.
    pub data_type: ParamType,
    /// Whether a value is required.
    pub required: bool,
}

impl View for ToolParam {
    type V = ToolParamView;

    open spec fn view(&self) -> ToolParamView {
        ToolParamView {
            name: self.name@,
            description: self.description@,
            data_type: self.data_type,
            required: self.required,
        }
    }
}

/// The views of a parameter list, elementwise.
pub open spec fn tool_params_view(ps: Seq<ToolParam>) -> Seq<ToolParamView> {
    ps.map_values(|p: ToolParam| p@)
}

/// Specification of one tool.
#[derive(Debug)]
pub struct ToolSpec {
    /// Tool/function name.
    pub name: String,
    /// Tool description.
    pub description: String,
    /// Tool parameters, in declaration order.
    pub params: Vec<ToolParam>,
}

/// The mathematical content of a [`ToolSpec`].
#[verifier::ext_equal]
pub struct ToolSpecView {
    /// Tool/function name.
    pub name: Seq<char>,
    /// Tool description.
    pub description: Seq<char>,
    /// Tool parameters, in declaration order.
    pub params: Seq<ToolParamView>,
}

impl View for ToolSpec {
    type V = ToolSpecView;

    open spec fn view(&self) -> ToolSpecView {
        ToolSpecView {
            name: self.name@,
            description: self.description@,
            params: tool_params_view(self.params@),
        }
    }
}

/// The views of a list of tool specifications, elementwise.
pub open spec fn tool_specs_view(ts: Seq<ToolSpec>) -> Seq<ToolSpecView> {
    ts.map_values(|t: ToolSpec| t@)
}

/// Tool choice policy for one turn.
#[derive(Debug)]
pub enum ToolChoice {
    /// Do not use tools.
    NoTools,
    /// The model decides whether to call any of the provided tools.
    Auto,
    /// The model must call some one of the provided tools.
    CallOne,
    /// The model must call the named tool.
    Force(String),
}

/// The mathematical content of a [`ToolChoice`].
#[verifier::ext_equal]
pub enum ToolChoiceView {
    /// Do not use tools.
    NoTools,
    /// The model decides.
    Auto,
    /// The model must call some tool.
    CallOne,
    /// The model must call the named tool.
    Force(Seq<char>),
}

impl View for ToolChoice {
    type V = ToolChoiceView;

    open spec fn view(&self) -> ToolChoiceView {
        match self {
            ToolChoice::NoTools => ToolChoiceView::NoTools,
            ToolChoice::Auto => ToolChoiceView::Auto,
            ToolChoice::CallOne => ToolChoiceView::CallOne,
            ToolChoice::Force(name) => ToolChoiceView::Force(name@),
        }
    }
}

} // verus!
