//! The provider-independent message model.

use vstd::prelude::*;

use crate::json::Json;
use crate::json::JsonView;

verus! {

/// Logical roles, provider-independent.
#[derive(Debug, Clone, Copy, PartialEq, Eq, Structural)]
pub enum Role {
    /// System.
    System,
    /// Model.
    Model,
    /// User.
    User,
}

/// A chat message: text, a tool call requested by the model, or the result
/// of a tool call fed back to the model.
#[derive(Debug)]
pub enum Message {
    /// Text message.
    Text(Text),
    /// Tool call requested by the model.
    ToolCall(ToolCall),
    /// Result of a tool call.
    ToolResult(ToolResult),
}

/// A text message.
#[derive(Debug)]
pub struct Text {
    /// Role.
    pub role: Role,
    /// Message content.
    pub message: String,
}

/// The result of a tool call, fed back into the conversation.
#[derive(Debug)]
pub struct ToolResult {
    /// Call id, echoing the id of the tool call being answered.
    pub call_id: String,
    /// Tool name.
    pub name: String,
    /// Call result.
    pub result: String,
}

/// A tool call requested by the model.
#[derive(Debug)]
pub struct ToolCall {
    /// Call id.
    pub call_id: String,
    /// Tool name.
    pub name: String,
    /// Call arguments, in the order the parsed argument document lists
    /// them: a provider that serializes its arguments yields them in the
    /// order the nested parse's map iterates.
    pub params: Vec<ToolParam>,
}

/// One argument of a tool call.
#[derive(Debug)]
pub struct ToolParam {
    /// Parameter name.
    pub name: String,
    /// Value.
    pub value: Json,
}

/// The mathematical content of a [`Message`].
#[verifier::ext_equal]
pub enum MessageView {
    /// Text message.
    Text {
        /// Role.
        role: Role,
        /// Message content.
        message: Seq<char>,
    },
    /// Tool call requested by the model.
    ToolCall {
        /// Call id.
        call_id: Seq<char>,
        /// Tool name.
        name: Seq<char>,
        /// Call arguments, in order.
        params: Seq<(Seq<char>, JsonView)>,
    },
    /// Result of a tool call.
    ToolResult {
        /// Call id.
        call_id: Seq<char>,
        /// Tool name.
        name: Seq<char>,
        /// Call result.
        result: Seq<char>,
    },
}

/// The views of a list of tool call arguments.
pub open spec fn params_view(params: Seq<ToolParam>) -> Seq<(Seq<char>, JsonView)> {
    params.map_values(|p: ToolParam| (p.name@, p.value.deep()))
}

impl View for Message {
    type V = MessageView;

    open spec fn view(&self) -> MessageView {
        match self {
            Message::Text(t) => MessageView::Text { role: t.role, message: t.message@ },
            Message::ToolCall(c) => MessageView::ToolCall {
                call_id: c.call_id@,
                name: c.name@,
                params: params_view(c.params@),
            },
            Message::ToolResult(r) => MessageView::ToolResult {
                call_id: r.call_id@,
                name: r.name@,
                result: r.result@,
            },
        }
    }
}

/// The views of a list of messages.
pub open spec fn messages_view(msgs: Seq<Message>) -> Seq<MessageView> {
    msgs.map_values(|m: Message| m@)
}

impl Message {
    /// Create a text message.
    pub fn text(role: Role, message: String) -> (r: Message)
        ensures
            r@ == (MessageView::Text { role, message: message@ }),
    {
        Message::Text(Text { role, message })
    }

    /// Create a tool result message.
    pub fn tool_result(call_id: String, name: String, result: String) -> (r: Message)
        ensures
            r@ == (MessageView::ToolResult {
                call_id: call_id@,
                name: name@,
                result: result@,
            }),
    {
        Message::ToolResult(ToolResult { call_id, name, result })
    }
}

} // verus!
