//! The conversation state machine's decisions: classifying a model
//! response batch, validating tool arguments, dispatching tool calls, and
//! reading the human's input. The surrounding loop performs the printing,
//! the model calls and the tool executions these decisions call for.

use vstd::prelude::*;

use crate::json::JsonView;
use crate::llm::messages::messages_view;
use crate::llm::messages::params_view;
use crate::llm::messages::Message;
use crate::llm::messages::MessageView;
use crate::llm::messages::ToolCall;
use crate::strutil::str_eq;
use crate::util::spec_trim;
use crate::util::str_trim;

verus! {

/// The command argument of a tool call: the argument list must hold exactly
/// one parameter, named `command`, with a string value; any deviation is a
/// diagnostic to feed back to the model.
pub open spec fn spec_command_param(params: Seq<(Seq<char>, JsonView)>) -> Result<
    Seq<char>,
    Seq<char>,
> {
    if params.len() != 1 {
        Err(
            "wrong number of input parameters, expect 1 parameter called \"command\" of type string."@,
        )
    } else if params[0].0 != "command"@ {
        Err("wrong parameter name, expect 1 parameter called \"command\" of type string."@)
    } else {
        match params[0].1 {
            JsonView::Str(s) => Ok(s),
            _ => Err(
                "wrong parameter value type, expect 1 parameter called \"command\" of type string."@,
            ),
        }
    }
}

/// Extract the command argument of a tool call, or the diagnostic that
/// describes what is wrong with the argument list.
pub fn command_param(params: &Vec<crate::llm::messages::ToolParam>) -> (r: Result<
    &String,
    &'static str,
>)
    ensures
        match r {
            Ok(c) => spec_command_param(params_view(params@)) == Ok::<Seq<char>, Seq<char>>(c@),
            Err(d) => spec_command_param(params_view(params@)) == Err::<Seq<char>, Seq<char>>(d@),
        },
{
    if params.len() != 1 {
        return Err(
            "wrong number of input parameters, expect 1 parameter called \"command\" of type string.",
        );
    }
    let p = &params[0];
    if !str_eq(p.name.as_str(), "command") {
        return Err("wrong parameter name, expect 1 parameter called \"command\" of type string.");
    }
    match p.value.as_str() {
        Some(s) => Ok(s),
        None => Err(
            "wrong parameter value type, expect 1 parameter called \"command\" of type string.",
        ),
    }
}

/// What the turn does after a response batch: dispatch one tool call, hand
/// control back to the human, or fail the session.
pub enum TurnAction {
    /// Dispatch this tool call.
    Tool(ToolCall),
    /// Hand control back to the human.
    User,
    /// Fail the session: the batch broke the conversation protocol.
    Fail(&'static str),
}

/// The mathematical content of a [`TurnAction`].
#[verifier::ext_equal]
pub enum TurnActionView {
    /// Dispatch the tool call this message describes.
    Tool(MessageView),
    /// Hand control back to the human.
    User,
    /// Fail the session.
    Fail(Seq<char>),
}

impl View for TurnAction {
    type V = TurnActionView;

    open spec fn view(&self) -> TurnActionView {
        match self {
            TurnAction::Tool(c) => TurnActionView::Tool(Message::ToolCall(*c)@),
            TurnAction::User => TurnActionView::User,
            TurnAction::Fail(m) => TurnActionView::Fail(m@),
        }
    }
}

/// A classified response batch: the texts to print, in order, and what to
/// do after printing them.
pub struct Classified {
    /// Text fragments to print, in the order the model emitted them.
    pub texts: Vec<String>,
    /// What to do next.
    pub action: TurnAction,
}

/// The views of the text list.
pub open spec fn texts_view(texts: Seq<String>) -> Seq<Seq<char>> {
    texts.map_values(|t: String| t@)
}

/// Scanning a batch: texts are printed as encountered; at most one tool
/// call is tracked, a second one breaks the protocol; a tool result from
/// the model always breaks the protocol.
pub open spec fn spec_scan(
    msgs: Seq<MessageView>,
    texts: Seq<Seq<char>>,
    tool: Option<MessageView>,
) -> (Seq<Seq<char>>, TurnActionView)
    decreases msgs.len(),
{
    if msgs.len() == 0 {
        (
            texts,
            match tool {
                Some(c) => TurnActionView::Tool(c),
                None => TurnActionView::User,
            },
        )
    } else {
        match msgs[0] {
            MessageView::Text { role, message } => spec_scan(
                msgs.drop_first(),
                texts + seq![message],
                tool,
            ),
            MessageView::ToolCall { call_id, name, params } => if tool is Some {
                (
                    texts,
                    TurnActionView::Fail(
                        "Unexpected LLM response: parallel tool call is requested."@,
                    ),
                )
            } else {
                spec_scan(msgs.drop_first(), texts, Some(msgs[0]))
            },
            MessageView::ToolResult { .. } => (
                texts,
                TurnActionView::Fail("Unexpected \"tool result\" message from LLM."@),
            ),
        }
    }
}

/// What classifying a batch yields. A batch of exactly one message is
/// handled directly; any other batch is scanned in order.
pub open spec fn spec_classify(msgs: Seq<MessageView>) -> (Seq<Seq<char>>, TurnActionView) {
    if msgs.len() == 1 {
        match msgs[0] {
            MessageView::Text { role, message } => (seq![message], TurnActionView::User),
            MessageView::ToolCall { .. } => (Seq::empty(), TurnActionView::Tool(msgs[0])),
            MessageView::ToolResult { .. } => (
                Seq::empty(),
                TurnActionView::Fail("Unexpected message type from the LLM."@),
            ),
        }
    } else {
        spec_scan(msgs, Seq::empty(), None)
    }
}

/// Peeling one message off the scan.
proof fn lemma_scan_skip(
    msgs: Seq<MessageView>,
    texts: Seq<Seq<char>>,
    tool: Option<MessageView>,
    i: int,
)
    requires
        0 <= i < msgs.len(),
    ensures
        spec_scan(msgs.skip(i), texts, tool) == (match msgs[i] {
            MessageView::Text { role, message } => spec_scan(
                msgs.skip(i + 1),
                texts + seq![message],
                tool,
            ),
            MessageView::ToolCall { .. } => if tool is Some {
                (
                    texts,
                    TurnActionView::Fail(
                        "Unexpected LLM response: parallel tool call is requested."@,
                    ),
                )
            } else {
                spec_scan(msgs.skip(i + 1), texts, Some(msgs[i]))
            },
            MessageView::ToolResult { .. } => (
                texts,
                TurnActionView::Fail("Unexpected \"tool result\" message from LLM."@),
            ),
        }),
{
    assert(msgs.skip(i)[0] == msgs[i]);
    assert(msgs.skip(i).drop_first() =~= msgs.skip(i + 1));
}

/// A scan that still has a tool call ahead of one already tracked ends in
/// a failure; and where no model tool result comes first, that failure
/// names the parallel call.
proof fn lemma_scan_second_call_fails(
    msgs: Seq<MessageView>,
    texts: Seq<Seq<char>>,
    tool: Option<MessageView>,
    j: int,
)
    requires
        0 <= j < msgs.len(),
        msgs[j] matches MessageView::ToolCall { .. },
        tool is Some || exists|i: int|
            0 <= i < j && (#[trigger] msgs[i]) matches MessageView::ToolCall { .. },
    ensures
        spec_scan(msgs, texts, tool).1 matches TurnActionView::Fail(_),
        (forall|k: int| 0 <= k < j ==> !((#[trigger] msgs[k]) matches MessageView::ToolResult {
            ..
        })) ==> spec_scan(msgs, texts, tool).1 == TurnActionView::Fail(
            "Unexpected LLM response: parallel tool call is requested."@,
        ),
    decreases msgs.len(),
{
    let rest = msgs.drop_first();
    match msgs[0] {
        MessageView::Text { .. } => {
            if tool is None {
                let i = choose|i: int|
                    0 <= i < j && (#[trigger] msgs[i]) matches MessageView::ToolCall { .. };
                assert(rest[i - 1] == msgs[i]);
            }
            assert(rest[j - 1] == msgs[j]);
            lemma_scan_second_call_fails(rest, texts + seq![msgs[0]->Text_message], tool, j - 1);
            if forall|k: int|
                0 <= k < j ==> !((#[trigger] msgs[k]) matches MessageView::ToolResult { .. }) {
                assert forall|k: int|
                    0 <= k < j - 1 implies !((#[trigger] rest[k]) matches MessageView::ToolResult {
                    ..
                }) by {
                    assert(rest[k] == msgs[k + 1]);
                }
            }
        },
        MessageView::ToolCall { .. } => {
            if tool is Some {
            } else {
                assert(rest[j - 1] == msgs[j]);
                lemma_scan_second_call_fails(rest, texts, Some(msgs[0]), j - 1);
                if forall|k: int|
                    0 <= k < j ==> !((#[trigger] msgs[k]) matches MessageView::ToolResult { .. }) {
                    assert forall|k: int|
                        0 <= k < j - 1 implies !((#[trigger] rest[k]) matches MessageView::ToolResult {
                        ..
                    }) by {
                        assert(rest[k] == msgs[k + 1]);
                    }
                }
            }
        },
        MessageView::ToolResult { .. } => {},
    }
}

/// Law: a response batch carrying two tool calls breaks the conversation
/// protocol: classification ends the session with a failure instead of
/// dispatching either call, and where no model-authored tool result
/// precedes the second call, the failure names the parallel call exactly.
pub proof fn lemma_parallel_tool_calls_fail(msgs: Seq<MessageView>, i: int, j: int)
    requires
        0 <= i < j < msgs.len(),
        msgs[i] matches MessageView::ToolCall { .. },
        msgs[j] matches MessageView::ToolCall { .. },
    ensures
        spec_classify(msgs).1 matches TurnActionView::Fail(_),
        !(spec_classify(msgs).1 matches TurnActionView::Tool(_)),
        (forall|k: int| 0 <= k < j ==> !((#[trigger] msgs[k]) matches MessageView::ToolResult {
            ..
        })) ==> spec_classify(msgs).1 == TurnActionView::Fail(
            "Unexpected LLM response: parallel tool call is requested."@,
        ),
{
    assert(msgs.len() >= 2);
    assert(exists|w: int| 0 <= w < j && (#[trigger] msgs[w]) matches MessageView::ToolCall {
        ..
    }) by {
        assert(0 <= i < j && msgs[i] matches MessageView::ToolCall { .. });
    }
    lemma_scan_second_call_fails(msgs, Seq::empty(), None, j);
}

/// Classify one response batch: which texts to print, and whether to
/// dispatch a tool call, return to the human, or fail the session.
pub fn classify_response(results: Vec<Message>) -> (r: Classified)
    ensures
        (texts_view(r.texts@), r.action@) == spec_classify(messages_view(results@)),
{
    let ghost mv = messages_view(results@);
    if results.len() == 1 {
        let mut rest = results;
        let m = rest.remove(0);
        proof {
            assert(mv[0] == m@);
        }
        match m {
            Message::Text(t) => {
                let mut texts: Vec<String> = Vec::new();
                texts.push(t.message);
                let r = Classified { texts, action: TurnAction::User };
                proof {
                    assert(texts_view(r.texts@) =~= spec_classify(mv).0);
                }
                r
            },
            Message::ToolCall(c) => {
                let r = Classified { texts: Vec::new(), action: TurnAction::Tool(c) };
                proof {
                    assert(texts_view(r.texts@) =~= spec_classify(mv).0);
                }
                r
            },
            Message::ToolResult(_) => {
                let r = Classified {
                    texts: Vec::new(),
                    action: TurnAction::Fail("Unexpected message type from the LLM."),
                };
                proof {
                    assert(texts_view(r.texts@) =~= spec_classify(mv).0);
                }
                r
            },
        }
    } else {
        let mut texts: Vec<String> = Vec::new();
        let mut tool: Option<ToolCall> = None;
        let n = results.len();
        proof {
            assert(mv.skip(0) =~= mv);
            assert(texts_view(texts@) =~= Seq::<Seq<char>>::empty());
        }
        for i in 0..n
            invariant
                n == results@.len(),
                mv == messages_view(results@),
                mv.len() == n,
                spec_classify(mv) == spec_scan(
                    mv.skip(i as int),
                    texts_view(texts@),
                    match tool {
                        Some(c) => Some(Message::ToolCall(c)@),
                        None => None,
                    },
                ),
        {
            proof {
                let ghost cur: Option<MessageView> = if tool is Some {
                    Some(Message::ToolCall(tool->0)@)
                } else {
                    None
                };
                lemma_scan_skip(mv, texts_view(texts@), cur, i as int);
            }
            let m = &results[i];
            match m {
                Message::Text(t) => {
                    let ghost pre = texts@;
                    texts.push(t.message.clone());
                    proof {
                        assert(texts_view(texts@) =~= texts_view(pre) + seq![t.message@]);
                    }
                },
                Message::ToolCall(c) => {
                    if tool.is_some() {
                        return Classified {
                            texts,
                            action: TurnAction::Fail(
                                "Unexpected LLM response: parallel tool call is requested.",
                            ),
                        };
                    }
                    let copied = ToolCall {
                        call_id: c.call_id.clone(),
                        name: c.name.clone(),
                        params: crate::llm::util::clone_params(&c.params),
                    };
                    proof {
                        assert(Message::ToolCall(copied)@ == mv[i as int]);
                    }
                    tool = Some(copied);
                },
                Message::ToolResult(_) => {
                    return Classified {
                        texts,
                        action: TurnAction::Fail("Unexpected \"tool result\" message from LLM."),
                    };
                },
            }
        }
        proof {
            assert(mv.skip(n as int) =~= Seq::<MessageView>::empty());
        }
        match tool {
            Some(c) => Classified { texts, action: TurnAction::Tool(c) },
            None => Classified { texts, action: TurnAction::User },
        }
    }
}

/// The tools the agent can dispatch a call to.
#[derive(Debug, Clone, Copy, PartialEq, Eq, Structural)]
pub enum ToolKind {
    /// The SHELL tool.
    Shell,
    /// The HELP tool.
    Help,
    /// No tool of that name.
    Unknown,
}

/// Which tool a name dispatches to.
pub open spec fn spec_dispatch_tool(name: Seq<char>) -> ToolKind {
    if name == "SHELL"@ {
        ToolKind::Shell
    } else if name == "HELP"@ {
        ToolKind::Help
    } else {
        ToolKind::Unknown
    }
}

/// Dispatch a tool call by name.
pub fn dispatch_tool(name: &str) -> (r: ToolKind)
    ensures
        r == spec_dispatch_tool(name@),
{
    if str_eq(name, "SHELL") {
        ToolKind::Shell
    } else if str_eq(name, "HELP") {
        ToolKind::Help
    } else {
        ToolKind::Unknown
    }
}

/// The synthetic result answering a call to a tool nobody registered.
pub open spec fn spec_unknown_tool_message(name: Seq<char>) -> Seq<char> {
    "Unknown tool \""@ + name + "\" was requested."@
}

/// Build the synthetic result for a call to an unknown tool.
pub fn unknown_tool_message(name: &str) -> (r: String)
    ensures
        r@ == spec_unknown_tool_message(name@),
{
    let mut s = "Unknown tool \"".to_owned();
    s.append(name);
    s.append("\" was requested.");
    s
}

/// Wrap a tool's result into the message fed back to the model, carrying
/// the call id and name of the call it answers.
pub fn make_tool_result(call: &ToolCall, result: String) -> (r: Message)
    ensures
        r@ == (MessageView::ToolResult {
            call_id: call.call_id@,
            name: call.name@,
            result: result@,
        }),
{
    Message::tool_result(call.call_id.clone(), call.name.clone(), result)
}

/// What one line of human input makes of the turn: nothing, a request for
/// the help text, or the first message of a turn.
pub enum UserInput {
    /// Only white space: prompt again.
    Empty,
    /// The help token: print the help text and prompt again.
    HelpRequest,
    /// A message to send, trimmed.
    Message(String),
}

/// The mathematical content of a [`UserInput`].
#[verifier::ext_equal]
pub enum UserInputView {
    /// Only white space.
    Empty,
    /// The help token.
    HelpRequest,
    /// A message to send, trimmed.
    Message(Seq<char>),
}

impl View for UserInput {
    type V = UserInputView;

    open spec fn view(&self) -> UserInputView {
        match self {
            UserInput::Empty => UserInputView::Empty,
            UserInput::HelpRequest => UserInputView::HelpRequest,
            UserInput::Message(s) => UserInputView::Message(s@),
        }
    }
}

/// What a line of input classifies as: blank lines are ignored, a lone `?`
/// asks for help, anything else is the user's message, trimmed.
pub open spec fn spec_classify_user_input(line: Seq<char>) -> UserInputView {
    let t = spec_trim(line);
    if t.len() == 0 {
        UserInputView::Empty
    } else if t == "?"@ {
        UserInputView::HelpRequest
    } else {
        UserInputView::Message(t)
    }
}

/// Classify one line of human input.
pub fn classify_user_input(line: &str) -> (r: UserInput)
    ensures
        r@ == spec_classify_user_input(line@),
{
    let t = str_trim(line);
    proof {
        reveal_strlit("?");
    }
    if t.unicode_len() == 0 {
        UserInput::Empty
    } else if t.unicode_len() == 1 && t.get_char(0) == '?' {
        proof {
            assert(t@ =~= "?"@);
        }
        UserInput::HelpRequest
    } else {
        proof {
            assert(t@ != "?"@);
        }
        UserInput::Message(t.to_owned())
    }
}

} // verus!
