use vstd::prelude::*;

use crate::errors::{TurnError, TurnErrorV};

verus! {

/// Why the completion provider stopped: a natural stop, a request for tool
/// calls, or any other reason (length, content filter, ...), which the
/// router rejects.
#[derive(Debug, Clone, Copy, PartialEq, Eq, Structural)]
pub enum FinishKind {
    Stop,
    ToolCalls,
    Other,
}

/// One tool call requested by the model: a tool name and the arguments as a
/// JSON text.
#[derive(Debug, Clone, PartialEq)]
pub struct ToolCallRequest {
    pub name: String,
    pub arguments: String,
}

#[verifier::ext_equal]
pub ghost struct ToolCallV {
    pub name: Seq<char>,
    pub arguments: Seq<char>,
}

impl View for ToolCallRequest {
    type V = ToolCallV;

    open spec fn view(&self) -> ToolCallV {
        ToolCallV { name: self.name@, arguments: self.arguments@ }
    }
}

/// One choice of a chat-completion response, reduced to what the router
/// reads: the finish indicator, the textual content if any, and the ordered
/// list of requested tool calls.
#[derive(Debug, Clone, PartialEq)]
pub struct ChatChoice {
    pub finish: FinishKind,
    pub content: Option<String>,
    pub tool_calls: Vec<ToolCallRequest>,
}

#[verifier::ext_equal]
pub ghost struct ChoiceV {
    pub finish: FinishKind,
    pub content: Option<Seq<char>>,
    pub tool_calls: Seq<ToolCallV>,
}

impl View for ChatChoice {
    type V = ChoiceV;

    open spec fn view(&self) -> ChoiceV {
        ChoiceV {
            finish: self.finish,
            content: match self.content {
                Some(ref t) => Some(t@),
                None => None,
            },
            tool_calls: self.tool_calls@.map_values(|t: ToolCallRequest| t@),
        }
    }
}

/// The closed set of tools the assistant can dispatch to.
#[derive(Debug, Clone, Copy, PartialEq, Eq, Structural)]
pub enum AssistantTool {
    DrawImage,
    WriteCode,
    Answer,
}

/// The wire name of each tool, as the model refers to it.
pub open spec fn spec_tool_name(t: AssistantTool) -> Seq<char> {
    match t {
        AssistantTool::DrawImage => "draw_image"@,
        AssistantTool::WriteCode => "write_code"@,
        AssistantTool::Answer => "answer"@,
    }
}

pub fn tool_name(t: &AssistantTool) -> (r: &'static str)
    ensures
        r@ == spec_tool_name(*t),
{
    match t {
        AssistantTool::DrawImage => "draw_image",
        AssistantTool::WriteCode => "write_code",
        AssistantTool::Answer => "answer",
    }
}

/// Resolution of a tool name against the closed set; any other name is
/// unrecognized.
pub open spec fn spec_tool_from_name(n: Seq<char>) -> Option<AssistantTool> {
    if n == "draw_image"@ {
        Some(AssistantTool::DrawImage)
    } else if n == "write_code"@ {
        Some(AssistantTool::WriteCode)
    } else if n == "answer"@ {
        Some(AssistantTool::Answer)
    } else {
        None
    }
}

pub fn tool_from_name(name: &str) -> (r: Option<AssistantTool>)
    ensures
        r == spec_tool_from_name(name@),
{
    let n = name.to_owned();
    if n == "draw_image".to_owned() {
        Some(AssistantTool::DrawImage)
    } else if n == "write_code".to_owned() {
        Some(AssistantTool::WriteCode)
    } else if n == "answer".to_owned() {
        Some(AssistantTool::Answer)
    } else {
        None
    }
}

/// The "prompt" argument that the tool-argument JSON carries, if the text is
/// well-formed JSON of the tools' argument shape and the field is present.
pub uninterp spec fn prompt_arg_of(s: Seq<char>) -> Option<Seq<char>>;

/// Relies on serde_json::from_str (and the value accessors `get` and
/// `as_str` on what it returns): deserializes the tool-argument JSON and
/// hands out its "prompt" string field; other fields are ignored, as the
/// tools' argument shapes allow. Whether the text parses, and the field's
/// value, depend on the text alone.
#[verifier::external_body]
fn parse_prompt_arg(s: &str) -> (r: Option<String>)
    ensures
        r is Some <==> prompt_arg_of(s@) is Some,
        r is Some ==> r->0@ == prompt_arg_of(s@)->0,
{
    match serde_json::from_str::<serde_json::Value>(s) {
        Ok(v) => v.get("prompt").and_then(|p| p.as_str()).map(|p| p.to_string()),
        Err(_) => None,
    }
}

/// What the router decides: answer directly with the model's own content, or
/// dispatch to one tool with the prompt taken from its arguments.
#[derive(Debug, Clone, PartialEq)]
pub enum ToolDecision {
    Direct { content: String },
    DrawImage { prompt: String },
    WriteCode { prompt: String },
    AnswerTool { prompt: String },
}

#[verifier::ext_equal]
pub ghost enum ToolDecisionV {
    Direct { content: Seq<char> },
    DrawImage { prompt: Seq<char> },
    WriteCode { prompt: Seq<char> },
    AnswerTool { prompt: Seq<char> },
}

impl View for ToolDecision {
    type V = ToolDecisionV;

    open spec fn view(&self) -> ToolDecisionV {
        match self {
            ToolDecision::Direct { content } => ToolDecisionV::Direct { content: content@ },
            ToolDecision::DrawImage { prompt } => ToolDecisionV::DrawImage { prompt: prompt@ },
            ToolDecision::WriteCode { prompt } => ToolDecisionV::WriteCode { prompt: prompt@ },
            ToolDecision::AnswerTool { prompt } => ToolDecisionV::AnswerTool { prompt: prompt@ },
        }
    }
}

/// The view of a fallible result whose two sides both have views.
pub open spec fn res_view<A: View, B: View>(r: Result<A, B>) -> Result<A::V, B::V> {
    match r {
        Ok(a) => Ok(a@),
        Err(b) => Err(b@),
    }
}

/// The routing decision for the first tool call of a `ToolCalls` response:
/// an unrecognized name is a protocol error, malformed or incomplete
/// arguments are a parse error.
pub open spec fn spec_route_tool(tc: ToolCallV) -> Result<ToolDecisionV, TurnErrorV> {
    match spec_tool_from_name(tc.name) {
        Some(AssistantTool::DrawImage) => match prompt_arg_of(tc.arguments) {
            Some(p) => Ok(ToolDecisionV::DrawImage { prompt: p }),
            None => Err(TurnErrorV::Parse("invalid tool arguments"@)),
        },
        Some(AssistantTool::WriteCode) => match prompt_arg_of(tc.arguments) {
            Some(p) => Ok(ToolDecisionV::WriteCode { prompt: p }),
            None => Err(TurnErrorV::Parse("invalid tool arguments"@)),
        },
        Some(AssistantTool::Answer) => match prompt_arg_of(tc.arguments) {
            Some(p) => Ok(ToolDecisionV::AnswerTool { prompt: p }),
            None => Err(TurnErrorV::Parse("invalid tool arguments"@)),
        },
        None => Err(TurnErrorV::Protocol("no proper tool found"@)),
    }
}

/// The full routing decision for one completion choice. On `Stop` the
/// content is the direct answer and its absence a protocol error; on
/// `ToolCalls` only the first entry counts, the rest are ignored by
/// documented policy; any other finish indicator is a protocol error.
pub open spec fn spec_route(c: ChoiceV) -> Result<ToolDecisionV, TurnErrorV> {
    match c.finish {
        FinishKind::Stop => match c.content {
            Some(t) => Ok(ToolDecisionV::Direct { content: t }),
            None => Err(TurnErrorV::Protocol("expect content but no content available"@)),
        },
        FinishKind::ToolCalls => if c.tool_calls.len() == 0 {
            Err(TurnErrorV::Protocol("expect at least one tool call"@))
        } else {
            spec_route_tool(c.tool_calls[0])
        },
        FinishKind::Other => Err(TurnErrorV::Protocol("stop reason not supported"@)),
    }
}

fn route_tool(tc: &ToolCallRequest) -> (r: Result<ToolDecision, TurnError>)
    ensures
        res_view(r) == spec_route_tool(tc@),
{
    match tool_from_name(tc.name.as_str()) {
        Some(AssistantTool::DrawImage) => match parse_prompt_arg(tc.arguments.as_str()) {
            Some(p) => Ok(ToolDecision::DrawImage { prompt: p }),
            None => Err(TurnError::Parse("invalid tool arguments".to_owned())),
        },
        Some(AssistantTool::WriteCode) => match parse_prompt_arg(tc.arguments.as_str()) {
            Some(p) => Ok(ToolDecision::WriteCode { prompt: p }),
            None => Err(TurnError::Parse("invalid tool arguments".to_owned())),
        },
        Some(AssistantTool::Answer) => match parse_prompt_arg(tc.arguments.as_str()) {
            Some(p) => Ok(ToolDecision::AnswerTool { prompt: p }),
            None => Err(TurnError::Parse("invalid tool arguments".to_owned())),
        },
        None => Err(TurnError::Protocol("no proper tool found".to_owned())),
    }
}

/// The tool router: a pure decision over one completion choice.
pub fn route(choice: &ChatChoice) -> (r: Result<ToolDecision, TurnError>)
    ensures
        res_view(r) == spec_route(choice@),
{
    match choice.finish {
        FinishKind::Stop => match &choice.content {
            Some(t) => Ok(ToolDecision::Direct { content: t.clone() }),
            None => Err(TurnError::Protocol("expect content but no content available".to_owned())),
        },
        FinishKind::ToolCalls => {
            if choice.tool_calls.len() == 0 {
                Err(TurnError::Protocol("expect at least one tool call".to_owned()))
            } else {
                let tc = &choice.tool_calls[0];
                assert(tc@ == choice@.tool_calls[0]);
                route_tool(tc)
            }
        },
        FinishKind::Other => Err(TurnError::Protocol("stop reason not supported".to_owned())),
    }
}

/// The choice a tool-aware response is routed from: the last one in the
/// list; an empty list is the protocol error "expect at least one chioce",
/// the exact text this path's subscribers see in the `Error` signal.
pub open spec fn spec_take_last(choices: Seq<ChoiceV>) -> Result<ChoiceV, TurnErrorV> {
    if choices.len() == 0 {
        Err(TurnErrorV::Protocol("expect at least one chioce"@))
    } else {
        Ok(choices.last())
    }
}

pub fn take_last_choice(choices: &mut Vec<ChatChoice>) -> (r: Result<ChatChoice, TurnError>)
    ensures
        res_view(r) == spec_take_last(old(choices)@.map_values(|c: ChatChoice| c@)),
{
    match choices.pop() {
        Some(c) => {
            assert(c@ == old(choices)@.map_values(|c: ChatChoice| c@).last());
            Ok(c)
        },
        None => Err(TurnError::Protocol("expect at least one chioce".to_owned())),
    }
}

/// The final text of a plain completion response: the content of the last
/// choice. An empty list is the protocol error "expect at least the choice"
/// — this path's own message, distinct from the tool path's — and absent
/// content is a protocol error too.
pub open spec fn spec_completion_content(choices: Seq<ChoiceV>) -> Result<Seq<char>, TurnErrorV> {
    if choices.len() == 0 {
        Err(TurnErrorV::Protocol("expect at least the choice"@))
    } else {
        match choices.last().content {
            Some(t) => Ok(t),
            None => Err(TurnErrorV::Protocol("expect content but no content available"@)),
        }
    }
}

pub fn completion_content(choices: &mut Vec<ChatChoice>) -> (r: Result<String, TurnError>)
    ensures
        res_view(r) == spec_completion_content(old(choices)@.map_values(|c: ChatChoice| c@)),
{
    match choices.pop() {
        Some(c) => {
            assert(c@ == old(choices)@.map_values(|c: ChatChoice| c@).last());
            match c.content {
                Some(t) => Ok(t),
                None => Err(
                    TurnError::Protocol("expect content but no content available".to_owned()),
                ),
            }
        },
        None => Err(TurnError::Protocol("expect at least the choice".to_owned())),
    }
}

} // verus!
