use vstd::prelude::*;

use crate::errors::{error_message, TurnError, TurnErrorV};
use crate::events::{
    complete, error, in_audio_upload, in_chat_completion, in_draw_image, in_speech, in_thinking,
    in_transcription, in_write_code, spec_event_turn_id, AssistantEvent, AssistantStep,
    ChatInputEvent, ChatInputSkeletonEvent, ChatReplyData, ChatReplyEvent, ChatReplySkeletonEvent,
    DrawImageResult, EventV, ReplyDataV, SignalV, SpeechResult, WriteCodeResult,
};
use crate::router::{
    prompt_arg_of, res_view, route, spec_route, spec_take_last, take_last_choice,
    completion_content, spec_completion_content, spec_tool_from_name, AssistantTool, ChatChoice,
    ChoiceV, FinishKind, ToolCallV, ToolDecision, ToolDecisionV,
};

verus! {

/// A freshly drawn identifier for a turn.
///
/// Relies on uuid's `Uuid::new_v4` and its hyphenated rendering: 36
/// characters. The value is random, so nothing more is stated of it.
#[verifier::external_body]
fn fresh_id() -> (r: String)
    ensures
        r@.len() == 36,
{
    uuid::Uuid::new_v4().to_string()
}

/// The bytes that a base64 text decodes to, if it is well-formed under the
/// standard alphabet.
pub uninterp spec fn b64_of(s: Seq<char>) -> Option<Seq<u8>>;

/// Relies on base64's standard-alphabet engine `decode`: decodes base64 text
/// to bytes. Success and the bytes depend on the text alone.
#[verifier::external_body]
fn b64_decode(s: &str) -> (r: Option<Vec<u8>>)
    ensures
        r is Some <==> b64_of(s@) is Some,
        r is Some ==> r->0@ == b64_of(s@)->0,
{
    base64::Engine::decode(&base64::engine::general_purpose::STANDARD, s).ok()
}

/// The HTML that a markdown text renders to.
pub uninterp spec fn html_of(md: Seq<char>) -> Seq<char>;

/// Relies on comrak's `markdown_to_html` with default options: renders
/// markdown to HTML. The result depends on the markdown text alone.
#[verifier::external_body]
fn markdown_html(md: &str) -> (r: String)
    ensures
        r@ == html_of(md@),
{
    comrak::markdown_to_html(md, &comrak::Options::default())
}

/// One image of an image-generation response, reduced to what the pipeline
/// reads: the base64 payload, if the provider sent one, and the revised
/// prompt.
#[derive(Debug, Clone, PartialEq)]
pub struct ImageItem {
    pub b64_json: Option<String>,
    pub revised_prompt: String,
}

#[verifier::ext_equal]
pub ghost struct ImageItemV {
    pub b64_json: Option<Seq<char>>,
    pub revised_prompt: Seq<char>,
}

impl View for ImageItem {
    type V = ImageItemV;

    open spec fn view(&self) -> ImageItemV {
        ImageItemV {
            b64_json: match self.b64_json {
                Some(ref s) => Some(s@),
                None => None,
            },
            revised_prompt: self.revised_prompt@,
        }
    }
}

/// The state a turn is in: which capability call it is waiting for, or the
/// terminal success and failure states.
#[derive(Debug, Clone, PartialEq)]
pub enum TurnPhase {
    Start,
    AwaitingAudio,
    Transcribing,
    Routing,
    Answering,
    WritingCode,
    DrawingImage { prompt: String },
    StoringImage { revised_prompt: String },
    Synthesizing { text: String },
    Done,
    Failed,
}

#[verifier::ext_equal]
pub ghost enum PhaseV {
    Start,
    AwaitingAudio,
    Transcribing,
    Routing,
    Answering,
    WritingCode,
    DrawingImage { prompt: Seq<char> },
    StoringImage { revised_prompt: Seq<char> },
    Synthesizing { text: Seq<char> },
    Done,
    Failed,
}

impl View for TurnPhase {
    type V = PhaseV;

    open spec fn view(&self) -> PhaseV {
        match self {
            TurnPhase::Start => PhaseV::Start,
            TurnPhase::AwaitingAudio => PhaseV::AwaitingAudio,
            TurnPhase::Transcribing => PhaseV::Transcribing,
            TurnPhase::Routing => PhaseV::Routing,
            TurnPhase::Answering => PhaseV::Answering,
            TurnPhase::WritingCode => PhaseV::WritingCode,
            TurnPhase::DrawingImage { prompt } => PhaseV::DrawingImage { prompt: prompt@ },
            TurnPhase::StoringImage { revised_prompt } => PhaseV::StoringImage {
                revised_prompt: revised_prompt@,
            },
            TurnPhase::Synthesizing { text } => PhaseV::Synthesizing { text: text@ },
            TurnPhase::Done => PhaseV::Done,
            TurnPhase::Failed => PhaseV::Failed,
        }
    }
}

/// What the surrounding runtime hands back to the machine: the result of the
/// capability call or artifact write that the last action asked for.
#[derive(Debug, PartialEq)]
#[allow(inconsistent_fields)]
pub enum TurnOutcome {
    /// The turn request arrived; nothing has been done yet.
    Begin,
    /// The multipart field that was read, by name; `None` when none came.
    AudioRead { field_name: Option<String> },
    /// What the transcription capability returned.
    Transcribed { result: Result<String, TurnError> },
    /// The choices of the tool-aware completion.
    Routed { result: Result<Vec<ChatChoice>, TurnError> },
    /// The choices of the plain completion, on the answering path and on
    /// the coding path alike; the phase says which one is pending.
    Completed { result: Result<Vec<ChatChoice>, TurnError> },
    /// The images of the image-generation response.
    ImageGenerated { result: Result<Vec<ImageItem>, TurnError> },
    /// The URL under which the image artifact was stored.
    ImageStored { result: Result<String, TurnError> },
    /// The URL under which the synthesized speech artifact was stored.
    SpeechStored { result: Result<String, TurnError> },
}

/// The sequence of choices a completion response carries, as views.
pub open spec fn choices_view(v: Seq<ChatChoice>) -> Seq<ChoiceV> {
    v.map_values(|c: ChatChoice| c@)
}

/// The sequence of images an image-generation response carries, as views.
pub open spec fn items_view(v: Seq<ImageItem>) -> Seq<ImageItemV> {
    v.map_values(|i: ImageItem| i@)
}

#[verifier::ext_equal]
#[allow(inconsistent_fields)]
pub ghost enum OutcomeV {
    Begin,
    AudioRead { field_name: Option<Seq<char>> },
    Transcribed { result: Result<Seq<char>, TurnErrorV> },
    Routed { result: Result<Seq<ChoiceV>, TurnErrorV> },
    Completed { result: Result<Seq<ChoiceV>, TurnErrorV> },
    ImageGenerated { result: Result<Seq<ImageItemV>, TurnErrorV> },
    ImageStored { result: Result<Seq<char>, TurnErrorV> },
    SpeechStored { result: Result<Seq<char>, TurnErrorV> },
}

impl View for TurnOutcome {
    type V = OutcomeV;

    open spec fn view(&self) -> OutcomeV {
        match self {
            TurnOutcome::Begin => OutcomeV::Begin,
            TurnOutcome::AudioRead { field_name } => OutcomeV::AudioRead {
                field_name: match field_name {
                    Some(n) => Some(n@),
                    None => None,
                },
            },
            TurnOutcome::Transcribed { result } => OutcomeV::Transcribed {
                result: res_view(*result),
            },
            TurnOutcome::Routed { result } => OutcomeV::Routed {
                result: match result {
                    Ok(v) => Ok(choices_view(v@)),
                    Err(e) => Err(e@),
                },
            },
            TurnOutcome::Completed { result } => OutcomeV::Completed {
                result: match result {
                    Ok(v) => Ok(choices_view(v@)),
                    Err(e) => Err(e@),
                },
            },
            TurnOutcome::ImageGenerated { result } => OutcomeV::ImageGenerated {
                result: match result {
                    Ok(v) => Ok(items_view(v@)),
                    Err(e) => Err(e@),
                },
            },
            TurnOutcome::ImageStored { result } => OutcomeV::ImageStored {
                result: res_view(*result),
            },
            TurnOutcome::SpeechStored { result } => OutcomeV::SpeechStored {
                result: res_view(*result),
            },
        }
    }
}

/// What the machine asks the surrounding runtime to do next. The capability
/// calls and artifact writes behind these are asynchronous collaborators;
/// the machine only decides and sequences them.
#[derive(Debug, Clone, PartialEq)]
pub enum TurnAction {
    /// Read the one multipart field of the request.
    ReadAudio,
    /// Transcribe the uploaded audio, with this language hint.
    Transcribe { prompt: String },
    /// Ask the tool-aware completion about this input.
    CompleteWithTools { system: String, input: String },
    /// Ask the plain completion with this system prompt and input.
    CompletePlain { system: String, input: String },
    /// Generate an image for this prompt.
    GenerateImage { prompt: String },
    /// Store these image bytes as the turn's image artifact.
    StoreImage { bytes: Vec<u8> },
    /// Synthesize speech for this text and store the audio artifact.
    SynthesizeAndStore { text: String },
    /// The turn ended successfully; nothing remains.
    Finish,
    /// The turn failed; nothing remains.
    Abort,
}

#[verifier::ext_equal]
pub ghost enum ActionV {
    ReadAudio,
    Transcribe { prompt: Seq<char> },
    CompleteWithTools { system: Seq<char>, input: Seq<char> },
    CompletePlain { system: Seq<char>, input: Seq<char> },
    GenerateImage { prompt: Seq<char> },
    StoreImage { bytes: Seq<u8> },
    SynthesizeAndStore { text: Seq<char> },
    Finish,
    Abort,
}

impl View for TurnAction {
    type V = ActionV;

    open spec fn view(&self) -> ActionV {
        match self {
            TurnAction::ReadAudio => ActionV::ReadAudio,
            TurnAction::Transcribe { prompt } => ActionV::Transcribe { prompt: prompt@ },
            TurnAction::CompleteWithTools { system, input } => ActionV::CompleteWithTools {
                system: system@,
                input: input@,
            },
            TurnAction::CompletePlain { system, input } => ActionV::CompletePlain {
                system: system@,
                input: input@,
            },
            TurnAction::GenerateImage { prompt } => ActionV::GenerateImage { prompt: prompt@ },
            TurnAction::StoreImage { bytes } => ActionV::StoreImage { bytes: bytes@ },
            TurnAction::SynthesizeAndStore { text } => ActionV::SynthesizeAndStore { text: text@ },
            TurnAction::Finish => ActionV::Finish,
            TurnAction::Abort => ActionV::Abort,
        }
    }
}

/// A turn as the specification sees it: its id and its phase.
#[verifier::ext_equal]
pub ghost struct MachineV {
    pub turn_id: Seq<char>,
    pub phase: PhaseV,
}

/// What one step yields: the next phase, the events published during the
/// step, in order, and the action the runtime is asked to perform next.
#[verifier::ext_equal]
pub ghost struct StepResult {
    pub phase: PhaseV,
    pub events: Seq<EventV>,
    pub action: ActionV,
}

/// Failure of a turn: exactly one `Error` signal carrying the error's
/// message, and the turn aborts.
pub open spec fn spec_fail(e: TurnErrorV) -> StepResult {
    StepResult {
        phase: PhaseV::Failed,
        events: seq![EventV::Signal(SignalV::Error(error_message(e)))],
        action: ActionV::Abort,
    }
}

/// The transition out of the routing decision, given the routed choice.
pub open spec fn spec_step_routed(m: MachineV, decision: Result<ToolDecisionV, TurnErrorV>) -> StepResult {
    match decision {
        Ok(ToolDecisionV::Direct { content }) => StepResult {
            phase: PhaseV::Synthesizing { text: content },
            events: seq![
                EventV::Signal(SignalV::Processing(AssistantStep::Speech)),
                EventV::Reply { id: m.turn_id, data: ReplyDataV::Speech { text: content, url: ""@ } },
            ],
            action: ActionV::SynthesizeAndStore { text: content },
        },
        Ok(ToolDecisionV::DrawImage { prompt }) => StepResult {
            phase: PhaseV::DrawingImage { prompt },
            events: seq![
                EventV::Signal(SignalV::Processing(AssistantStep::DrawImage)),
                EventV::Reply { id: m.turn_id, data: ReplyDataV::Image { url: ""@, prompt } },
            ],
            action: ActionV::GenerateImage { prompt },
        },
        Ok(ToolDecisionV::WriteCode { prompt }) => StepResult {
            phase: PhaseV::WritingCode,
            events: seq![EventV::Signal(SignalV::Processing(AssistantStep::WriteCode))],
            action: ActionV::CompletePlain {
                system: "I'm an expert on coding, I'll write code for you in markdown format based on your prompt"@,
                input: prompt,
            },
        },
        Ok(ToolDecisionV::AnswerTool { prompt }) => StepResult {
            phase: PhaseV::Answering,
            events: seq![EventV::Signal(SignalV::Processing(AssistantStep::ChatCompletion))],
            action: ActionV::CompletePlain {
                system: "I can help answer anything you'd like to chat"@,
                input: prompt,
            },
        },
        Err(e) => spec_fail(e),
    }
}

/// The transition out of image generation, given the response's images.
pub open spec fn spec_step_image(items: Seq<ImageItemV>) -> StepResult {
    if items.len() == 0 {
        spec_fail(TurnErrorV::Protocol("expect at least one data"@))
    } else {
        match items.last().b64_json {
            None => spec_fail(TurnErrorV::Protocol("expect image data but none available"@)),
            Some(b64) => match b64_of(b64) {
                Some(bytes) => StepResult {
                    phase: PhaseV::StoringImage { revised_prompt: items.last().revised_prompt },
                    events: seq![],
                    action: ActionV::StoreImage { bytes },
                },
                None => spec_fail(TurnErrorV::Parse("invalid image payload"@)),
            },
        }
    }
}

/// The full transition relation of one turn. An outcome that does not answer
/// the phase's pending action abandons the turn without publishing anything.
pub open spec fn spec_step(m: MachineV, o: OutcomeV) -> StepResult {
    match (m.phase, o) {
        (PhaseV::Start, OutcomeV::Begin) => StepResult {
            phase: PhaseV::AwaitingAudio,
            events: seq![EventV::Signal(SignalV::Processing(AssistantStep::UploadAudio))],
            action: ActionV::ReadAudio,
        },
        (PhaseV::AwaitingAudio, OutcomeV::AudioRead { field_name }) => match field_name {
            Some(n) => if n == "audio"@ {
                StepResult {
                    phase: PhaseV::Transcribing,
                    events: seq![
                        EventV::Signal(SignalV::Processing(AssistantStep::Transcription)),
                        EventV::InputSkeleton { id: m.turn_id },
                    ],
                    action: ActionV::Transcribe {
                        prompt: "If audio language is Chinese, please use Simplified Chinese"@,
                    },
                }
            } else {
                spec_fail(TurnErrorV::Parse("expected an audio field"@))
            },
            None => spec_fail(TurnErrorV::Parse("expected an audio field"@)),
        },
        (PhaseV::Transcribing, OutcomeV::Transcribed { result }) => match result {
            Ok(text) => StepResult {
                phase: PhaseV::Routing,
                events: seq![
                    EventV::Input { id: m.turn_id, content: text },
                    EventV::Signal(SignalV::Processing(AssistantStep::Thinking)),
                    EventV::ReplySkeleton { id: m.turn_id },
                ],
                action: ActionV::CompleteWithTools {
                    system: "I can help to identify which tool to use, if no proper tool could be used, I'll directly reply the message with pure text"@,
                    input: text,
                },
            },
            Err(e) => spec_fail(e),
        },
        (PhaseV::Routing, OutcomeV::Routed { result }) => match result {
            Ok(choices) => match spec_take_last(choices) {
                Ok(c) => spec_step_routed(m, spec_route(c)),
                Err(e) => spec_fail(e),
            },
            Err(e) => spec_fail(e),
        },
        // unlike the direct path, which signals Speech before its optimistic
        // reply, the answering path publishes the optimistic reply as soon as
        // the completion returns; the Speech signal follows on entry into
        // synthesis
        (PhaseV::Answering, OutcomeV::Completed { result }) => match result {
            Ok(choices) => match spec_completion_content(choices) {
                Ok(text) => StepResult {
                    phase: PhaseV::Synthesizing { text },
                    events: seq![
                        EventV::Reply {
                            id: m.turn_id,
                            data: ReplyDataV::Speech { text, url: ""@ },
                        },
                        EventV::Signal(SignalV::Processing(AssistantStep::Speech)),
                    ],
                    action: ActionV::SynthesizeAndStore { text },
                },
                Err(e) => spec_fail(e),
            },
            Err(e) => spec_fail(e),
        },
        (PhaseV::WritingCode, OutcomeV::Completed { result }) => match result {
            Ok(choices) => match spec_completion_content(choices) {
                Ok(md) => StepResult {
                    phase: PhaseV::Done,
                    events: seq![
                        EventV::Reply {
                            id: m.turn_id,
                            data: ReplyDataV::Markdown { content: html_of(md) },
                        },
                        EventV::Signal(SignalV::Complete),
                    ],
                    action: ActionV::Finish,
                },
                Err(e) => spec_fail(e),
            },
            Err(e) => spec_fail(e),
        },
        (PhaseV::DrawingImage { .. }, OutcomeV::ImageGenerated { result }) => match result {
            Ok(items) => spec_step_image(items),
            Err(e) => spec_fail(e),
        },
        (PhaseV::StoringImage { revised_prompt }, OutcomeV::ImageStored { result }) => match result {
            Ok(url) => StepResult {
                phase: PhaseV::Done,
                events: seq![
                    EventV::Reply {
                        id: m.turn_id,
                        data: ReplyDataV::Image { url, prompt: revised_prompt },
                    },
                    EventV::Signal(SignalV::Complete),
                ],
                action: ActionV::Finish,
            },
            Err(e) => spec_fail(e),
        },
        (PhaseV::Synthesizing { text }, OutcomeV::SpeechStored { result }) => match result {
            Ok(url) => StepResult {
                phase: PhaseV::Done,
                events: seq![
                    EventV::Reply { id: m.turn_id, data: ReplyDataV::Speech { text, url } },
                    EventV::Signal(SignalV::Complete),
                ],
                action: ActionV::Finish,
            },
            Err(e) => spec_fail(e),
        },
        (PhaseV::Done, _) => StepResult { phase: PhaseV::Done, events: seq![], action: ActionV::Finish },
        (PhaseV::Failed, _) => StepResult {
            phase: PhaseV::Failed,
            events: seq![],
            action: ActionV::Abort,
        },
        _ => StepResult { phase: PhaseV::Failed, events: seq![], action: ActionV::Abort },
    }
}

/// The views of a list of published events.
pub open spec fn events_view(v: Seq<AssistantEvent>) -> Seq<EventV> {
    v.map_values(|e: AssistantEvent| e@)
}

fn fail_turn(e: TurnError) -> (r: (TurnPhase, Vec<AssistantEvent>, TurnAction))
    ensures
        r.0@ == PhaseV::Failed,
        events_view(r.1@) == spec_fail(e@).events,
        r.2@ == ActionV::Abort,
{
    let msg = e.message().to_owned();
    let evs = vec![error(msg)];
    proof {
        assert(events_view(evs@) =~= spec_fail(e@).events);
    }
    (TurnPhase::Failed, evs, TurnAction::Abort)
}

/// One transition of the turn machine, as executable code.
fn transition(turn_id: &String, phase: TurnPhase, outcome: TurnOutcome) -> (r: (
    TurnPhase,
    Vec<AssistantEvent>,
    TurnAction,
))
    ensures
        ({
            let sr = spec_step(MachineV { turn_id: turn_id@, phase: phase@ }, outcome@);
            &&& r.0@ == sr.phase
            &&& events_view(r.1@) == sr.events
            &&& r.2@ == sr.action
        }),
{
    let ghost m = MachineV { turn_id: turn_id@, phase: phase@ };
    match (phase, outcome) {
        (TurnPhase::Start, TurnOutcome::Begin) => {
            let evs = vec![in_audio_upload()];
            proof {
                assert(events_view(evs@) =~= spec_step(m, OutcomeV::Begin).events);
            }
            (TurnPhase::AwaitingAudio, evs, TurnAction::ReadAudio)
        },
        (TurnPhase::AwaitingAudio, TurnOutcome::AudioRead { field_name }) => match field_name {
            Some(n) => {
                if n == "audio".to_owned() {
                    let evs = vec![
                        in_transcription(),
                        AssistantEvent::InputSkeleton(ChatInputSkeletonEvent::new(turn_id.clone())),
                    ];
                    proof {
                        assert(events_view(evs@) =~= spec_step(m, outcome@).events);
                    }
                    (
                        TurnPhase::Transcribing,
                        evs,
                        TurnAction::Transcribe {
                            prompt: "If audio language is Chinese, please use Simplified Chinese".to_owned(),
                        },
                    )
                } else {
                    fail_turn(TurnError::Parse("expected an audio field".to_owned()))
                }
            },
            None => fail_turn(TurnError::Parse("expected an audio field".to_owned())),
        },
        (TurnPhase::Transcribing, TurnOutcome::Transcribed { result }) => match result {
            Ok(text) => {
                let evs = vec![
                    AssistantEvent::Input(ChatInputEvent::new(turn_id.clone(), text.clone())),
                    in_thinking(),
                    AssistantEvent::ReplySkeleton(ChatReplySkeletonEvent::new(turn_id.clone())),
                ];
                proof {
                    assert(events_view(evs@) =~= spec_step(m, outcome@).events);
                }
                (
                    TurnPhase::Routing,
                    evs,
                    TurnAction::CompleteWithTools {
                        system: "I can help to identify which tool to use, if no proper tool could be used, I'll directly reply the message with pure text".to_owned(),
                        input: text,
                    },
                )
            },
            Err(e) => fail_turn(e),
        },
        (TurnPhase::Routing, TurnOutcome::Routed { result }) => match result {
            Ok(choices) => {
                let mut choices = choices;
                match take_last_choice(&mut choices) {
                    Ok(choice) => match route(&choice) {
                        Ok(ToolDecision::Direct { content }) => {
                            let evs = vec![
                                in_speech(),
                                AssistantEvent::Reply(ChatReplyEvent::new(
                                    turn_id.clone(),
                                    ChatReplyData::Speech(SpeechResult::new_text_only(content.clone())),
                                )),
                            ];
                            proof {
                                assert(events_view(evs@) =~= spec_step(m, outcome@).events);
                            }
                            (
                                TurnPhase::Synthesizing { text: content.clone() },
                                evs,
                                TurnAction::SynthesizeAndStore { text: content },
                            )
                        },
                        Ok(ToolDecision::DrawImage { prompt }) => {
                            let evs = vec![
                                in_draw_image(),
                                AssistantEvent::Reply(ChatReplyEvent::new(
                                    turn_id.clone(),
                                    ChatReplyData::Image(DrawImageResult::new(
                                        "".to_owned(),
                                        prompt.clone(),
                                    )),
                                )),
                            ];
                            proof {
                                assert(events_view(evs@) =~= spec_step(m, outcome@).events);
                            }
                            (
                                TurnPhase::DrawingImage { prompt: prompt.clone() },
                                evs,
                                TurnAction::GenerateImage { prompt },
                            )
                        },
                        Ok(ToolDecision::WriteCode { prompt }) => {
                            let evs = vec![in_write_code()];
                            proof {
                                assert(events_view(evs@) =~= spec_step(m, outcome@).events);
                            }
                            (
                                TurnPhase::WritingCode,
                                evs,
                                TurnAction::CompletePlain {
                                    system: "I'm an expert on coding, I'll write code for you in markdown format based on your prompt".to_owned(),
                                    input: prompt,
                                },
                            )
                        },
                        Ok(ToolDecision::AnswerTool { prompt }) => {
                            let evs = vec![in_chat_completion()];
                            proof {
                                assert(events_view(evs@) =~= spec_step(m, outcome@).events);
                            }
                            (
                                TurnPhase::Answering,
                                evs,
                                TurnAction::CompletePlain {
                                    system: "I can help answer anything you'd like to chat".to_owned(),
                                    input: prompt,
                                },
                            )
                        },
                        Err(e) => fail_turn(e),
                    },
                    Err(e) => fail_turn(e),
                }
            },
            Err(e) => fail_turn(e),
        },
        (TurnPhase::Answering, TurnOutcome::Completed { result }) => match result {
            Ok(choices) => {
                let mut choices = choices;
                match completion_content(&mut choices) {
                    Ok(text) => {
                        let evs = vec![
                            AssistantEvent::Reply(ChatReplyEvent::new(
                                turn_id.clone(),
                                ChatReplyData::Speech(SpeechResult::new_text_only(text.clone())),
                            )),
                            in_speech(),
                        ];
                        proof {
                            assert(events_view(evs@) =~= spec_step(m, outcome@).events);
                        }
                        (
                            TurnPhase::Synthesizing { text: text.clone() },
                            evs,
                            TurnAction::SynthesizeAndStore { text },
                        )
                    },
                    Err(e) => fail_turn(e),
                }
            },
            Err(e) => fail_turn(e),
        },
        (TurnPhase::WritingCode, TurnOutcome::Completed { result }) => match result {
            Ok(choices) => {
                let mut choices = choices;
                match completion_content(&mut choices) {
                    Ok(md) => {
                        let html = markdown_html(md.as_str());
                        let evs = vec![
                            AssistantEvent::Reply(ChatReplyEvent::new(
                                turn_id.clone(),
                                ChatReplyData::Markdown(WriteCodeResult::new(html)),
                            )),
                            complete(),
                        ];
                        proof {
                            assert(events_view(evs@) =~= spec_step(m, outcome@).events);
                        }
                        (TurnPhase::Done, evs, TurnAction::Finish)
                    },
                    Err(e) => fail_turn(e),
                }
            },
            Err(e) => fail_turn(e),
        },
        (TurnPhase::DrawingImage { .. }, TurnOutcome::ImageGenerated { result }) => match result {
            Ok(items) => {
                let mut items = items;
                match items.pop() {
                    None => fail_turn(TurnError::Protocol("expect at least one data".to_owned())),
                    Some(item) => match item.b64_json {
                        None => fail_turn(
                            TurnError::Protocol("expect image data but none available".to_owned()),
                        ),
                        Some(b64) => match b64_decode(b64.as_str()) {
                            Some(bytes) => {
                                let evs: Vec<AssistantEvent> = vec![];
                                proof {
                                    assert(events_view(evs@) =~= spec_step(m, outcome@).events);
                                }
                                (
                                    TurnPhase::StoringImage {
                                        revised_prompt: item.revised_prompt,
                                    },
                                    evs,
                                    TurnAction::StoreImage { bytes },
                                )
                            },
                            None => fail_turn(TurnError::Parse("invalid image payload".to_owned())),
                        },
                    },
                }
            },
            Err(e) => fail_turn(e),
        },
        (TurnPhase::StoringImage { revised_prompt }, TurnOutcome::ImageStored { result }) => match result {
            Ok(url) => {
                let evs = vec![
                    AssistantEvent::Reply(ChatReplyEvent::new(
                        turn_id.clone(),
                        ChatReplyData::Image(DrawImageResult::new(url, revised_prompt)),
                    )),
                    complete(),
                ];
                proof {
                    assert(events_view(evs@) =~= spec_step(m, outcome@).events);
                }
                (TurnPhase::Done, evs, TurnAction::Finish)
            },
            Err(e) => fail_turn(e),
        },
        (TurnPhase::Synthesizing { text }, TurnOutcome::SpeechStored { result }) => match result {
            Ok(url) => {
                let evs = vec![
                    AssistantEvent::Reply(ChatReplyEvent::new(
                        turn_id.clone(),
                        ChatReplyData::Speech(SpeechResult::new(text, url)),
                    )),
                    complete(),
                ];
                proof {
                    assert(events_view(evs@) =~= spec_step(m, outcome@).events);
                }
                (TurnPhase::Done, evs, TurnAction::Finish)
            },
            Err(e) => fail_turn(e),
        },
        (TurnPhase::Done, _) => {
            let evs: Vec<AssistantEvent> = vec![];
            proof {
                assert(events_view(evs@) =~= Seq::<EventV>::empty());
            }
            (TurnPhase::Done, evs, TurnAction::Finish)
        },
        (TurnPhase::Failed, _) => {
            let evs: Vec<AssistantEvent> = vec![];
            proof {
                assert(events_view(evs@) =~= Seq::<EventV>::empty());
            }
            (TurnPhase::Failed, evs, TurnAction::Abort)
        },
        (_, _) => {
            let evs: Vec<AssistantEvent> = vec![];
            proof {
                assert(events_view(evs@) =~= Seq::<EventV>::empty());
            }
            (TurnPhase::Failed, evs, TurnAction::Abort)
        },
    }
}

/// The state machine that drives one turn. The surrounding runtime performs
/// each returned action, publishes each returned event in order, and hands
/// the action's outcome back to `step`.
pub struct TurnMachine {
    turn_id: String,
    phase: TurnPhase,
}

impl View for TurnMachine {
    type V = MachineV;

    closed spec fn view(&self) -> MachineV {
        MachineV { turn_id: self.turn_id@, phase: self.phase@ }
    }
}

impl TurnMachine {
    /// A new turn with a freshly drawn id, ready to begin.
    pub fn new() -> (m: TurnMachine)
        ensures
            m@.phase == PhaseV::Start,
            m@.turn_id.len() == 36,
    {
        TurnMachine { turn_id: fresh_id(), phase: TurnPhase::Start }
    }

    /// A new turn under a caller-chosen id.
    pub fn new_with_id(turn_id: String) -> (m: TurnMachine)
        ensures
            m@.phase == PhaseV::Start,
            m@.turn_id == turn_id@,
    {
        TurnMachine { turn_id, phase: TurnPhase::Start }
    }

    /// The id that every turn-scoped event of this machine carries.
    pub fn turn_id(&self) -> (r: &str)
        ensures
            r@ == self@.turn_id,
    {
        self.turn_id.as_str()
    }

    /// Feed the machine the outcome of the last action; collect the events
    /// to publish, in order, and the next action to perform.
    pub fn step(&mut self, outcome: TurnOutcome) -> (r: (Vec<AssistantEvent>, TurnAction))
        ensures
            ({
                let sr = spec_step(old(self)@, outcome@);
                &&& final(self)@.turn_id == old(self)@.turn_id
                &&& final(self)@.phase == sr.phase
                &&& events_view(r.0@) == sr.events
                &&& r.1@ == sr.action
            }),
    {
        let mut ph = TurnPhase::Failed;
        core::mem::swap(&mut ph, &mut self.phase);
        let (next, events, action) = transition(&self.turn_id, ph, outcome);
        self.phase = next;
        (events, action)
    }
}

/// A whole run of the machine over a sequence of outcomes: the machine it
/// ends as, and everything it published on the way, in order.
pub open spec fn spec_run(m: MachineV, outs: Seq<OutcomeV>) -> (MachineV, Seq<EventV>)
    decreases outs.len(),
{
    if outs.len() == 0 {
        (m, seq![])
    } else {
        let sr = spec_step(m, outs[0]);
        let m2 = MachineV { turn_id: m.turn_id, phase: sr.phase };
        let rest = spec_run(m2, outs.drop_first());
        (rest.0, sr.events + rest.1)
    }
}

/// Law: a direct-answer turn — one whose tool-aware completion stops with
/// content and requests no tool — publishes exactly this ordered sequence:
/// `Processing(UploadAudio)`, `Processing(Transcription)`, the input
/// skeleton, the input, `Processing(Thinking)`, the reply skeleton,
/// `Processing(Speech)`, the optimistic reply with an empty URL, the final
/// reply with the stored URL, and `Complete`.
pub proof fn lemma_direct_answer_sequence(
    tid: Seq<char>,
    text: Seq<char>,
    content: Seq<char>,
    url: Seq<char>,
)
    ensures
        ({
            let start = MachineV { turn_id: tid, phase: PhaseV::Start };
            let outs = seq![
                OutcomeV::Begin,
                OutcomeV::AudioRead { field_name: Some("audio"@) },
                OutcomeV::Transcribed { result: Ok(text) },
                OutcomeV::Routed {
                    result: Ok(
                        seq![
                            ChoiceV {
                                finish: FinishKind::Stop,
                                content: Some(content),
                                tool_calls: seq![],
                            },
                        ],
                    ),
                },
                OutcomeV::SpeechStored { result: Ok(url) },
            ];
            &&& spec_run(start, outs).1 == seq![
                EventV::Signal(SignalV::Processing(AssistantStep::UploadAudio)),
                EventV::Signal(SignalV::Processing(AssistantStep::Transcription)),
                EventV::InputSkeleton { id: tid },
                EventV::Input { id: tid, content: text },
                EventV::Signal(SignalV::Processing(AssistantStep::Thinking)),
                EventV::ReplySkeleton { id: tid },
                EventV::Signal(SignalV::Processing(AssistantStep::Speech)),
                EventV::Reply { id: tid, data: ReplyDataV::Speech { text: content, url: ""@ } },
                EventV::Reply { id: tid, data: ReplyDataV::Speech { text: content, url } },
                EventV::Signal(SignalV::Complete),
            ]
            &&& spec_run(start, outs).0.phase == PhaseV::Done
        }),
{
    let start = MachineV { turn_id: tid, phase: PhaseV::Start };
    let outs = seq![
        OutcomeV::Begin,
        OutcomeV::AudioRead { field_name: Some("audio"@) },
        OutcomeV::Transcribed { result: Ok(text) },
        OutcomeV::Routed {
            result: Ok(
                seq![
                    ChoiceV { finish: FinishKind::Stop, content: Some(content), tool_calls: seq![] },
                ],
            ),
        },
        OutcomeV::SpeechStored { result: Ok(url) },
    ];
    reveal_with_fuel(spec_run, 6);
    assert(spec_run(start, outs).1 =~~= seq![
        EventV::Signal(SignalV::Processing(AssistantStep::UploadAudio)),
        EventV::Signal(SignalV::Processing(AssistantStep::Transcription)),
        EventV::InputSkeleton { id: tid },
        EventV::Input { id: tid, content: text },
        EventV::Signal(SignalV::Processing(AssistantStep::Thinking)),
        EventV::ReplySkeleton { id: tid },
        EventV::Signal(SignalV::Processing(AssistantStep::Speech)),
        EventV::Reply { id: tid, data: ReplyDataV::Speech { text: content, url: ""@ } },
        EventV::Reply { id: tid, data: ReplyDataV::Speech { text: content, url } },
        EventV::Signal(SignalV::Complete),
    ]);
}

/// Law: a turn routed to the Answer tool publishes `Processing(ChatCompletion)`
/// on entering the plain completion, then — once the completion returns — the
/// optimistic reply with an empty URL, then `Processing(Speech)` on entering
/// synthesis, then the final reply with the stored URL, then `Complete`.
/// Stated for argument texts whose "prompt" field parses.
pub proof fn lemma_answer_tool_sequence(
    tid: Seq<char>,
    text: Seq<char>,
    args: Seq<char>,
    answer: Seq<char>,
    url: Seq<char>,
)
    ensures
        ({
            let start = MachineV { turn_id: tid, phase: PhaseV::Start };
            let outs = seq![
                OutcomeV::Begin,
                OutcomeV::AudioRead { field_name: Some("audio"@) },
                OutcomeV::Transcribed { result: Ok(text) },
                OutcomeV::Routed {
                    result: Ok(
                        seq![
                            ChoiceV {
                                finish: FinishKind::ToolCalls,
                                content: None,
                                tool_calls: seq![ToolCallV { name: "answer"@, arguments: args }],
                            },
                        ],
                    ),
                },
                OutcomeV::Completed {
                    result: Ok(
                        seq![
                            ChoiceV {
                                finish: FinishKind::Stop,
                                content: Some(answer),
                                tool_calls: seq![],
                            },
                        ],
                    ),
                },
                OutcomeV::SpeechStored { result: Ok(url) },
            ];
            prompt_arg_of(args) is Some ==> {
                &&& spec_run(start, outs).1 == seq![
                    EventV::Signal(SignalV::Processing(AssistantStep::UploadAudio)),
                    EventV::Signal(SignalV::Processing(AssistantStep::Transcription)),
                    EventV::InputSkeleton { id: tid },
                    EventV::Input { id: tid, content: text },
                    EventV::Signal(SignalV::Processing(AssistantStep::Thinking)),
                    EventV::ReplySkeleton { id: tid },
                    EventV::Signal(SignalV::Processing(AssistantStep::ChatCompletion)),
                    EventV::Reply { id: tid, data: ReplyDataV::Speech { text: answer, url: ""@ } },
                    EventV::Signal(SignalV::Processing(AssistantStep::Speech)),
                    EventV::Reply { id: tid, data: ReplyDataV::Speech { text: answer, url } },
                    EventV::Signal(SignalV::Complete),
                ]
                &&& spec_run(start, outs).0.phase == PhaseV::Done
            }
        }),
{
    if prompt_arg_of(args) is Some {
        let start = MachineV { turn_id: tid, phase: PhaseV::Start };
        let outs = seq![
            OutcomeV::Begin,
            OutcomeV::AudioRead { field_name: Some("audio"@) },
            OutcomeV::Transcribed { result: Ok(text) },
            OutcomeV::Routed {
                result: Ok(
                    seq![
                        ChoiceV {
                            finish: FinishKind::ToolCalls,
                            content: None,
                            tool_calls: seq![ToolCallV { name: "answer"@, arguments: args }],
                        },
                    ],
                ),
            },
            OutcomeV::Completed {
                result: Ok(
                    seq![
                        ChoiceV {
                            finish: FinishKind::Stop,
                            content: Some(answer),
                            tool_calls: seq![],
                        },
                    ],
                ),
            },
            OutcomeV::SpeechStored { result: Ok(url) },
        ];
        broadcast use vstd::string::group_string_axioms;

        reveal_with_fuel(spec_run, 7);
        reveal_strlit("answer");
        reveal_strlit("draw_image");
        reveal_strlit("write_code");
        // the names differ already in length, so the router resolves "answer"
        assert("answer"@.len() == 6 && "draw_image"@.len() == 10 && "write_code"@.len() == 10);
        assert(spec_tool_from_name("answer"@) == Some(AssistantTool::Answer));
        assert(spec_run(start, outs).1 =~~= seq![
            EventV::Signal(SignalV::Processing(AssistantStep::UploadAudio)),
            EventV::Signal(SignalV::Processing(AssistantStep::Transcription)),
            EventV::InputSkeleton { id: tid },
            EventV::Input { id: tid, content: text },
            EventV::Signal(SignalV::Processing(AssistantStep::Thinking)),
            EventV::ReplySkeleton { id: tid },
            EventV::Signal(SignalV::Processing(AssistantStep::ChatCompletion)),
            EventV::Reply { id: tid, data: ReplyDataV::Speech { text: answer, url: ""@ } },
            EventV::Signal(SignalV::Processing(AssistantStep::Speech)),
            EventV::Reply { id: tid, data: ReplyDataV::Speech { text: answer, url } },
            EventV::Signal(SignalV::Complete),
        ]);
    }
}

/// Law: a turn routed to the image tool publishes `Processing(DrawImage)`,
/// an optimistic reply whose URL is empty and whose prompt is the tool's,
/// then — once the image is generated and stored — a reply with the stored
/// URL and the revised prompt, then `Complete`: two replies sharing the turn
/// id, the URL passing from empty to populated. Stated for argument texts
/// whose "prompt" field parses and whose image payload decodes.
pub proof fn lemma_draw_image_sequence(
    tid: Seq<char>,
    text: Seq<char>,
    args: Seq<char>,
    prompt: Seq<char>,
    b64: Seq<char>,
    revised: Seq<char>,
    url: Seq<char>,
)
    ensures
        ({
            let start = MachineV { turn_id: tid, phase: PhaseV::Start };
            let outs = seq![
                OutcomeV::Begin,
                OutcomeV::AudioRead { field_name: Some("audio"@) },
                OutcomeV::Transcribed { result: Ok(text) },
                OutcomeV::Routed {
                    result: Ok(
                        seq![
                            ChoiceV {
                                finish: FinishKind::ToolCalls,
                                content: None,
                                tool_calls: seq![
                                    ToolCallV { name: "draw_image"@, arguments: args },
                                ],
                            },
                        ],
                    ),
                },
                OutcomeV::ImageGenerated {
                    result: Ok(seq![ImageItemV { b64_json: Some(b64), revised_prompt: revised }]),
                },
                OutcomeV::ImageStored { result: Ok(url) },
            ];
            prompt_arg_of(args) == Some(prompt) && b64_of(b64) is Some ==> {
                &&& spec_run(start, outs).1 == seq![
                    EventV::Signal(SignalV::Processing(AssistantStep::UploadAudio)),
                    EventV::Signal(SignalV::Processing(AssistantStep::Transcription)),
                    EventV::InputSkeleton { id: tid },
                    EventV::Input { id: tid, content: text },
                    EventV::Signal(SignalV::Processing(AssistantStep::Thinking)),
                    EventV::ReplySkeleton { id: tid },
                    EventV::Signal(SignalV::Processing(AssistantStep::DrawImage)),
                    EventV::Reply { id: tid, data: ReplyDataV::Image { url: ""@, prompt } },
                    EventV::Reply { id: tid, data: ReplyDataV::Image { url, prompt: revised } },
                    EventV::Signal(SignalV::Complete),
                ]
                &&& spec_run(start, outs).0.phase == PhaseV::Done
            }
        }),
{
    if prompt_arg_of(args) == Some(prompt) && b64_of(b64) is Some {
        let start = MachineV { turn_id: tid, phase: PhaseV::Start };
        let outs = seq![
            OutcomeV::Begin,
            OutcomeV::AudioRead { field_name: Some("audio"@) },
            OutcomeV::Transcribed { result: Ok(text) },
            OutcomeV::Routed {
                result: Ok(
                    seq![
                        ChoiceV {
                            finish: FinishKind::ToolCalls,
                            content: None,
                            tool_calls: seq![ToolCallV { name: "draw_image"@, arguments: args }],
                        },
                    ],
                ),
            },
            OutcomeV::ImageGenerated {
                result: Ok(seq![ImageItemV { b64_json: Some(b64), revised_prompt: revised }]),
            },
            OutcomeV::ImageStored { result: Ok(url) },
        ];
        reveal_with_fuel(spec_run, 7);
        assert(spec_run(start, outs).1 =~~= seq![
            EventV::Signal(SignalV::Processing(AssistantStep::UploadAudio)),
            EventV::Signal(SignalV::Processing(AssistantStep::Transcription)),
            EventV::InputSkeleton { id: tid },
            EventV::Input { id: tid, content: text },
            EventV::Signal(SignalV::Processing(AssistantStep::Thinking)),
            EventV::ReplySkeleton { id: tid },
            EventV::Signal(SignalV::Processing(AssistantStep::DrawImage)),
            EventV::Reply { id: tid, data: ReplyDataV::Image { url: ""@, prompt } },
            EventV::Reply { id: tid, data: ReplyDataV::Image { url, prompt: revised } },
            EventV::Signal(SignalV::Complete),
        ]);
    }
}

/// Law: a turn whose transcription fails publishes the two opening progress
/// signals and the input skeleton, then exactly one `Error` signal carrying
/// the failure's message, and nothing after it: the turn is failed.
pub proof fn lemma_transcription_failure(tid: Seq<char>, e: TurnErrorV)
    ensures
        ({
            let start = MachineV { turn_id: tid, phase: PhaseV::Start };
            let outs = seq![
                OutcomeV::Begin,
                OutcomeV::AudioRead { field_name: Some("audio"@) },
                OutcomeV::Transcribed { result: Err(e) },
            ];
            &&& spec_run(start, outs).1 == seq![
                EventV::Signal(SignalV::Processing(AssistantStep::UploadAudio)),
                EventV::Signal(SignalV::Processing(AssistantStep::Transcription)),
                EventV::InputSkeleton { id: tid },
                EventV::Signal(SignalV::Error(error_message(e))),
            ]
            &&& spec_run(start, outs).0.phase == PhaseV::Failed
        }),
{
    let start = MachineV { turn_id: tid, phase: PhaseV::Start };
    let outs = seq![
        OutcomeV::Begin,
        OutcomeV::AudioRead { field_name: Some("audio"@) },
        OutcomeV::Transcribed { result: Err(e) },
    ];
    reveal_with_fuel(spec_run, 4);
    assert(spec_run(start, outs).1 =~~= seq![
        EventV::Signal(SignalV::Processing(AssistantStep::UploadAudio)),
        EventV::Signal(SignalV::Processing(AssistantStep::Transcription)),
        EventV::InputSkeleton { id: tid },
        EventV::Signal(SignalV::Error(error_message(e))),
    ]);
}

/// Law: a failed turn publishes nothing further and stays failed, whatever
/// outcomes are still fed to it.
pub proof fn lemma_failed_turn_is_silent(m: MachineV, outs: Seq<OutcomeV>)
    requires
        m.phase == PhaseV::Failed,
    ensures
        spec_run(m, outs).1 == Seq::<EventV>::empty(),
        spec_run(m, outs).0.phase == PhaseV::Failed,
    decreases outs.len(),
{
    if outs.len() == 0 {
        assert(spec_run(m, outs).1 =~~= Seq::<EventV>::empty());
    } else {
        let sr = spec_step(m, outs[0]);
        let m2 = MachineV { turn_id: m.turn_id, phase: sr.phase };
        lemma_failed_turn_is_silent(m2, outs.drop_first());
        assert(spec_run(m, outs).1 =~~= Seq::<EventV>::empty());
    }
}

/// Law: every turn-scoped event one step publishes carries the turn's own
/// id; signals carry none. No event mixes two turns' data.
pub proof fn lemma_step_events_tagged(m: MachineV, o: OutcomeV)
    ensures
        forall|i: int|
            0 <= i < spec_step(m, o).events.len() ==> (match spec_event_turn_id(
                #[trigger] spec_step(m, o).events[i],
            ) {
                Some(id) => id == m.turn_id,
                None => true,
            }),
{
}

/// Law: over a whole run, every turn-scoped event published carries the
/// turn's own id.
pub proof fn lemma_run_events_tagged(m: MachineV, outs: Seq<OutcomeV>)
    ensures
        forall|i: int|
            0 <= i < spec_run(m, outs).1.len() ==> (match spec_event_turn_id(
                #[trigger] spec_run(m, outs).1[i],
            ) {
                Some(id) => id == m.turn_id,
                None => true,
            }),
    decreases outs.len(),
{
    if outs.len() > 0 {
        let sr = spec_step(m, outs[0]);
        let m2 = MachineV { turn_id: m.turn_id, phase: sr.phase };
        lemma_step_events_tagged(m, outs[0]);
        lemma_run_events_tagged(m2, outs.drop_first());
        assert forall|i: int| 0 <= i < spec_run(m, outs).1.len() implies (match spec_event_turn_id(
            #[trigger] spec_run(m, outs).1[i],
        ) {
            Some(id) => id == m.turn_id,
            None => true,
        }) by {
            let rest = spec_run(m2, outs.drop_first());
            assert(spec_run(m, outs).1 == sr.events + rest.1);
            if i < sr.events.len() {
                assert(spec_run(m, outs).1[i] == sr.events[i]);
            } else {
                assert(spec_run(m, outs).1[i] == rest.1[i - sr.events.len()]);
            }
        }
    }
}

/// Whether a sequence of events contains the turn's input skeleton.
pub open spec fn has_input_skeleton(evs: Seq<EventV>, tid: Seq<char>) -> bool {
    exists|j: int| 0 <= j < evs.len() && evs[j] == (EventV::InputSkeleton { id: tid })
}

/// Whether a sequence of events contains the turn's reply skeleton.
pub open spec fn has_reply_skeleton(evs: Seq<EventV>, tid: Seq<char>) -> bool {
    exists|j: int| 0 <= j < evs.len() && evs[j] == (EventV::ReplySkeleton { id: tid })
}

/// Every content event stands strictly after its stage's skeleton event:
/// the input after the input skeleton, every reply after the reply skeleton.
pub open spec fn skeletons_precede_content(evs: Seq<EventV>, tid: Seq<char>) -> bool {
    &&& forall|i: int|
        0 <= i < evs.len() && (#[trigger] evs[i]) is Input ==> has_input_skeleton(
            evs.take(i),
            tid,
        )
    &&& forall|i: int|
        0 <= i < evs.len() && (#[trigger] evs[i]) is Reply ==> has_reply_skeleton(
            evs.take(i),
            tid,
        )
}

/// The phases a turn only reaches once its input skeleton is published.
pub open spec fn input_skeleton_sent(p: PhaseV) -> bool {
    match p {
        PhaseV::Start | PhaseV::AwaitingAudio | PhaseV::Failed => false,
        _ => true,
    }
}

/// The phases a turn only reaches once its reply skeleton is published.
pub open spec fn reply_skeleton_sent(p: PhaseV) -> bool {
    match p {
        PhaseV::Start | PhaseV::AwaitingAudio | PhaseV::Transcribing | PhaseV::Failed => false,
        _ => true,
    }
}

proof fn lemma_step_skeletons(m: MachineV, o: OutcomeV, prefix: Seq<EventV>)
    requires
        skeletons_precede_content(prefix, m.turn_id),
        input_skeleton_sent(m.phase) ==> has_input_skeleton(prefix, m.turn_id),
        reply_skeleton_sent(m.phase) ==> has_reply_skeleton(prefix, m.turn_id),
    ensures
        ({
            let sr = spec_step(m, o);
            &&& skeletons_precede_content(prefix + sr.events, m.turn_id)
            &&& input_skeleton_sent(sr.phase) ==> has_input_skeleton(prefix + sr.events, m.turn_id)
            &&& reply_skeleton_sent(sr.phase) ==> has_reply_skeleton(prefix + sr.events, m.turn_id)
        }),
{
    let sr = spec_step(m, o);
    let evs = sr.events;
    let tid = m.turn_id;
    let all = prefix + evs;

    // every content event this step emits has its skeleton already in the prefix
    assert(forall|k: int|
        0 <= k < evs.len() && (#[trigger] evs[k]) is Input ==> has_input_skeleton(prefix, tid));
    assert(forall|k: int|
        0 <= k < evs.len() && (#[trigger] evs[k]) is Reply ==> has_reply_skeleton(prefix, tid));

    assert forall|i: int| 0 <= i < all.len() && (#[trigger] all[i]) is Input implies
        has_input_skeleton(all.take(i), tid) by {
        if i < prefix.len() {
            assert(all[i] == prefix[i]);
            assert(has_input_skeleton(prefix.take(i), tid));
            assert(prefix.take(i) =~= all.take(i));
        } else {
            assert(all[i] == evs[i - prefix.len()]);
            assert(has_input_skeleton(prefix, tid));
            let j = choose|j: int|
                0 <= j < prefix.len() && prefix[j] == (EventV::InputSkeleton { id: tid });
            assert(all.take(i)[j] == prefix[j]);
        }
    }
    assert forall|i: int| 0 <= i < all.len() && (#[trigger] all[i]) is Reply implies
        has_reply_skeleton(all.take(i), tid) by {
        if i < prefix.len() {
            assert(all[i] == prefix[i]);
            assert(has_reply_skeleton(prefix.take(i), tid));
            assert(prefix.take(i) =~= all.take(i));
        } else {
            assert(all[i] == evs[i - prefix.len()]);
            assert(has_reply_skeleton(prefix, tid));
            let j = choose|j: int|
                0 <= j < prefix.len() && prefix[j] == (EventV::ReplySkeleton { id: tid });
            assert(all.take(i)[j] == prefix[j]);
        }
    }

    if input_skeleton_sent(sr.phase) {
        if input_skeleton_sent(m.phase) {
            let j = choose|j: int|
                0 <= j < prefix.len() && prefix[j] == (EventV::InputSkeleton { id: tid });
            assert(all[j] == prefix[j]);
        } else {
            // the one entering transition publishes the input skeleton itself
            assert(evs[1] == (EventV::InputSkeleton { id: tid }));
            assert(all[prefix.len() as int + 1] == evs[1]);
        }
    }
    if reply_skeleton_sent(sr.phase) {
        if reply_skeleton_sent(m.phase) {
            let j = choose|j: int|
                0 <= j < prefix.len() && prefix[j] == (EventV::ReplySkeleton { id: tid });
            assert(all[j] == prefix[j]);
        } else {
            assert(evs[2] == (EventV::ReplySkeleton { id: tid }));
            assert(all[prefix.len() as int + 2] == evs[2]);
        }
    }
}

proof fn lemma_run_skeletons(m: MachineV, outs: Seq<OutcomeV>, prefix: Seq<EventV>)
    requires
        skeletons_precede_content(prefix, m.turn_id),
        input_skeleton_sent(m.phase) ==> has_input_skeleton(prefix, m.turn_id),
        reply_skeleton_sent(m.phase) ==> has_reply_skeleton(prefix, m.turn_id),
    ensures
        skeletons_precede_content(prefix + spec_run(m, outs).1, m.turn_id),
    decreases outs.len(),
{
    if outs.len() == 0 {
        assert(prefix + spec_run(m, outs).1 =~= prefix);
    } else {
        let sr = spec_step(m, outs[0]);
        let m2 = MachineV { turn_id: m.turn_id, phase: sr.phase };
        lemma_step_skeletons(m, outs[0], prefix);
        lemma_run_skeletons(m2, outs.drop_first(), prefix + sr.events);
        assert(prefix + spec_run(m, outs).1 =~= (prefix + sr.events) + spec_run(
            m2,
            outs.drop_first(),
        ).1);
    }
}

/// Law: in any run of a turn from its start, a skeleton event for a stage is
/// published strictly before its corresponding content event: the input
/// skeleton before the input, the reply skeleton before every reply.
pub proof fn lemma_skeletons_precede_content(tid: Seq<char>, outs: Seq<OutcomeV>)
    ensures
        skeletons_precede_content(
            spec_run(MachineV { turn_id: tid, phase: PhaseV::Start }, outs).1,
            tid,
        ),
{
    let m = MachineV { turn_id: tid, phase: PhaseV::Start };
    lemma_run_skeletons(m, outs, Seq::empty());
    assert(Seq::empty() + spec_run(m, outs).1 =~= spec_run(m, outs).1);
}

/// Law: a `ToolCalls` response whose first tool call names an unrecognized
/// tool makes the turn fail with exactly one `Error` signal carrying the
/// protocol error's message.
pub proof fn lemma_unknown_tool_error(m: MachineV, name: Seq<char>, args: Seq<char>)
    requires
        m.phase == PhaseV::Routing,
    ensures
        ({
            let o = OutcomeV::Routed {
                result: Ok(
                    seq![
                        ChoiceV {
                            finish: FinishKind::ToolCalls,
                            content: None,
                            tool_calls: seq![ToolCallV { name, arguments: args }],
                        },
                    ],
                ),
            };
            spec_tool_from_name(name) is None ==> {
                &&& spec_step(m, o).events == seq![
                    EventV::Signal(SignalV::Error("no proper tool found"@)),
                ]
                &&& spec_step(m, o).phase == PhaseV::Failed
            }
        }),
{
}

} // verus!
