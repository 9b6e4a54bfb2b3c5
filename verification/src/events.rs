use vstd::prelude::*;
use vstd::string::*;

verus! {

/// Progress marker published before each stage of a turn. Purely
/// informational: the order in which markers appear is decided by the
/// pipeline, not by a transition table of their own.
#[derive(Debug, Clone, Copy, PartialEq, Eq, Structural)]
pub enum AssistantStep {
    UploadAudio,
    Transcription,
    ChatCompletion,
    Thinking,
    DrawImage,
    WriteCode,
    Speech,
}

/// The fixed wire name of each progress marker.
pub open spec fn spec_step_name(s: AssistantStep) -> Seq<char> {
    match s {
        AssistantStep::UploadAudio => "upload_audio"@,
        AssistantStep::Transcription => "transcription"@,
        AssistantStep::ChatCompletion => "chat_completion"@,
        AssistantStep::Thinking => "thinking"@,
        AssistantStep::DrawImage => "draw_image"@,
        AssistantStep::WriteCode => "write_code"@,
        AssistantStep::Speech => "speech"@,
    }
}

pub fn step_name(s: &AssistantStep) -> (r: &'static str)
    ensures
        r@ == spec_step_name(*s),
{
    match s {
        AssistantStep::UploadAudio => "upload_audio",
        AssistantStep::Transcription => "transcription",
        AssistantStep::ChatCompletion => "chat_completion",
        AssistantStep::Thinking => "thinking",
        AssistantStep::DrawImage => "draw_image",
        AssistantStep::WriteCode => "write_code",
        AssistantStep::Speech => "speech",
    }
}

/// Session-wide lifecycle marker. Signals carry no turn id.
#[derive(Debug, Clone, PartialEq)]
pub enum SignalEvent {
    Processing(AssistantStep),
    Finish(AssistantStep),
    Error(String),
    Complete,
}

#[verifier::ext_equal]
pub ghost enum SignalV {
    Processing(AssistantStep),
    Finish(AssistantStep),
    Error(Seq<char>),
    Complete,
}

impl View for SignalEvent {
    type V = SignalV;

    open spec fn view(&self) -> SignalV {
        match self {
            SignalEvent::Processing(s) => SignalV::Processing(*s),
            SignalEvent::Finish(s) => SignalV::Finish(*s),
            SignalEvent::Error(m) => SignalV::Error(m@),
            SignalEvent::Complete => SignalV::Complete,
        }
    }
}

/// The payload of a reply event: synthesized speech, a generated image, or
/// rendered markdown.
#[verifier::ext_equal]
pub ghost enum ReplyDataV {
    Speech { text: Seq<char>, url: Seq<char> },
    Image { url: Seq<char>, prompt: Seq<char> },
    Markdown { content: Seq<char> },
}

/// A spoken reply: its text, and the URL of the synthesized audio once the
/// artifact is stored (empty in the optimistic reply published first).
#[derive(Debug, Clone, PartialEq)]
pub struct SpeechResult {
    pub text: String,
    pub url: String,
}

impl View for SpeechResult {
    type V = ReplyDataV;

    open spec fn view(&self) -> ReplyDataV {
        ReplyDataV::Speech { text: self.text@, url: self.url@ }
    }
}

impl SpeechResult {
    pub fn new(text: String, url: String) -> (r: SpeechResult)
        ensures
            r@ == (ReplyDataV::Speech { text: text@, url: url@ }),
    {
        SpeechResult { text, url }
    }

    pub fn new_text_only(text: String) -> (r: SpeechResult)
        ensures
            r@ == (ReplyDataV::Speech { text: text@, url: ""@ }),
    {
        SpeechResult { text, url: "".to_owned() }
    }
}

/// A generated image: its URL (empty in the optimistic reply published before
/// generation) and the prompt, revised by the provider once it answers.
#[derive(Debug, Clone, PartialEq)]
pub struct DrawImageResult {
    pub url: String,
    pub prompt: String,
}

impl View for DrawImageResult {
    type V = ReplyDataV;

    open spec fn view(&self) -> ReplyDataV {
        ReplyDataV::Image { url: self.url@, prompt: self.prompt@ }
    }
}

impl DrawImageResult {
    pub fn new(url: String, prompt: String) -> (r: DrawImageResult)
        ensures
            r@ == (ReplyDataV::Image { url: url@, prompt: prompt@ }),
    {
        DrawImageResult { url, prompt }
    }
}

/// A coding reply, already rendered from markdown to HTML.
#[derive(Debug, Clone, PartialEq)]
pub struct WriteCodeResult {
    pub content: String,
}

impl View for WriteCodeResult {
    type V = ReplyDataV;

    open spec fn view(&self) -> ReplyDataV {
        ReplyDataV::Markdown { content: self.content@ }
    }
}

impl WriteCodeResult {
    pub fn new(content: String) -> (r: WriteCodeResult)
        ensures
            r@ == (ReplyDataV::Markdown { content: content@ }),
    {
        WriteCodeResult { content }
    }
}

#[derive(Debug, Clone, PartialEq)]
pub enum ChatReplyData {
    Speech(SpeechResult),
    Image(DrawImageResult),
    Markdown(WriteCodeResult),
}

impl View for ChatReplyData {
    type V = ReplyDataV;

    open spec fn view(&self) -> ReplyDataV {
        match self {
            ChatReplyData::Speech(v) => v@,
            ChatReplyData::Image(v) => v@,
            ChatReplyData::Markdown(v) => v@,
        }
    }
}

/// The semantic content of an event, with presentation metadata (timestamps,
/// avatars, display names) abstracted away.
#[verifier::ext_equal]
pub ghost enum EventV {
    Signal(SignalV),
    InputSkeleton { id: Seq<char> },
    Input { id: Seq<char>, content: Seq<char> },
    ReplySkeleton { id: Seq<char> },
    Reply { id: Seq<char>, data: ReplyDataV },
}

/// Placeholder for the user's forthcoming transcribed message.
#[derive(Debug, Clone, PartialEq)]
pub struct ChatInputSkeletonEvent {
    pub id: String,
    pub datetime: String,
    pub avatar: String,
    pub name: String,
}

impl View for ChatInputSkeletonEvent {
    type V = EventV;

    open spec fn view(&self) -> EventV {
        EventV::InputSkeleton { id: self.id@ }
    }
}

/// Relies on chrono's `Local::now` and `DateTime::format`: renders the current
/// local wall-clock time. The result depends on the clock and the machine's
/// time zone, so nothing is stated of it.
#[verifier::external_body]
fn now_datetime() -> String {
    chrono::Local::now().format("%Y-%m-%d %H:%M:%S").to_string()
}

impl ChatInputSkeletonEvent {
    pub fn new(id: String) -> (r: ChatInputSkeletonEvent)
        ensures
            r@ == (EventV::InputSkeleton { id: id@ }),
            r.id@ == id@,
            r.avatar@ == "https://i.pravatar.cc/300"@,
            r.name@ == "User"@,
    {
        ChatInputSkeletonEvent {
            id,
            datetime: now_datetime(),
            avatar: "https://i.pravatar.cc/300".to_owned(),
            name: "User".to_owned(),
        }
    }
}

/// The transcribed user message of a turn.
#[derive(Debug, Clone, PartialEq)]
pub struct ChatInputEvent {
    pub id: String,
    pub content: String,
}

impl View for ChatInputEvent {
    type V = EventV;

    open spec fn view(&self) -> EventV {
        EventV::Input { id: self.id@, content: self.content@ }
    }
}

impl ChatInputEvent {
    pub fn new(id: String, content: String) -> (r: ChatInputEvent)
        ensures
            r@ == (EventV::Input { id: id@, content: content@ }),
    {
        ChatInputEvent { id, content }
    }
}

/// Placeholder for the assistant's forthcoming reply.
#[derive(Debug, Clone, PartialEq)]
pub struct ChatReplySkeletonEvent {
    pub id: String,
    pub avatar: String,
    pub name: String,
}

impl View for ChatReplySkeletonEvent {
    type V = EventV;

    open spec fn view(&self) -> EventV {
        EventV::ReplySkeleton { id: self.id@ }
    }
}

impl ChatReplySkeletonEvent {
    pub fn new(id: String) -> (r: ChatReplySkeletonEvent)
        ensures
            r@ == (EventV::ReplySkeleton { id: id@ }),
            r.id@ == id@,
            r.avatar@ == "/public/images/ava-small.png"@,
            r.name@ == "Ava"@,
    {
        ChatReplySkeletonEvent {
            id,
            avatar: "/public/images/ava-small.png".to_owned(),
            name: "Ava".to_owned(),
        }
    }
}

/// The assistant's reply for a turn.
#[derive(Debug, Clone, PartialEq)]
pub struct ChatReplyEvent {
    pub id: String,
    pub data: ChatReplyData,
}

impl View for ChatReplyEvent {
    type V = EventV;

    open spec fn view(&self) -> EventV {
        EventV::Reply { id: self.id@, data: self.data@ }
    }
}

impl ChatReplyEvent {
    pub fn new(id: String, data: ChatReplyData) -> (r: ChatReplyEvent)
        ensures
            r@ == (EventV::Reply { id: id@, data: data@ }),
    {
        ChatReplyEvent { id, data }
    }
}

/// The tagged union of everything a turn publishes to its session's channel.
#[derive(Debug, Clone, PartialEq)]
pub enum AssistantEvent {
    Signal(SignalEvent),
    InputSkeleton(ChatInputSkeletonEvent),
    Input(ChatInputEvent),
    ReplySkeleton(ChatReplySkeletonEvent),
    Reply(ChatReplyEvent),
}

impl View for AssistantEvent {
    type V = EventV;

    open spec fn view(&self) -> EventV {
        match self {
            AssistantEvent::Signal(s) => EventV::Signal(s@),
            AssistantEvent::InputSkeleton(v) => v@,
            AssistantEvent::Input(v) => v@,
            AssistantEvent::ReplySkeleton(v) => v@,
            AssistantEvent::Reply(v) => v@,
        }
    }
}

/// The `Processing(UploadAudio)` signal that opens every turn.
pub fn in_audio_upload() -> (e: AssistantEvent)
    ensures
        e@ == EventV::Signal(SignalV::Processing(AssistantStep::UploadAudio)),
{
    AssistantEvent::Signal(SignalEvent::Processing(AssistantStep::UploadAudio))
}

pub fn in_transcription() -> (e: AssistantEvent)
    ensures
        e@ == EventV::Signal(SignalV::Processing(AssistantStep::Transcription)),
{
    AssistantEvent::Signal(SignalEvent::Processing(AssistantStep::Transcription))
}

pub fn in_thinking() -> (e: AssistantEvent)
    ensures
        e@ == EventV::Signal(SignalV::Processing(AssistantStep::Thinking)),
{
    AssistantEvent::Signal(SignalEvent::Processing(AssistantStep::Thinking))
}

pub fn in_chat_completion() -> (e: AssistantEvent)
    ensures
        e@ == EventV::Signal(SignalV::Processing(AssistantStep::ChatCompletion)),
{
    AssistantEvent::Signal(SignalEvent::Processing(AssistantStep::ChatCompletion))
}

pub fn in_speech() -> (e: AssistantEvent)
    ensures
        e@ == EventV::Signal(SignalV::Processing(AssistantStep::Speech)),
{
    AssistantEvent::Signal(SignalEvent::Processing(AssistantStep::Speech))
}

pub fn in_draw_image() -> (e: AssistantEvent)
    ensures
        e@ == EventV::Signal(SignalV::Processing(AssistantStep::DrawImage)),
{
    AssistantEvent::Signal(SignalEvent::Processing(AssistantStep::DrawImage))
}

pub fn in_write_code() -> (e: AssistantEvent)
    ensures
        e@ == EventV::Signal(SignalV::Processing(AssistantStep::WriteCode)),
{
    AssistantEvent::Signal(SignalEvent::Processing(AssistantStep::WriteCode))
}

/// The single `Error` signal a failed turn publishes.
pub fn error(msg: String) -> (e: AssistantEvent)
    ensures
        e@ == EventV::Signal(SignalV::Error(msg@)),
{
    AssistantEvent::Signal(SignalEvent::Error(msg))
}

/// The `Complete` signal that closes every successful turn.
pub fn complete() -> (e: AssistantEvent)
    ensures
        e@ == EventV::Signal(SignalV::Complete),
{
    AssistantEvent::Signal(SignalEvent::Complete)
}

/// The fixed wire name of each top-level event variant, as the serialization
/// boundary expects it.
pub open spec fn spec_event_name(e: EventV) -> Seq<char> {
    match e {
        EventV::Signal(_) => "signal"@,
        EventV::InputSkeleton { .. } => "input_skeleton"@,
        EventV::Input { .. } => "input"@,
        EventV::ReplySkeleton { .. } => "reply_skeleton"@,
        EventV::Reply { .. } => "reply"@,
    }
}

pub fn event_name(e: &AssistantEvent) -> (r: &'static str)
    ensures
        r@ == spec_event_name(e@),
{
    match e {
        AssistantEvent::Signal(_) => "signal",
        AssistantEvent::InputSkeleton(_) => "input_skeleton",
        AssistantEvent::Input(_) => "input",
        AssistantEvent::ReplySkeleton(_) => "reply_skeleton",
        AssistantEvent::Reply(_) => "reply",
    }
}

/// The id field of the serialized event: the turn id for `Input` and `Reply`
/// events, empty for signals and skeletons.
pub open spec fn spec_event_sse_id(e: EventV) -> Seq<char> {
    match e {
        EventV::Input { id, .. } => id,
        EventV::Reply { id, .. } => id,
        _ => ""@,
    }
}

pub fn event_sse_id(e: &AssistantEvent) -> (r: String)
    ensures
        r@ == spec_event_sse_id(e@),
{
    match e {
        AssistantEvent::Input(v) => v.id.clone(),
        AssistantEvent::Reply(v) => v.id.clone(),
        _ => "".to_owned(),
    }
}

/// The turn id an event carries, if it carries one: signals are session-wide
/// and carry none, every other event belongs to exactly one turn.
pub open spec fn spec_event_turn_id(e: EventV) -> Option<Seq<char>> {
    match e {
        EventV::Signal(_) => None,
        EventV::InputSkeleton { id } => Some(id),
        EventV::Input { id, .. } => Some(id),
        EventV::ReplySkeleton { id } => Some(id),
        EventV::Reply { id, .. } => Some(id),
    }
}

/// The markup in which subscribers see an `Error` signal's message.
pub fn error_html(msg: &str) -> (r: String)
    ensures
        r@ == "\n<p class=\"text-red-800\">Error: "@ + msg@ + "</p>\n"@,
{
    let mut s = "\n<p class=\"text-red-800\">Error: ".to_owned();
    s.append(msg);
    s.append("</p>\n");
    s
}

} // verus!
