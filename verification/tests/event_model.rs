use ava_bot::events::{
    complete, error, error_html, event_name, event_sse_id, in_audio_upload, in_chat_completion,
    in_draw_image, in_speech, in_thinking, in_transcription, in_write_code, step_name,
    AssistantEvent, AssistantStep, ChatInputEvent, ChatReplyData, ChatReplyEvent,
    ChatReplySkeletonEvent, DrawImageResult, SignalEvent, SpeechResult, WriteCodeResult,
};

#[test]
fn test_error_render() {
    let event: String = error_html("error");
    assert_eq!(event, "\n<p class=\"text-red-800\">Error: error</p>\n")
}

#[test]
fn signal_helpers_build_the_right_signals() {
    assert_eq!(
        in_audio_upload(),
        AssistantEvent::Signal(SignalEvent::Processing(AssistantStep::UploadAudio))
    );
    assert_eq!(
        in_transcription(),
        AssistantEvent::Signal(SignalEvent::Processing(AssistantStep::Transcription))
    );
    assert_eq!(
        in_thinking(),
        AssistantEvent::Signal(SignalEvent::Processing(AssistantStep::Thinking))
    );
    assert_eq!(
        in_chat_completion(),
        AssistantEvent::Signal(SignalEvent::Processing(AssistantStep::ChatCompletion))
    );
    assert_eq!(
        in_speech(),
        AssistantEvent::Signal(SignalEvent::Processing(AssistantStep::Speech))
    );
    assert_eq!(
        in_draw_image(),
        AssistantEvent::Signal(SignalEvent::Processing(AssistantStep::DrawImage))
    );
    assert_eq!(
        in_write_code(),
        AssistantEvent::Signal(SignalEvent::Processing(AssistantStep::WriteCode))
    );
    assert_eq!(
        error("boom".to_string()),
        AssistantEvent::Signal(SignalEvent::Error("boom".to_string()))
    );
    assert_eq!(complete(), AssistantEvent::Signal(SignalEvent::Complete));
}

#[test]
fn event_names_follow_the_variant() {
    assert_eq!(event_name(&complete()), "signal");
    let input = AssistantEvent::Input(ChatInputEvent::new("t1".to_string(), "hi".to_string()));
    assert_eq!(event_name(&input), "input");
    let skel = AssistantEvent::ReplySkeleton(ChatReplySkeletonEvent::new("t1".to_string()));
    assert_eq!(event_name(&skel), "reply_skeleton");
    let reply = AssistantEvent::Reply(ChatReplyEvent::new(
        "t1".to_string(),
        ChatReplyData::Markdown(WriteCodeResult::new("<p>x</p>".to_string())),
    ));
    assert_eq!(event_name(&reply), "reply");
}

#[test]
fn sse_id_is_set_only_for_input_and_reply() {
    assert_eq!(event_sse_id(&complete()), "");
    let input = AssistantEvent::Input(ChatInputEvent::new("t7".to_string(), "hi".to_string()));
    assert_eq!(event_sse_id(&input), "t7");
    let skel = AssistantEvent::ReplySkeleton(ChatReplySkeletonEvent::new("t7".to_string()));
    assert_eq!(event_sse_id(&skel), "");
    let reply = AssistantEvent::Reply(ChatReplyEvent::new(
        "t7".to_string(),
        ChatReplyData::Speech(SpeechResult::new("hello".to_string(), "".to_string())),
    ));
    assert_eq!(event_sse_id(&reply), "t7");
}

#[test]
fn step_names_are_snake_case() {
    assert_eq!(step_name(&AssistantStep::UploadAudio), "upload_audio");
    assert_eq!(step_name(&AssistantStep::Transcription), "transcription");
    assert_eq!(step_name(&AssistantStep::ChatCompletion), "chat_completion");
    assert_eq!(step_name(&AssistantStep::Thinking), "thinking");
    assert_eq!(step_name(&AssistantStep::DrawImage), "draw_image");
    assert_eq!(step_name(&AssistantStep::WriteCode), "write_code");
    assert_eq!(step_name(&AssistantStep::Speech), "speech");
}

#[test]
fn skeleton_events_carry_the_fixed_presentation_fields() {
    let a = ava_bot::events::ChatInputSkeletonEvent::new("t1".to_string());
    assert_eq!(a.id, "t1");
    assert_eq!(a.avatar, "https://i.pravatar.cc/300");
    assert_eq!(a.name, "User");
    let b = ChatReplySkeletonEvent::new("t1".to_string());
    assert_eq!(b.id, "t1");
    assert_eq!(b.avatar, "/public/images/ava-small.png");
    assert_eq!(b.name, "Ava");
}

#[test]
fn text_only_speech_has_an_empty_url() {
    assert_eq!(
        SpeechResult::new_text_only("hello".to_string()),
        SpeechResult::new("hello".to_string(), "".to_string())
    );
}

#[test]
fn image_result_keeps_url_and_prompt() {
    let a = DrawImageResult::new("/assets/image/d/x.png".to_string(), "a cat".to_string());
    let b = DrawImageResult::new("/assets/image/d/x.png".to_string(), "a cat".to_string());
    assert_eq!(a, b);
    let c = DrawImageResult::new("".to_string(), "a cat".to_string());
    assert_ne!(a, c);
}
