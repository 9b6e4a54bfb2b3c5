use ava_bot::errors::TurnError;
use ava_bot::events::{
    complete, error, in_audio_upload, in_chat_completion, in_draw_image, in_speech, in_thinking,
    in_transcription, in_write_code, event_sse_id, AssistantEvent, ChatInputEvent, ChatReplyData,
    ChatReplyEvent, ChatReplySkeletonEvent, DrawImageResult, SpeechResult, WriteCodeResult,
};
use ava_bot::pipeline::{ImageItem, TurnAction, TurnMachine, TurnOutcome};
use ava_bot::router::{ChatChoice, FinishKind, ToolCallRequest};

fn stop_choice(content: &str) -> ChatChoice {
    ChatChoice {
        finish: FinishKind::Stop,
        content: Some(content.to_string()),
        tool_calls: vec![],
    }
}

fn tool_choice(name: &str, arguments: &str) -> ChatChoice {
    ChatChoice {
        finish: FinishKind::ToolCalls,
        content: None,
        tool_calls: vec![ToolCallRequest {
            name: name.to_string(),
            arguments: arguments.to_string(),
        }],
    }
}

const TOOL_SYSTEM: &str = "I can help to identify which tool to use, if no proper tool could be used, I'll directly reply the message with pure text";
const HINT: &str = "If audio language is Chinese, please use Simplified Chinese";

/// Drives a machine up to the routing decision and returns everything it
/// published on the way.
fn run_to_routing(m: &mut TurnMachine, text: &str) -> Vec<AssistantEvent> {
    let mut all = Vec::new();
    let (evs, act) = m.step(TurnOutcome::Begin);
    assert_eq!(act, TurnAction::ReadAudio);
    all.extend(evs);
    let (evs, act) = m.step(TurnOutcome::AudioRead { field_name: Some("audio".to_string()) });
    assert_eq!(act, TurnAction::Transcribe { prompt: HINT.to_string() });
    all.extend(evs);
    let (evs, act) = m.step(TurnOutcome::Transcribed { result: Ok(text.to_string()) });
    assert_eq!(
        act,
        TurnAction::CompleteWithTools { system: TOOL_SYSTEM.to_string(), input: text.to_string() }
    );
    all.extend(evs);
    all
}

#[test]
fn direct_answer_turn_emits_the_exact_sequence() {
    let mut m = TurnMachine::new_with_id("t1".to_string());
    let mut all = run_to_routing(&mut m, "how is the weather");

    let (evs, act) = m.step(TurnOutcome::Routed { result: Ok(vec![stop_choice("sunny")]) });
    assert_eq!(act, TurnAction::SynthesizeAndStore { text: "sunny".to_string() });
    all.extend(evs);
    let (evs, act) = m.step(TurnOutcome::SpeechStored {
        result: Ok("/assets/audio/d/a.mp3".to_string()),
    });
    assert_eq!(act, TurnAction::Finish);
    all.extend(evs);

    assert_eq!(all.len(), 10);
    assert_eq!(all[0], in_audio_upload());
    assert_eq!(all[1], in_transcription());
    assert!(matches!(all[2], AssistantEvent::InputSkeleton(_)));
    assert_eq!(
        all[3],
        AssistantEvent::Input(ChatInputEvent::new(
            "t1".to_string(),
            "how is the weather".to_string()
        ))
    );
    assert_eq!(all[4], in_thinking());
    assert_eq!(
        all[5],
        AssistantEvent::ReplySkeleton(ChatReplySkeletonEvent::new("t1".to_string()))
    );
    assert_eq!(all[6], in_speech());
    assert_eq!(
        all[7],
        AssistantEvent::Reply(ChatReplyEvent::new(
            "t1".to_string(),
            ChatReplyData::Speech(SpeechResult::new_text_only("sunny".to_string()))
        ))
    );
    assert_eq!(
        all[8],
        AssistantEvent::Reply(ChatReplyEvent::new(
            "t1".to_string(),
            ChatReplyData::Speech(SpeechResult::new(
                "sunny".to_string(),
                "/assets/audio/d/a.mp3".to_string()
            ))
        ))
    );
    assert_eq!(all[9], complete());
}

#[test]
fn draw_image_turn_replies_twice_with_url_empty_then_populated() {
    let mut m = TurnMachine::new_with_id("t2".to_string());
    run_to_routing(&mut m, "draw me a cat");

    let (evs, act) = m.step(TurnOutcome::Routed {
        result: Ok(vec![tool_choice("draw_image", "{\"prompt\":\"a cat\"}")]),
    });
    assert_eq!(act, TurnAction::GenerateImage { prompt: "a cat".to_string() });
    assert_eq!(evs.len(), 2);
    assert_eq!(evs[0], in_draw_image());
    assert_eq!(
        evs[1],
        AssistantEvent::Reply(ChatReplyEvent::new(
            "t2".to_string(),
            ChatReplyData::Image(DrawImageResult::new("".to_string(), "a cat".to_string()))
        ))
    );

    // "aGVsbG8=" is base64 for "hello": the stored bytes must be the decoded
    // payload, not the text handed in.
    let (evs, act) = m.step(TurnOutcome::ImageGenerated {
        result: Ok(vec![ImageItem {
            b64_json: Some("aGVsbG8=".to_string()),
            revised_prompt: "a fluffy cat".to_string(),
        }]),
    });
    assert_eq!(act, TurnAction::StoreImage { bytes: b"hello".to_vec() });
    assert!(evs.is_empty());

    let (evs, act) = m.step(TurnOutcome::ImageStored {
        result: Ok("/assets/image/d/i.png".to_string()),
    });
    assert_eq!(act, TurnAction::Finish);
    assert_eq!(evs.len(), 2);
    assert_eq!(
        evs[0],
        AssistantEvent::Reply(ChatReplyEvent::new(
            "t2".to_string(),
            ChatReplyData::Image(DrawImageResult::new(
                "/assets/image/d/i.png".to_string(),
                "a fluffy cat".to_string()
            ))
        ))
    );
    assert_eq!(evs[1], complete());
}

#[test]
fn write_code_turn_renders_markdown_and_skips_speech() {
    let mut m = TurnMachine::new_with_id("t3".to_string());
    run_to_routing(&mut m, "write fibonacci");

    let (evs, act) = m.step(TurnOutcome::Routed {
        result: Ok(vec![tool_choice("write_code", "{\"prompt\":\"fibonacci\"}")]),
    });
    assert_eq!(
        act,
        TurnAction::CompletePlain {
            system: "I'm an expert on coding, I'll write code for you in markdown format based on your prompt".to_string(),
            input: "fibonacci".to_string(),
        }
    );
    assert_eq!(evs, vec![in_write_code()]);

    let (evs, act) = m.step(TurnOutcome::Completed {
        result: Ok(vec![stop_choice("# Hi\n")]),
    });
    assert_eq!(act, TurnAction::Finish);
    assert_eq!(evs.len(), 2);
    assert_eq!(
        evs[0],
        AssistantEvent::Reply(ChatReplyEvent::new(
            "t3".to_string(),
            ChatReplyData::Markdown(WriteCodeResult::new("<h1>Hi</h1>\n".to_string()))
        ))
    );
    assert_eq!(evs[1], complete());
}

#[test]
fn answer_tool_turn_completes_then_synthesizes() {
    let mut m = TurnMachine::new_with_id("t4".to_string());
    run_to_routing(&mut m, "chat with me");

    let (evs, act) = m.step(TurnOutcome::Routed {
        result: Ok(vec![tool_choice("answer", "{\"prompt\":\"chat with me\"}")]),
    });
    assert_eq!(
        act,
        TurnAction::CompletePlain {
            system: "I can help answer anything you'd like to chat".to_string(),
            input: "chat with me".to_string(),
        }
    );
    assert_eq!(evs, vec![in_chat_completion()]);

    let (evs, act) = m.step(TurnOutcome::Completed { result: Ok(vec![stop_choice("sure")]) });
    assert_eq!(act, TurnAction::SynthesizeAndStore { text: "sure".to_string() });
    // the optimistic reply goes out first; the Speech signal follows on the
    // way into synthesis
    assert_eq!(
        evs[0],
        AssistantEvent::Reply(ChatReplyEvent::new(
            "t4".to_string(),
            ChatReplyData::Speech(SpeechResult::new_text_only("sure".to_string()))
        ))
    );
    assert_eq!(evs[1], in_speech());

    let (evs, act) = m.step(TurnOutcome::SpeechStored {
        result: Ok("/assets/audio/d/s.mp3".to_string()),
    });
    assert_eq!(act, TurnAction::Finish);
    assert_eq!(
        evs[0],
        AssistantEvent::Reply(ChatReplyEvent::new(
            "t4".to_string(),
            ChatReplyData::Speech(SpeechResult::new(
                "sure".to_string(),
                "/assets/audio/d/s.mp3".to_string()
            ))
        ))
    );
    assert_eq!(evs[1], complete());
}

#[test]
fn transcription_failure_emits_one_error_and_nothing_more() {
    let mut m = TurnMachine::new_with_id("t5".to_string());
    m.step(TurnOutcome::Begin);
    m.step(TurnOutcome::AudioRead { field_name: Some("audio".to_string()) });
    let (evs, act) = m.step(TurnOutcome::Transcribed {
        result: Err(TurnError::Transport("network down".to_string())),
    });
    assert_eq!(evs, vec![error("network down".to_string())]);
    assert_eq!(act, TurnAction::Abort);

    // a failed turn publishes nothing further
    let (evs, act) = m.step(TurnOutcome::Routed { result: Ok(vec![stop_choice("x")]) });
    assert!(evs.is_empty());
    assert_eq!(act, TurnAction::Abort);
}

#[test]
fn wrong_multipart_field_is_a_parse_error() {
    let mut m = TurnMachine::new_with_id("t6".to_string());
    m.step(TurnOutcome::Begin);
    let (evs, act) = m.step(TurnOutcome::AudioRead { field_name: Some("video".to_string()) });
    assert_eq!(evs, vec![error("expected an audio field".to_string())]);
    assert_eq!(act, TurnAction::Abort);

    let mut m = TurnMachine::new_with_id("t6b".to_string());
    m.step(TurnOutcome::Begin);
    let (evs, act) = m.step(TurnOutcome::AudioRead { field_name: None });
    assert_eq!(evs, vec![error("expected an audio field".to_string())]);
    assert_eq!(act, TurnAction::Abort);
}

#[test]
fn unknown_tool_fails_the_turn_with_a_protocol_error() {
    let mut m = TurnMachine::new_with_id("t8".to_string());
    run_to_routing(&mut m, "do something odd");
    let (evs, act) = m.step(TurnOutcome::Routed {
        result: Ok(vec![tool_choice("dance", "{\"prompt\":\"x\"}")]),
    });
    assert_eq!(evs, vec![error("no proper tool found".to_string())]);
    assert_eq!(act, TurnAction::Abort);
}

#[test]
fn empty_choice_list_fails_the_turn() {
    let mut m = TurnMachine::new_with_id("t9".to_string());
    run_to_routing(&mut m, "anything");
    let (evs, act) = m.step(TurnOutcome::Routed { result: Ok(vec![]) });
    assert_eq!(evs, vec![error("expect at least one chioce".to_string())]);
    assert_eq!(act, TurnAction::Abort);
}

#[test]
fn empty_plain_completion_fails_the_turn_with_its_own_message() {
    let mut m = TurnMachine::new_with_id("t9b".to_string());
    run_to_routing(&mut m, "chat");
    m.step(TurnOutcome::Routed {
        result: Ok(vec![tool_choice("answer", "{\"prompt\":\"chat\"}")]),
    });
    let (evs, act) = m.step(TurnOutcome::Completed { result: Ok(vec![]) });
    assert_eq!(evs, vec![error("expect at least the choice".to_string())]);
    assert_eq!(act, TurnAction::Abort);
}

#[test]
fn missing_image_payload_fails_the_turn() {
    let mut m = TurnMachine::new_with_id("t10".to_string());
    run_to_routing(&mut m, "draw");
    m.step(TurnOutcome::Routed {
        result: Ok(vec![tool_choice("draw_image", "{\"prompt\":\"a cat\"}")]),
    });
    let (evs, act) = m.step(TurnOutcome::ImageGenerated {
        result: Ok(vec![ImageItem { b64_json: None, revised_prompt: "a cat".to_string() }]),
    });
    assert_eq!(evs, vec![error("expect image data but none available".to_string())]);
    assert_eq!(act, TurnAction::Abort);
}

#[test]
fn undecodable_image_payload_fails_the_turn() {
    let mut m = TurnMachine::new_with_id("t11".to_string());
    run_to_routing(&mut m, "draw");
    m.step(TurnOutcome::Routed {
        result: Ok(vec![tool_choice("draw_image", "{\"prompt\":\"a cat\"}")]),
    });
    let (evs, act) = m.step(TurnOutcome::ImageGenerated {
        result: Ok(vec![ImageItem {
            b64_json: Some("!!! not base64 !!!".to_string()),
            revised_prompt: "a cat".to_string(),
        }]),
    });
    assert_eq!(evs, vec![error("invalid image payload".to_string())]);
    assert_eq!(act, TurnAction::Abort);
}

#[test]
fn fresh_machines_draw_distinct_36_char_ids() {
    let a = TurnMachine::new();
    let b = TurnMachine::new();
    assert_eq!(a.turn_id().len(), 36);
    assert_eq!(b.turn_id().len(), 36);
    assert_ne!(a.turn_id(), b.turn_id());
}

#[test]
fn two_interleaved_turns_keep_their_events_apart() {
    let mut m1 = TurnMachine::new_with_id("ta".to_string());
    let mut m2 = TurnMachine::new_with_id("tb".to_string());
    let mut wire: Vec<AssistantEvent> = Vec::new();

    // interleave the two turns step by step, as two concurrent uploads on
    // one session would; the wire carries both streams mixed
    wire.extend(m1.step(TurnOutcome::Begin).0);
    wire.extend(m2.step(TurnOutcome::Begin).0);
    wire.extend(m1.step(TurnOutcome::AudioRead { field_name: Some("audio".to_string()) }).0);
    wire.extend(m2.step(TurnOutcome::AudioRead { field_name: Some("audio".to_string()) }).0);
    wire.extend(m1.step(TurnOutcome::Transcribed { result: Ok("one".to_string()) }).0);
    wire.extend(m2.step(TurnOutcome::Transcribed { result: Ok("two".to_string()) }).0);
    wire.extend(m1.step(TurnOutcome::Routed { result: Ok(vec![stop_choice("ans one")]) }).0);
    wire.extend(m2.step(TurnOutcome::Routed { result: Ok(vec![stop_choice("ans two")]) }).0);
    wire.extend(m1.step(TurnOutcome::SpeechStored { result: Ok("/a/1.mp3".to_string()) }).0);
    wire.extend(m2.step(TurnOutcome::SpeechStored { result: Ok("/a/2.mp3".to_string()) }).0);

    // filtered per turn id, the id-tagged events of each turn stand in the
    // single-turn order, and no event carries the other turn's data
    for (tid, text, answer, url) in [
        ("ta", "one", "ans one", "/a/1.mp3"),
        ("tb", "two", "ans two", "/a/2.mp3"),
    ] {
        let own: Vec<&AssistantEvent> =
            wire.iter().filter(|e| event_sse_id(e) == tid).collect();
        assert_eq!(own.len(), 3);
        assert_eq!(
            *own[0],
            AssistantEvent::Input(ChatInputEvent::new(tid.to_string(), text.to_string()))
        );
        assert_eq!(
            *own[1],
            AssistantEvent::Reply(ChatReplyEvent::new(
                tid.to_string(),
                ChatReplyData::Speech(SpeechResult::new_text_only(answer.to_string()))
            ))
        );
        assert_eq!(
            *own[2],
            AssistantEvent::Reply(ChatReplyEvent::new(
                tid.to_string(),
                ChatReplyData::Speech(SpeechResult::new(answer.to_string(), url.to_string()))
            ))
        );
    }
}
