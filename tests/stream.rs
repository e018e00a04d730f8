use openai_stream::chat::stream::{decode_frame, decode_text, ChatStream, StreamPhase, TransportEvent};
use openai_stream::chat::{ChatCompletionChunkResponse, ChoiceStreamed, Delta};
use openai_stream::ApiRequestError;

fn payload(item: &Result<String, ApiRequestError>) -> &str {
    match item {
        Ok(s) => s.as_str(),
        Err(e) => panic!("expected a payload, got {:?}", e),
    }
}

fn stream_message(item: &Result<String, ApiRequestError>) -> &str {
    match item {
        Err(ApiRequestError::Stream(m)) => m.as_str(),
        other => panic!("expected a stream error, got {:?}", other),
    }
}

fn chunk(id: &str, contents: Vec<Option<&str>>) -> ChatCompletionChunkResponse {
    let mut choices = Vec::new();
    for (i, c) in contents.into_iter().enumerate() {
        choices.push(ChoiceStreamed {
            index: i as u32,
            delta: Delta { content: c.map(|s| s.to_string()) },
            finish_reason: None,
            logprobs: None,
        });
    }
    ChatCompletionChunkResponse {
        id: id.to_string(),
        choices,
        created: 1,
        model: "gpt-4o".to_string(),
        system_fingerprint: None,
        object: "chat.completion.chunk".to_string(),
    }
}

const HI_JSON: &str = "{\"id\":\"1\",\"object\":\"chat.completion.chunk\",\"created\":1,\"model\":\"gpt-4o\",\"choices\":[{\"index\":0,\"delta\":{\"content\":\"Hi\"}}]}";

#[test]
fn data_frame_yields_its_json() {
    let frame = format!("data: {}\n\n", HI_JSON);
    let d = decode_text(&frame);
    assert_eq!(d.items.len(), 1);
    assert_eq!(payload(&d.items[0]), HI_JSON);
    assert!(!d.done);
}

#[test]
fn sentinel_frame_yields_nothing_and_ends() {
    let d = decode_text("data: [DONE]\n\n");
    assert!(d.items.is_empty());
    assert!(d.done);
}

#[test]
fn empty_frame_yields_nothing() {
    let d = decode_text("");
    assert!(d.items.is_empty());
    assert!(!d.done);
    let d = decode_frame(Vec::new());
    assert!(d.items.is_empty());
    assert!(!d.done);
}

#[test]
fn malformed_frame_is_reported_verbatim() {
    let d = decode_text("not an event");
    assert_eq!(d.items.len(), 1);
    assert_eq!(stream_message(&d.items[0]), "Invalid event data: not an event");
    assert!(!d.done);
}

#[test]
fn frame_with_several_events() {
    let d = decode_text("data: {\"a\":1}\n\ndata: {\"b\":2}\n\ndata: [DONE]\n\n");
    assert_eq!(d.items.len(), 2);
    assert_eq!(payload(&d.items[0]), "{\"a\":1}");
    assert_eq!(payload(&d.items[1]), "{\"b\":2}");
    assert!(d.done);
}

#[test]
fn sub_message_without_prefix_is_dropped() {
    let d = decode_text("data: x\n\nevent: ping\n\n\n\ndata: y");
    assert_eq!(d.items.len(), 2);
    assert_eq!(payload(&d.items[0]), "x");
    assert_eq!(payload(&d.items[1]), "y");
    assert!(!d.done);
}

#[test]
fn three_newlines_split_like_str_split() {
    let d = decode_text("data: a\n\n\ndata: b");
    assert_eq!(d.items.len(), 1);
    assert_eq!(payload(&d.items[0]), "a");
}

#[test]
fn non_utf8_frame_is_one_stream_error() {
    let d = decode_frame(vec![b'd', 0xff, 0xfe]);
    assert_eq!(d.items.len(), 1);
    assert!(matches!(d.items[0], Err(ApiRequestError::Stream(_))));
    assert!(!d.done);
}

#[test]
fn utf8_frame_decodes_text() {
    let d = decode_frame("data: {\"c\":\"żółw\"}\n\n".as_bytes().to_vec());
    assert_eq!(d.items.len(), 1);
    assert_eq!(payload(&d.items[0]), "{\"c\":\"żółw\"}");
}

#[test]
fn hi_then_done_scenario() {
    let mut s = ChatStream::new(true);
    assert_eq!(s.phase(), StreamPhase::Idle);
    s.start();
    assert_eq!(s.phase(), StreamPhase::Connecting);
    assert!(s.on_event(TransportEvent::Opened).is_empty());
    assert_eq!(s.phase(), StreamPhase::Streaming);
    let items = s.on_event(TransportEvent::Frame(format!("data: {}\n\n", HI_JSON).into_bytes()));
    assert_eq!(items.len(), 1);
    assert_eq!(payload(&items[0]), HI_JSON);
    let out = s.accept(Ok(chunk("1", vec![Some("Hi")])));
    match out {
        Some(Ok(c)) => {
            assert_eq!(c.id, "1");
            assert_eq!(String::from(c), "Hi");
        }
        other => panic!("expected a chunk, got {:?}", other),
    }
    assert!(!s.is_finished());
    let items = s.on_event(TransportEvent::Frame(b"data: [DONE]\n\n".to_vec()));
    assert!(items.is_empty());
    assert!(s.is_finished());
    assert_eq!(s.phase(), StreamPhase::Done);
}

#[test]
fn not_an_event_scenario_keeps_streaming() {
    let mut s = ChatStream::new(true);
    s.start();
    let items = s.on_event(TransportEvent::Frame(b"not an event".to_vec()));
    assert_eq!(items.len(), 1);
    assert_eq!(stream_message(&items[0]), "Invalid event data: not an event");
    assert_eq!(s.phase(), StreamPhase::Streaming);
    assert!(!s.is_finished());
}

#[test]
fn connection_reset_after_two_chunks_scenario() {
    let mut s = ChatStream::new(true);
    s.start();
    let mut out: Vec<Result<ChatCompletionChunkResponse, ApiRequestError>> = Vec::new();
    for (id, text) in [("1", "Hel"), ("2", "lo")] {
        let frame = format!(
            "data: {{\"id\":\"{}\",\"choices\":[{{\"index\":0,\"delta\":{{\"content\":\"{}\"}}}}]}}\n\n",
            id, text
        );
        let items = s.on_event(TransportEvent::Frame(frame.into_bytes()));
        assert_eq!(items.len(), 1);
        if let Some(r) = s.accept(Ok(chunk(id, vec![Some(text)]))) {
            out.push(r);
        }
    }
    for item in s.on_event(TransportEvent::Failed("connection reset by peer".to_string())) {
        out.push(item.map(|_| chunk("unused", vec![])));
    }
    assert_eq!(out.len(), 3);
    assert!(matches!(&out[0], Ok(c) if c.id == "1"));
    assert!(matches!(&out[1], Ok(c) if c.id == "2"));
    assert!(matches!(&out[2], Err(ApiRequestError::Stream(m)) if m == "connection reset by peer"));
    assert_eq!(s.phase(), StreamPhase::Errored);
    assert!(s.is_finished());
}

#[test]
fn close_ends_stream_gracefully() {
    let mut s = ChatStream::new(false);
    s.start();
    assert!(s.on_event(TransportEvent::Closed).is_empty());
    assert_eq!(s.phase(), StreamPhase::Done);
}

#[test]
fn heartbeat_chunk_is_suppressed() {
    let s = ChatStream::new(true);
    assert!(s.suppresses_heartbeats());
    assert!(s.accept(Ok(chunk("1", vec![Some("")]))).is_none());
    assert!(s.accept(Ok(chunk("1", vec![Some(""), Some("")]))).is_none());
    assert!(s.accept(Ok(chunk("1", vec![]))).is_none());
}

#[test]
fn hello_chunk_is_yielded() {
    let s = ChatStream::new(true);
    assert!(matches!(s.accept(Ok(chunk("1", vec![Some("hello")]))), Some(Ok(_))));
    assert!(matches!(s.accept(Ok(chunk("1", vec![Some(""), Some("x")]))), Some(Ok(_))));
    assert!(matches!(s.accept(Ok(chunk("1", vec![None]))), Some(Ok(_))));
}

#[test]
fn heartbeat_kept_when_not_suppressing() {
    let s = ChatStream::new(false);
    assert!(matches!(s.accept(Ok(chunk("1", vec![Some("")]))), Some(Ok(_))));
}

#[test]
fn decode_failure_is_never_suppressed() {
    let s = ChatStream::new(true);
    let err = serde_json::from_str::<serde_json::Value>("{").unwrap_err();
    assert!(matches!(s.accept(Err(err)), Some(Err(ApiRequestError::SerdeError(_)))));
}

#[test]
fn heartbeat_predicate() {
    assert!(chunk("1", vec![Some(""), Some("")]).is_heartbeat());
    assert!(chunk("1", vec![]).is_heartbeat());
    assert!(!chunk("1", vec![Some(""), None]).is_heartbeat());
    assert!(!chunk("1", vec![Some("a")]).is_heartbeat());
}

#[test]
fn chunk_text_joins_deltas() {
    assert_eq!(String::from(chunk("1", vec![Some("Hel"), None, Some("lo")])), "Hello");
    assert_eq!(String::from(chunk("1", vec![])), "");
}
