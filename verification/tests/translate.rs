use vk_relay::relay::{
    RelayBody, RelayRequest, RelayResponse, TextFormat, TranslateError, dispatch,
    render_outbound, to_relay_request,
};
use vk_relay::schema::{Message, UpdateEvent, UserRecord};
use vk_relay::session::{PollCursor, PollOutcome, Session};

fn plain_message(from_id: i64, text: &str) -> Message {
    Message {
        id: 1,
        peer_id: 2000000002,
        from_id,
        date: 1700000000,
        text: text.to_string(),
        reply: None,
        attachments: vec![],
        fwd_messages: vec![],
    }
}

fn ann_lee() -> UserRecord {
    UserRecord {
        id: 123,
        first_name: "Ann".to_string(),
        last_name: "Lee".to_string(),
        can_access_closed: true,
        is_closed: false,
    }
}

#[test]
fn positive_sender_gets_looked_up_name() {
    let m = plain_message(123, "hi");
    let r = to_relay_request(&m, Some(&ann_lee())).expect("a request");
    assert_eq!(r.author.as_deref(), Some("Ann Lee"));
    assert_eq!(r.created_at, 1700000000);
    assert!(!r.is_silent);
    assert_eq!(
        r.body,
        Some(RelayBody::Text { format: TextFormat::Plain, value: "hi".to_string() })
    );
}

#[test]
fn non_positive_sender_is_unknown_without_lookup() {
    let m = plain_message(-5, "hi");
    let r = to_relay_request(&m, None).expect("a request");
    assert_eq!(r.author.as_deref(), Some("Unknown"));
    let r2 = to_relay_request(&m, Some(&ann_lee())).expect("a request");
    assert_eq!(r2.author.as_deref(), Some("Unknown"));
}

#[test]
fn failed_lookup_is_fatal_for_that_message() {
    let m = plain_message(123, "hi");
    assert_eq!(to_relay_request(&m, None), Err(TranslateError::AuthorMissing));
}

#[test]
fn date_beyond_range_is_rejected() {
    let mut m = plain_message(-1, "hi");
    m.date = u64::MAX;
    assert_eq!(to_relay_request(&m, None), Err(TranslateError::TimestampOutOfRange));
}

#[test]
fn reply_id_carries_over_exactly_when_present() {
    let mut m = plain_message(-1, "hi");
    assert_eq!(to_relay_request(&m, None).unwrap().reply_msg_id, None);
    let mut replied = plain_message(9, "earlier");
    replied.id = 42;
    m.reply = Some(Box::new(replied));
    assert_eq!(
        to_relay_request(&m, None).unwrap().reply_msg_id.as_deref(),
        Some("42")
    );
}

#[test]
fn translating_twice_yields_identical_requests() {
    let mut m1 = plain_message(123, "same text");
    let mut m2 = plain_message(123, "same text");
    let mut replied = plain_message(9, "earlier");
    replied.id = 42;
    m1.reply = Some(Box::new(replied));
    let mut replied = plain_message(9, "earlier");
    replied.id = 42;
    m2.reply = Some(Box::new(replied));
    let r1 = to_relay_request(&m1, Some(&ann_lee())).unwrap();
    let r2 = to_relay_request(&m2, Some(&ann_lee())).unwrap();
    assert_eq!(r1, r2);
}

#[test]
fn poll_batch_translates_to_outbound_request() {
    let body = r#"{"ts":"11","updates":[{"type":"message_new","object":{"message":{"id":1,"peer_id":2000000002,"from_id":123,"date":1700000000,"text":"hi","attachments":[]}}}]}"#;
    let mut s = Session {
        cursor: PollCursor { key: "k".to_string(), server: "https://s".to_string(), ts: 3 },
        wait: 25,
    };
    let batch = match s.poll_round(body) {
        PollOutcome::Batch(b) => b,
        other => panic!("expected a batch, got {other:?}"),
    };
    let mut sent: Vec<RelayRequest> = Vec::new();
    for u in batch.updates {
        let msg = dispatch(u);
        assert_eq!(msg.from_id, 123);
        let r = to_relay_request(&msg, Some(&ann_lee())).expect("a request");
        sent.push(r);
    }
    assert_eq!(sent.len(), 1);
    assert_eq!(sent[0].author.as_deref(), Some("Ann Lee"));
    assert!(!sent[0].is_silent);
    assert_eq!(
        sent[0].body,
        Some(RelayBody::Text { format: TextFormat::Plain, value: "hi".to_string() })
    );
}

#[test]
fn streaming_response_renders_for_delivery() {
    let resp = RelayResponse {
        reply_msg_id: Some("42".to_string()),
        created_at: 0,
        author: Some("Bob".to_string()),
        is_silent: false,
        client: "web".to_string(),
        body: Some(RelayBody::Text { format: TextFormat::Plain, value: "yo".to_string() }),
    };
    let text = render_outbound(&resp);
    assert!(text.contains("reply to: 42"));
    assert!(text.contains("[Bob from web]: yo"));
    assert_eq!(text, "\nreply to: 42\n[Bob from web]: yo");
}

#[test]
fn response_without_body_renders_note() {
    let resp = RelayResponse {
        reply_msg_id: None,
        created_at: 0,
        author: None,
        is_silent: false,
        client: "web".to_string(),
        body: None,
    };
    assert_eq!(render_outbound(&resp), "\n\n[ from web]: no text");
}

#[test]
fn media_body_renders_as_empty_text() {
    let resp = RelayResponse {
        reply_msg_id: None,
        created_at: 0,
        author: Some("Bob".to_string()),
        is_silent: false,
        client: "app".to_string(),
        body: Some(RelayBody::Media),
    };
    assert_eq!(render_outbound(&resp), "\n\n[Bob from app]: ");
}

#[test]
fn unrecognized_update_batch_sends_nothing() {
    let body = r#"{"ts":"9","updates":[{"type":"chat_title_update","object":{"message":{"id":1,"peer_id":2,"from_id":3,"date":4,"text":"t","attachments":[]}}}]}"#;
    let mut s = Session {
        cursor: PollCursor { key: "k".to_string(), server: "https://s".to_string(), ts: 3 },
        wait: 25,
    };
    let sent: Vec<RelayRequest> = Vec::new();
    match s.poll_round(body) {
        PollOutcome::Skipped { ts } => assert_eq!(ts, 9),
        other => panic!("expected a skipped round, got {other:?}"),
    }
    assert_eq!(s.cursor.ts, 9);
    assert!(sent.is_empty());
}
