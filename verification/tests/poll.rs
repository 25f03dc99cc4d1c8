use vk_relay::json::{Json, parse_document};
use vk_relay::schema::{UpdateEvent, decode_batch, decode_message};
use vk_relay::session::{Bot, PollCursor, PollOutcome, Session, extract_loose_ts};

fn fresh_session(ts: i64) -> Session {
    Session {
        cursor: PollCursor { key: "k".to_string(), server: "https://s".to_string(), ts },
        wait: 25,
    }
}

fn message_json(id: u64, from_id: i64, text: &str) -> String {
    format!(
        r#"{{"id":{id},"peer_id":2000000002,"from_id":{from_id},"date":1700000000,"text":"{text}","attachments":[]}}"#
    )
}

#[test]
fn batch_with_one_message_new_decodes() {
    let msg = message_json(1, 123, "hi");
    let body = format!(r#"{{"ts":"11","updates":[{{"type":"message_new","object":{{"message":{msg}}}}}]}}"#);
    let mut s = fresh_session(3);
    match s.poll_round(&body) {
        PollOutcome::Batch(batch) => {
            assert_eq!(batch.ts, 11);
            assert_eq!(batch.updates.len(), 1);
            let UpdateEvent::MessageNew { message } = &batch.updates[0];
            assert_eq!(message.id, 1);
            assert_eq!(message.from_id, 123);
            assert_eq!(message.peer_id, 2000000002);
            assert_eq!(message.date, 1700000000);
            assert_eq!(message.text, "hi");
            assert!(message.reply.is_none());
            assert!(message.attachments.is_empty());
            assert!(message.fwd_messages.is_empty());
        }
        other => panic!("expected a batch, got {other:?}"),
    }
    assert_eq!(s.cursor.ts, 11);
    assert_eq!(s.cursor.key, "k");
    assert_eq!(s.cursor.server, "https://s");
}

#[test]
fn undecodable_updates_still_advance_cursor() {
    let body = r#"{"ts":"11","updates":[{"surprise":1}]}"#;
    let mut s = fresh_session(3);
    match s.poll_round(body) {
        PollOutcome::Skipped { ts } => assert_eq!(ts, 11),
        other => panic!("expected a skipped round, got {other:?}"),
    }
    assert_eq!(s.cursor.ts, 11);
}

#[test]
fn missing_ts_is_fatal_and_cursor_holds() {
    let body = r#"{"updates":[]}"#;
    let mut s = fresh_session(3);
    match s.poll_round(body) {
        PollOutcome::Fatal => {}
        other => panic!("expected a fatal round, got {other:?}"),
    }
    assert_eq!(s.cursor.ts, 3);
}

#[test]
fn unparseable_ts_is_fatal() {
    let body = r#"{"ts":"abc","updates":[]}"#;
    let mut s = fresh_session(3);
    assert!(matches!(s.poll_round(body), PollOutcome::Fatal));
    assert_eq!(s.cursor.ts, 3);
}

#[test]
fn non_json_body_is_fatal() {
    let mut s = fresh_session(3);
    assert!(matches!(s.poll_round("not json at all"), PollOutcome::Fatal));
    assert_eq!(s.cursor.ts, 3);
}

#[test]
fn unknown_update_tag_discards_batch_but_advances() {
    let msg = message_json(1, 123, "hi");
    let body = format!(r#"{{"ts":"7","updates":[{{"type":"weird_event","object":{{"message":{msg}}}}}]}}"#);
    let mut s = fresh_session(3);
    match s.poll_round(&body) {
        PollOutcome::Skipped { ts } => assert_eq!(ts, 7),
        other => panic!("expected a skipped round, got {other:?}"),
    }
    assert_eq!(s.cursor.ts, 7);
}

#[test]
fn numeric_ts_is_accepted() {
    let body = r#"{"ts":42,"updates":[]}"#;
    let mut s = fresh_session(3);
    match s.poll_round(body) {
        PollOutcome::Batch(batch) => {
            assert_eq!(batch.ts, 42);
            assert!(batch.updates.is_empty());
        }
        other => panic!("expected a batch, got {other:?}"),
    }
}

#[test]
fn unknown_key_in_message_fails_typed_decode() {
    let body = r#"{"ts":"5","updates":[{"type":"message_new","object":{"message":{"id":1,"peer_id":2,"from_id":3,"date":4,"text":"t","attachments":[],"shiny":true}}}]}"#;
    let mut s = fresh_session(1);
    assert!(matches!(s.poll_round(body), PollOutcome::Skipped { ts: 5 }));
}

#[test]
fn duplicate_keys_fail_strict_decode_but_loose_read_takes_first() {
    let doc = Json::Obj(vec![
        ("ts".to_string(), Json::Str("1".to_string())),
        ("ts".to_string(), Json::Str("2".to_string())),
        ("updates".to_string(), Json::Arr(vec![])),
    ]);
    assert!(decode_batch(&doc).is_none());
    assert_eq!(extract_loose_ts(&doc), Some(1));
}

#[test]
fn nested_reply_and_forwards_decode() {
    let inner = message_json(42, 5, "inner");
    let fwd = message_json(43, 6, "fwd");
    let outer = format!(
        r#"{{"id":1,"peer_id":2,"from_id":3,"date":4,"text":"outer","attachments":[],"reply_message":{inner},"fwd_messages":[{fwd}]}}"#
    );
    let doc = parse_document(&outer).expect("valid json");
    let m = decode_message(&doc).expect("valid message");
    assert_eq!(m.reply.as_ref().unwrap().id, 42);
    assert_eq!(m.reply.as_ref().unwrap().text, "inner");
    assert_eq!(m.fwd_messages.len(), 1);
    assert_eq!(m.fwd_messages[0].id, 43);
}

#[test]
fn photo_attachment_decodes_and_unknown_tag_fails() {
    let good = r#"{"id":1,"peer_id":2,"from_id":3,"date":4,"text":"t","attachments":[{"type":"photo","photo":{"owner_id":9,"id":8,"access_key":"ak","sizes":[{"height":100,"width":200,"type":"m","url":"https://img"}]}}]}"#;
    let doc = parse_document(good).expect("valid json");
    let m = decode_message(&doc).expect("valid message");
    assert_eq!(m.attachments.len(), 1);
    let vk_relay::schema::Attachment::Photo { owner_id, id, access_key, sizes } = &m.attachments[0];
    assert_eq!(*owner_id, 9);
    assert_eq!(*id, 8);
    assert_eq!(access_key, "ak");
    assert_eq!(sizes.len(), 1);
    assert_eq!(sizes[0].height, 100);
    assert_eq!(sizes[0].width, 200);
    assert!(matches!(sizes[0].kind, vk_relay::schema::SizeKind::Medium));

    let bad = good.replace(r#""type":"photo""#, r#""type":"sticker""#);
    let doc = parse_document(&bad).expect("valid json");
    assert!(decode_message(&doc).is_none());
}

#[test]
fn poll_url_renders_cursor_exactly() {
    let s = fresh_session(3);
    assert_eq!(s.poll_url(), "https://s?act=a_check&key=k&ts=3&wait=25");
}

#[test]
fn bot_has_default_wait() {
    let b = Bot::new("tok".to_string(), 224192083);
    assert_eq!(b.wait, 25);
    assert_eq!(b.group_id, 224192083);
}

#[test]
fn request_params_render_exactly() {
    let b = Bot::new("tok".to_string(), 77);
    let p = b.long_poll_server_params();
    assert_eq!(
        p,
        vec![
            ("group_id".to_string(), "77".to_string()),
            ("access_token".to_string(), "tok".to_string()),
            ("v".to_string(), "5.199".to_string()),
        ]
    );
    let p = b.users_get_params(-3);
    assert_eq!(p[0], ("user_ids".to_string(), "-3".to_string()));
    let p = b.send_message_params(2000000002, "hello there");
    assert_eq!(p[0], ("peer_id".to_string(), "2000000002".to_string()));
    assert_eq!(p[1], ("random_id".to_string(), "0".to_string()));
    assert_eq!(p[2], ("message".to_string(), "hello there".to_string()));
    assert_eq!(p[3], ("group_id".to_string(), "77".to_string()));
    assert_eq!(p[5], ("v".to_string(), "5.199".to_string()));
}

#[test]
fn api_url_renders_method() {
    assert_eq!(
        vk_relay::session::api_url("messages.send"),
        "http://api.vk.com/method/messages.send"
    );
}
