use vk_relay::envelope::{ApiFailure, ErrorCode, RequestParam, VkError};
use vk_relay::json::parse_document;
use vk_relay::session::{Session, decode_send_response, decode_user_response};

#[test]
fn success_envelope_yields_payload() {
    let doc = parse_document(r#"{"response":77}"#).unwrap();
    match decode_send_response(&doc) {
        Ok(id) => assert_eq!(id, 77),
        Err(e) => panic!("expected a sent id, got {e:?}"),
    }
}

#[test]
fn error_envelope_yields_domain_error() {
    let doc = parse_document(
        r#"{"error":{"error_code":914,"error_msg":"too long","request_params":[{"key":"a","value":"b"}]}}"#,
    )
    .unwrap();
    match decode_send_response(&doc) {
        Err(ApiFailure::Domain(e)) => {
            assert_eq!(e.code, 914);
            assert_eq!(e.message, "too long");
            assert_eq!(e.request_params.len(), 1);
            assert_eq!(e.request_params[0].key, "a");
            assert_eq!(e.kind(), Some(ErrorCode::MessageIsTooLong));
        }
        other => panic!("expected a domain error, got {other:?}"),
    }
}

#[test]
fn unknown_error_code_still_decodes() {
    let doc = parse_document(
        r#"{"error":{"error_code":99999,"error_msg":"new failure","request_params":[]}}"#,
    )
    .unwrap();
    match decode_send_response(&doc) {
        Err(ApiFailure::Domain(e)) => {
            assert_eq!(e.code, 99999);
            assert_eq!(e.kind(), None);
        }
        other => panic!("expected a domain error, got {other:?}"),
    }
}

#[test]
fn envelope_with_two_keys_is_malformed() {
    let doc = parse_document(r#"{"response":1,"extra":2}"#).unwrap();
    assert!(matches!(decode_send_response(&doc), Err(ApiFailure::Malformed)));
}

#[test]
fn envelope_with_wrong_key_is_malformed() {
    let doc = parse_document(r#"{"result":1}"#).unwrap();
    assert!(matches!(decode_send_response(&doc), Err(ApiFailure::Malformed)));
}

#[test]
fn non_numeric_send_payload_is_malformed() {
    let doc = parse_document(r#"{"response":"yes"}"#).unwrap();
    assert!(matches!(decode_send_response(&doc), Err(ApiFailure::Malformed)));
}

#[test]
fn describe_renders_known_code() {
    let e = VkError {
        code: 914,
        message: "too long".to_string(),
        request_params: vec![RequestParam { key: "a".to_string(), value: "b".to_string() }],
    };
    assert_eq!(e.describe(), "too long (MessageIsTooLong#914):\n   a: b,\n");
}

#[test]
fn describe_renders_unknown_code() {
    let e = VkError { code: 99999, message: "m".to_string(), request_params: vec![] };
    assert_eq!(e.describe(), "m (Unknown#99999):\n");
}

#[test]
fn error_kind_maps_every_documented_code() {
    assert_eq!(vk_relay::envelope::error_kind(104), Some(ErrorCode::NotFound));
    assert_eq!(vk_relay::envelope::error_kind(900), Some(ErrorCode::CanTSendMessagesForUsersFromBlacklist));
    assert_eq!(vk_relay::envelope::error_kind(945), Some(ErrorCode::ChatWasDisabled));
    assert_eq!(vk_relay::envelope::error_kind(1012), Some(ErrorCode::WritingIsDisabledForThisChat));
    assert_eq!(vk_relay::envelope::error_kind(1), None);
}

#[test]
fn session_initializes_from_server_response() {
    let doc = parse_document(
        r#"{"response":{"key":"k1","server":"https://lp.example","ts":"5"}}"#,
    )
    .unwrap();
    let s = Session::initialize(&doc, 25).expect("a session");
    assert_eq!(s.cursor.key, "k1");
    assert_eq!(s.cursor.server, "https://lp.example");
    assert_eq!(s.cursor.ts, 5);
    assert_eq!(s.wait, 25);
}

#[test]
fn session_initialize_is_fatal_on_domain_error() {
    let doc = parse_document(
        r#"{"error":{"error_code":104,"error_msg":"nope","request_params":[]}}"#,
    )
    .unwrap();
    assert!(matches!(Session::initialize(&doc, 25), Err(ApiFailure::Domain(_))));
}

#[test]
fn user_lookup_decodes_single_record() {
    let doc = parse_document(
        r#"{"response":[{"id":123,"first_name":"Ann","last_name":"Lee","can_access_closed":true,"is_closed":false}]}"#,
    )
    .unwrap();
    let u = decode_user_response(&doc).expect("a user");
    assert_eq!(u.id, 123);
    assert_eq!(u.first_name, "Ann");
    assert_eq!(u.last_name, "Lee");
    assert!(u.can_access_closed);
    assert!(!u.is_closed);
}

#[test]
fn user_lookup_with_two_records_is_malformed() {
    let doc = parse_document(
        r#"{"response":[{"id":1,"first_name":"A","last_name":"B","can_access_closed":true,"is_closed":false},{"id":2,"first_name":"C","last_name":"D","can_access_closed":true,"is_closed":false}]}"#,
    )
    .unwrap();
    assert!(matches!(decode_user_response(&doc), Err(ApiFailure::Malformed)));
}
