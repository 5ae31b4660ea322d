use whisperfish::client_profile::avatar_file_name;
use whisperfish::recipient::{
    analyze_sessions, device_versions,
    device_session_version, InitRequest, RecipientImpl, RecipientRecord, RecipientWithAnalyzedSession,
};

const U: u128 = 0x550e8400e29b41d4a716446655440000;

#[test]
fn selecting_by_id() {
    let mut r = RecipientImpl::new();
    assert_eq!(r.get_recipient_id(), -1);
    assert!(!r.get_valid());
    assert!(r.set_recipient_id(5));
    assert_eq!(r.get_recipient_id(), 5);
    assert!(!r.set_recipient_id(5));
    assert_eq!(r.init_request(), InitRequest::ById(5));
    let compute = r.init_complete(InitRequest::ById(5), Some((RecipientRecord { id: 5, uuid: Some(U) }, Some(9))));
    assert!(!compute);
    assert!(r.get_valid());
    assert_eq!(r.get_recipient_uuid(), "550e8400-e29b-41d4-a716-446655440000");
    let rec = r.recipient.as_ref().unwrap();
    assert_eq!(rec.direct_message_recipient_id, 9);
    assert_eq!(r.init_request(), InitRequest::Keep);
}

#[test]
fn selecting_by_uuid() {
    let mut r = RecipientImpl::new();
    assert!(r.set_recipient_uuid("550e8400-e29b-41d4-a716-446655440000"));
    assert_eq!(r.recipient_uuid, Some(U));
    assert_eq!(r.get_recipient_id(), -1);
    assert!(!r.set_recipient_uuid(&avatar_file_name(U)));
    assert_eq!(r.init_request(), InitRequest::ByUuid(U));
    r.init_complete(InitRequest::ByUuid(U), Some((RecipientRecord { id: 3, uuid: Some(U) }, None)));
    assert_eq!(r.get_recipient_id(), 3);
    assert_eq!(r.recipient.as_ref().unwrap().direct_message_recipient_id, -1);
    assert!(r.set_recipient_uuid("garbage"));
    assert_eq!(r.recipient_uuid, None);
    assert_eq!(r.get_recipient_uuid(), "");
}

#[test]
fn by_id_without_uuid_gets_nil_uuid() {
    let mut r = RecipientImpl::new();
    r.set_recipient_id(2);
    r.init_complete(InitRequest::ById(2), Some((RecipientRecord { id: 2, uuid: None }, None)));
    assert_eq!(r.get_recipient_uuid(), "00000000-0000-0000-0000-000000000000");
}

#[test]
fn negative_id_clears() {
    let mut r = RecipientImpl::new();
    r.set_recipient_id(-4);
    assert_eq!(r.init_request(), InitRequest::Clear);
    r.init_complete(InitRequest::Clear, None);
    assert!(r.recipient.is_none());
    assert!(!r.get_valid());
}

#[test]
fn observe_forces_reload_and_drops_fingerprint() {
    let mut r = RecipientImpl::new();
    r.set_recipient_id(5);
    r.init_complete(InitRequest::ById(5), Some((RecipientRecord { id: 5, uuid: Some(U) }, None)));
    assert_eq!(r.fingerprint_request(), Some((5, U)));
    r.session_analyzed(5, "12345".to_string(), vec![(1, 4), (2, 3)]);
    assert_eq!(r.fingerprint_request(), None);
    assert!(!r.recipient.as_ref().unwrap().session_is_post_quantum());
    r.set_fingerprint_needed(true);
    assert!(r.get_fingerprint_needed());
    let req = r.observe();
    assert_eq!(req, InitRequest::ByUuid(U));
    let compute = r.init_complete(req, Some((RecipientRecord { id: 5, uuid: Some(U) }, None)));
    assert!(compute);
    assert!(!r.force_init);
    assert!(r.recipient.as_ref().unwrap().fingerprint.is_none());
}

#[test]
fn analysis_for_other_recipient_is_ignored() {
    let mut r = RecipientImpl::new();
    r.set_recipient_id(5);
    r.init_complete(InitRequest::ById(5), Some((RecipientRecord { id: 5, uuid: None }, None)));
    assert_eq!(r.fingerprint_request(), None);
    r.session_analyzed(6, "x".to_string(), vec![(1, 4)]);
    assert!(r.recipient.as_ref().unwrap().fingerprint.is_none());
}

#[test]
fn post_quantum_sessions() {
    let mut rec = RecipientWithAnalyzedSession {
        inner: RecipientRecord { id: 1, uuid: None },
        direct_message_recipient_id: -1,
        fingerprint: None,
        versions: vec![],
    };
    assert!(rec.session_is_post_quantum());
    rec.versions = vec![(1, 4), (2, 5)];
    assert!(rec.session_is_post_quantum());
    rec.versions.push((3, 3));
    assert!(!rec.session_is_post_quantum());
    assert_eq!(device_session_version(None), 0);
    assert_eq!(device_session_version(Some(4)), 4);
}

#[test]
fn session_analysis_versions_in_device_order() {
    assert_eq!(device_versions(&vec![(3, Some(4)), (1, None), (2, Some(3))]), vec![(3, 4), (1, 0), (2, 3)]);
    assert_eq!(device_versions(&vec![]), vec![]);
    let a = analyze_sessions(5, "123".to_string(), &vec![(1, None)]);
    assert_eq!((a.recipient_id, a.fingerprint.as_str(), a.versions), (5, "123", vec![(1, 0)]));
}
