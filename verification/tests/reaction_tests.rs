use whisperfish::message_methods::{expiry_timer, MessageMethods};
use whisperfish::reactions::{
    is_superseded, reaction_outcome, reaction_row, reaction_step, ReactionMessage, ReactionParser,
    ReactionStep,
};

#[test]
fn old_reaction_texts() {
    let p = ReactionParser::new().unwrap();
    assert_eq!(p.parse("R@1234:👍"), Some((1234, "👍".to_string())));
    assert_eq!(p.parse("R@0:"), Some((0, "".to_string())));
    assert_eq!(p.parse("xR@15:ok"), Some((15, "ok".to_string())));
    assert_eq!(p.parse("hello"), None);
    assert_eq!(p.parse("R@:x"), None);
    assert_eq!(p.parse("R@99999999999999999999:x"), None);
}

#[test]
fn superseded_reactions() {
    assert!(is_superseded(Some(1), 5, Some((Some(1), 5))));
    assert!(!is_superseded(Some(1), 5, Some((Some(2), 5))));
    assert!(!is_superseded(Some(1), 5, Some((Some(1), 6))));
    assert!(!is_superseded(Some(1), 5, None));
    assert!(is_superseded(None, 5, Some((None, 5))));
}

#[test]
fn reaction_rows() {
    let m = ReactionMessage {
        id: 10,
        text: Some("R@5:x".into()),
        sender_recipient_id: None,
        sent_timestamp: None,
        server_timestamp: 99,
        received_timestamp: None,
    };
    let r = reaction_row(&m, 4, 1, "x".into(), 1234);
    assert_eq!((r.message_id, r.author, r.sent_time, r.received_time), (4, 1, 99, 1234));
    assert_eq!(r.emoji, "x");
    let m2 = ReactionMessage { sender_recipient_id: Some(7), sent_timestamp: Some(50), received_timestamp: Some(60), ..m };
    let r = reaction_row(&m2, 4, 1, "y".into(), 1234);
    assert_eq!((r.author, r.sent_time, r.received_time), (7, 50, 60));
}

#[test]
fn message_requests() {
    assert_eq!(expiry_timer(30), Some(30));
    assert_eq!(expiry_timer(0), None);
    assert_eq!(expiry_timer(-5), None);
    let mm = MessageMethods;
    let u = mm.create_expiry_update(3, 60);
    assert_eq!((u.session_id, u.expires_in), (3, Some(60)));
    let q = mm.create_message(1, "hi".into(), "".into(), -1, false);
    assert_eq!((q.session_id, q.message.as_str(), q.quote), (1, "hi", -1));
    let r = mm.send_reaction(2, 3, "👍".into(), true);
    assert_eq!((r.message_id, r.sender_id, r.emoji.as_str(), r.remove), (2, 3, "👍", true));
}

#[test]
fn reaction_steps() {
    let m = ReactionMessage {
        id: 10,
        text: Some("R@5:x".into()),
        sender_recipient_id: Some(2),
        sent_timestamp: Some(8),
        server_timestamp: 9,
        received_timestamp: None,
    };
    assert_eq!(reaction_step(&m, 5, Some((Some(2), 5))), ReactionStep::DeleteSuperseded(10));
    assert_eq!(reaction_step(&m, 5, Some((Some(3), 5))), ReactionStep::LookUpTarget(5));
    assert_eq!(reaction_step(&m, 5, None), ReactionStep::LookUpTarget(5));
    let o = reaction_outcome(&m, Some(4), 1, "x".into(), 77);
    assert_eq!(o.delete_message, 10);
    let row = o.row.unwrap();
    assert_eq!((row.message_id, row.author, row.sent_time, row.received_time), (4, 2, 8, 77));
    let o = reaction_outcome(&m, None, 1, "x".into(), 77);
    assert_eq!(o.delete_message, 10);
    assert!(o.row.is_none());
}

#[test]
fn reaction_plans_read_the_next_timestamp_from_own_text() {
    let p = ReactionParser::new().unwrap();
    let m = ReactionMessage {
        id: 10,
        text: Some("R@5:x".into()),
        sender_recipient_id: Some(2),
        sent_timestamp: None,
        server_timestamp: 9,
        received_timestamp: None,
    };
    let next_same_sender = ReactionMessage { id: 11, text: Some("R@6:y".into()), ..m };
    let next_other_sender = ReactionMessage { id: 12, text: Some("R@5:y".into()), sender_recipient_id: Some(3), ..m };
    assert_eq!(p.plan_reaction(&m, Some(&next_same_sender)), Some((ReactionStep::DeleteSuperseded(10), "x".to_string())));
    assert_eq!(p.plan_reaction(&m, Some(&next_other_sender)), Some((ReactionStep::LookUpTarget(5), "x".to_string())));
    assert_eq!(p.plan_reaction(&m, None), Some((ReactionStep::LookUpTarget(5), "x".to_string())));
    let no_text = ReactionMessage { id: 13, text: None, ..m };
    assert_eq!(p.plan_reaction(&no_text, None), None);
    let bad = ReactionMessage { id: 14, text: Some("hello".into()), ..m };
    assert_eq!(p.plan_reaction(&bad, None), None);
}
