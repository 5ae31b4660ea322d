use whisperfish::session_actor::{members_source, MembersSource};
use whisperfish::sessions::{SessionListModel, SessionSummary};

fn s(id: i32, is_pinned: bool, is_read: bool) -> SessionSummary {
    SessionSummary { id, is_pinned, is_read }
}

#[test]
fn load_all_puts_pinned_first_and_keeps_order() {
    let mut model = SessionListModel::new();
    model.load_all(vec![
        s(1, false, true),
        s(2, true, false),
        s(3, false, false),
        s(4, true, true),
        s(5, false, true),
    ]);
    let ids: Vec<i32> = model.content.iter().map(|x| x.id).collect();
    assert_eq!(ids, vec![2, 4, 1, 3, 5]);
    assert_eq!(model.count(), 5);
    assert_eq!(model.row_count(), 5);
}

#[test]
fn load_all_replaces_previous_content() {
    let mut model = SessionListModel::new();
    model.load_all(vec![s(1, true, true)]);
    model.load_all(vec![s(7, false, false), s(8, false, true)]);
    let ids: Vec<i32> = model.content.iter().map(|x| x.id).collect();
    assert_eq!(ids, vec![7, 8]);
}

#[test]
fn unread_counts_sessions_not_read() {
    let mut model = SessionListModel::new();
    assert_eq!(model.unread(), 0);
    model.load_all(vec![s(1, false, false), s(2, true, false), s(3, false, true)]);
    assert_eq!(model.unread(), 2);
}

#[test]
fn empty_list() {
    let model = SessionListModel::new();
    assert_eq!(model.count(), 0);
    assert_eq!(model.row_count(), 0);
}

#[test]
fn group_v1_takes_precedence_for_members() {
    let v1 = Some("aa".to_string());
    let v2 = Some("bb".to_string());
    assert_eq!(members_source(&v1, &v2), MembersSource::GroupV1("aa".to_string()));
    assert_eq!(members_source(&None, &v2), MembersSource::GroupV2("bb".to_string()));
    assert_eq!(members_source(&None, &None), MembersSource::NoGroup);
}
