use whisperfish::client_profile::{
    avatar_action, avatar_file_name, fetched_report, outdated_profile_action, plan_profile_fetched,
    store_profile, AvatarAction, DecryptedName, DecryptedProfile, FetchResult, FetchedRecipient,
    OutdatedProfileAction, ProfileFetchedError, ProfileFetchedPlan, UnidentifiedAccessMode,
};
use whisperfish::profile_refresh::{
    compute_wake_delay, NextWake, OutdatedProfileStream, ProfileCandidate, ScanResult,
    REYIELD_DELAY_MS,
};

const A: &str = "550e8400-e29b-41d4-a716-446655440000";
const A_U: u128 = 0x550e8400e29b41d4a716446655440000;
const B: &str = "a1a2a3a4-b1b2-c1c2-d1d2-d3d4d5d6d7d8";
const B_U: u128 = 0xa1a2a3a4b1b2c1c2d1d2d3d4d5d6d7d8;

fn cand(uuid: Option<&str>, key: Option<Vec<u8>>) -> ProfileCandidate {
    ProfileCandidate { uuid: uuid.map(|s| s.to_string()), profile_key: key }
}

#[test]
fn yields_each_profile_once_per_delay() {
    let mut st = OutdatedProfileStream::new();
    let cands = vec![cand(Some(A), None), cand(Some(B), Some(vec![7; 16])), cand(Some(A), Some(vec![1; 32])), cand(Some(B), Some(vec![2; 32]))];
    let p = st.next_out_of_date_profile(&cands, 1000).unwrap();
    assert_eq!(p.0, A_U);
    assert_eq!(p.1, vec![1; 32]);
    let p = st.next_out_of_date_profile(&cands, 1000).unwrap();
    assert_eq!(p.0, B_U);
    assert!(st.next_out_of_date_profile(&cands, 1000).is_none());
    st.clean_ignore_set(1000 + REYIELD_DELAY_MS - 1);
    assert!(st.next_out_of_date_profile(&cands, 2000).is_none());
    st.clean_ignore_set(1000 + REYIELD_DELAY_MS);
    assert_eq!(st.next_out_of_date_profile(&cands, 400_000).unwrap().0, A_U);
}

#[test]
fn malformed_uuid_stops_the_scan() {
    let mut st = OutdatedProfileStream::new();
    let cands = vec![cand(Some("nope"), Some(vec![1; 32])), cand(Some(A), Some(vec![1; 32]))];
    match st.scan_out_of_date_profiles(&cands, 0) {
        ScanResult::Malformed(i) => assert_eq!(i, 0),
        _ => panic!("expected a malformed candidate"),
    }
    let cands = vec![cand(None, Some(vec![1; 32]))];
    assert!(matches!(st.scan_out_of_date_profiles(&cands, 0), ScanResult::Malformed(0)));
    assert!(matches!(st.scan_out_of_date_profiles(&vec![], 0), ScanResult::Exhausted));
}

#[test]
fn wake_planning() {
    let mut st = OutdatedProfileStream::new();
    assert!(!st.wake_for_ignored());
    assert!(!st.wake_for_last_fetch(10, None));
    assert!(st.wake_for_last_fetch(10_000, Some(4_000)));
    let cands = vec![cand(Some(A), Some(vec![1; 32])), cand(Some(B), Some(vec![1; 32]))];
    st.next_out_of_date_profile(&cands, 50);
    st.next_out_of_date_profile(&cands, 20);
    assert!(st.wake_for_ignored());
    assert_eq!(compute_wake_delay(10_000, 4_000), 6_000);
    assert_eq!(compute_wake_delay(4_000, 10_000), REYIELD_DELAY_MS);
    assert_eq!(compute_wake_delay(i64::MAX, i64::MIN), u64::MAX);
    let _ = NextWake::At(20 + REYIELD_DELAY_MS);
}

#[test]
fn outdated_profile_actions() {
    assert_eq!(outdated_profile_action(false, Some(1), 1), OutdatedProfileAction::IgnoreUntilReconnected);
    assert_eq!(outdated_profile_action(true, Some(1), 1), OutdatedProfileAction::RefreshOwnProfile);
    assert_eq!(outdated_profile_action(true, Some(1), 2), OutdatedProfileAction::Fetch);
    assert_eq!(outdated_profile_action(true, None, 2), OutdatedProfileAction::Fetch);
    assert_eq!(fetched_report(FetchResult::Fetched), Some(true));
    assert_eq!(fetched_report(FetchResult::NotFound), Some(false));
    assert_eq!(fetched_report(FetchResult::Failed), None);
}

fn recipient(key: Option<Vec<u8>>) -> FetchedRecipient {
    FetchedRecipient { id: 3, uuid: Some(A_U), profile_key: key, unidentified_access_mode: UnidentifiedAccessMode::Enabled }
}

#[test]
fn profile_fetched_plans() {
    assert!(matches!(plan_profile_fetched(&None, true, None, A_U), Err(ProfileFetchedError::RecipientNotFound)));
    assert!(matches!(plan_profile_fetched(&Some(recipient(None)), true, None, A_U), Err(ProfileFetchedError::NoProfileKey)));
    match plan_profile_fetched(&Some(recipient(Some(vec![9; 32]))), true, None, A_U) {
        Ok(ProfileFetchedPlan::Decrypt(k)) => assert_eq!(k, vec![9; 32]),
        _ => panic!("expected decryption"),
    }
    assert!(matches!(
        plan_profile_fetched(&Some(recipient(None)), false, Some(A_U), A_U),
        Ok(ProfileFetchedPlan::MarkFetched { invalidate_self: true })
    ));
    assert!(matches!(
        plan_profile_fetched(&Some(recipient(None)), false, Some(B_U), A_U),
        Ok(ProfileFetchedPlan::MarkFetched { invalidate_self: false })
    ));
}

#[test]
fn stored_profile_fields() {
    let dec = DecryptedProfile {
        name: Some(DecryptedName { given_name: "Ada".into(), family_name: Some("Lovelace".into()), joined: "Ada Lovelace".into() }),
        about: Some("hi".into()),
        about_emoji: None,
    };
    let p = store_profile(dec, false, Some("/a".into()), &recipient(Some(vec![1; 32])), 77);
    assert_eq!(p.given_name.as_deref(), Some("Ada"));
    assert_eq!(p.family_name.as_deref(), Some("Lovelace"));
    assert_eq!(p.joined_name.as_deref(), Some("Ada Lovelace"));
    assert_eq!(p.about_text.as_deref(), Some("hi"));
    assert_eq!(p.emoji, None);
    assert_eq!(p.unidentified, UnidentifiedAccessMode::Enabled);
    assert_eq!(p.last_fetch, 77);
    assert_eq!(p.r_uuid, A_U);
    assert_eq!(p.r_id, 3);
    assert_eq!(p.r_key, Some(vec![1; 32]));
    let dec = DecryptedProfile { name: None, about: None, about_emoji: Some("x".into()) };
    let p = store_profile(dec, true, None, &recipient(None), 5);
    assert_eq!(p.given_name, None);
    assert_eq!(p.unidentified, UnidentifiedAccessMode::Unrestricted);
    assert_eq!(p.r_key, None);
}

#[test]
fn avatar_handling() {
    assert_eq!(avatar_action(true, false), AvatarAction::Download);
    assert_eq!(avatar_action(true, true), AvatarAction::Download);
    assert_eq!(avatar_action(false, true), AvatarAction::Remove);
    assert_eq!(avatar_action(false, false), AvatarAction::Nothing);
    assert_eq!(avatar_file_name(A_U), A);
}

#[test]
fn polls_yield_once_per_delay() {
    let mut st = OutdatedProfileStream::new();
    let cands = vec![cand(Some(A), Some(vec![1; 32]))];
    assert_eq!(st.poll_profiles(&cands, 0).unwrap().unwrap().0, A_U);
    for t in [1u64, 1000, 100_000, REYIELD_DELAY_MS - 1] {
        assert!(st.poll_profiles(&cands, t).unwrap().is_none());
    }
    assert_eq!(st.poll_profiles(&cands, REYIELD_DELAY_MS).unwrap().unwrap().0, A_U);
    let bad = vec![cand(Some("x"), Some(vec![1; 32]))];
    assert!(st.poll_profiles(&bad, REYIELD_DELAY_MS + 1).is_none());
    assert!(matches!(st.scan_position(&bad), whisperfish::profile_refresh::ScanStep::Malformed(0)));
}
