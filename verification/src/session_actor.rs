//! Requests to the session actor, and how it gathers a session's members.

use vstd::prelude::*;

verus! {

/// Mark a session read.
#[derive(Clone, Copy, PartialEq, Eq, Debug)]
pub struct MarkSessionRead {
    pub sid: i32,
    pub already_unread: bool,
}

/// Mute or unmute a session.
#[derive(Clone, Copy, PartialEq, Eq, Debug)]
pub struct MarkSessionMuted {
    pub sid: i32,
    pub muted: bool,
}

/// Archive or unarchive a session.
#[derive(Clone, Copy, PartialEq, Eq, Debug)]
pub struct MarkSessionArchived {
    pub sid: i32,
    pub archived: bool,
}

/// Pin or unpin a session.
#[derive(Clone, Copy, PartialEq, Eq, Debug)]
pub struct MarkSessionPinned {
    pub sid: i32,
    pub pinned: bool,
}

/// Delete the session `id`, shown at row `idx`.
#[derive(Clone, Copy, PartialEq, Eq, Debug)]
pub struct DeleteSession {
    pub id: i32,
    pub idx: usize,
}

/// Load every session from the store.
#[derive(Clone, Copy, PartialEq, Eq, Debug)]
pub struct LoadAllSessions;

/// Where the members of a session are looked up.
#[derive(PartialEq, Eq, Debug)]
pub enum MembersSource {
    /// The members of the GroupV1 group with this id.
    GroupV1(String),
    /// The members of the GroupV2 group with this id.
    GroupV2(String),
    /// A direct session lists no members.
    NoGroup,
}

/// The members lookup for a session with these group ids: a GroupV1 group
/// takes precedence over a GroupV2 group.
pub fn members_source(group_v1_id: &Option<String>, group_v2_id: &Option<String>) -> (r: MembersSource)
    ensures
        match group_v1_id {
            Some(g) => r matches MembersSource::GroupV1(id) && id@ == g@,
            None => match group_v2_id {
                Some(g) => r matches MembersSource::GroupV2(id) && id@ == g@,
                None => r == MembersSource::NoGroup,
            },
        },
{
    match group_v1_id {
        Some(g) => MembersSource::GroupV1(g.clone()),
        None => match group_v2_id {
            Some(g) => MembersSource::GroupV2(g.clone()),
            None => MembersSource::NoGroup,
        },
    }
}

} // verus!
