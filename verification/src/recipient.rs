//! The recipient detail object of the UI: which recipient it shows, loading
//! it from the store, and the analysis of its sessions (safety number and
//! protocol versions).

use vstd::prelude::*;
use crate::codec::{parse_uuid, uuid_from_text, uuid_text, uuid_to_string};

verus! {

/// The session version from which sessions are post-quantum (Kyber-aware).
pub const KYBER_AWARE_MESSAGE_VERSION: u32 = 4;

/// What the object reads of a stored recipient.
#[derive(Clone, Copy, PartialEq, Eq, Debug)]
pub struct RecipientRecord {
    pub id: i32,
    /// The recipient's ACI, if known.
    pub uuid: Option<u128>,
}

/// A recipient together with what was found about its sessions.
pub struct RecipientWithAnalyzedSession {
    pub inner: RecipientRecord,
    /// The id of the direct-message session with this recipient, or -1.
    pub direct_message_recipient_id: i32,
    /// The safety number, once computed.
    pub fingerprint: Option<String>,
    /// For each device, its id and the version of its session.
    pub versions: Vec<(u32, u32)>,
}

/// All device sessions are at least Kyber-aware (vacuously so without any).
pub open spec fn all_post_quantum(versions: Seq<(u32, u32)>) -> bool {
    forall|i: int| 0 <= i < versions.len() ==> #[trigger] versions[i].1 >= KYBER_AWARE_MESSAGE_VERSION
}

impl RecipientWithAnalyzedSession {
    /// Whether every session with this recipient is post-quantum.
    pub fn session_is_post_quantum(&self) -> (r: bool)
        ensures
            r == all_post_quantum(self.versions@),
    {
        let n = self.versions.len();
        for i in 0..n
            invariant
                n == self.versions@.len(),
                forall|k: int| 0 <= k < i ==> #[trigger] self.versions@[k].1 >= KYBER_AWARE_MESSAGE_VERSION,
        {
            if self.versions[i].1 < KYBER_AWARE_MESSAGE_VERSION {
                return false;
            }
        }
        true
    }
}

/// The store lookup that loading the recipient needs.
#[derive(Clone, Copy, PartialEq, Eq, Debug)]
pub enum InitRequest {
    /// The recipient is loaded and no reload is forced: nothing to fetch.
    Keep,
    /// Fetch the recipient with this ACI.
    ByUuid(u128),
    /// Fetch the recipient with this id.
    ById(i32),
    /// Nothing identifies a recipient: the object shows none.
    Clear,
}

/// The recipient detail object.
pub struct RecipientImpl {
    pub recipient_id: Option<i32>,
    pub recipient_uuid: Option<u128>,
    pub recipient: Option<RecipientWithAnalyzedSession>,
    pub fingerprint_needed: bool,
    pub force_init: bool,
}

impl RecipientImpl {
    /// An object that shows no recipient.
    pub fn new() -> (r: Self)
        ensures
            r.recipient_id is None,
            r.recipient_uuid is None,
            r.recipient is None,
            !r.fingerprint_needed,
            !r.force_init,
    {
        RecipientImpl {
            recipient_id: None,
            recipient_uuid: None,
            recipient: None,
            fingerprint_needed: false,
            force_init: false,
        }
    }

    /// The id of the shown recipient, or -1.
    pub fn get_recipient_id(&self) -> (r: i32)
        ensures
            r == match self.recipient_id {
                Some(id) => id,
                None => -1i32,
            },
    {
        match self.recipient_id {
            Some(id) => id,
            None => -1,
        }
    }

    /// The UUID of the shown recipient in hyphenated form, or the empty text.
    pub fn get_recipient_uuid(&self) -> (r: String)
        ensures
            r@ == match self.recipient_uuid {
                Some(u) => uuid_text(u),
                None => Seq::empty(),
            },
    {
        match self.recipient_uuid {
            Some(u) => uuid_to_string(u),
            None => String::new(),
        }
    }

    /// Whether a recipient is selected and loaded.
    pub fn get_valid(&self) -> (r: bool)
        ensures
            r == (self.recipient_id is Some && self.recipient is Some),
    {
        self.recipient_id.is_some() && self.recipient.is_some()
    }

    /// Selects the recipient with id `id`; the UUID is then learned when
    /// loading. Returns whether the selection changed, in which case the
    /// recipient is to be loaded again.
    pub fn set_recipient_id(&mut self, id: i32) -> (changed: bool)
        ensures
            changed == (old(self).recipient_id != Some(id)),
            final(self).recipient_id == Some(id),
            changed ==> final(self).recipient_uuid is None,
            !changed ==> final(self).recipient_id == old(self).recipient_id
                && final(self).recipient_uuid == old(self).recipient_uuid,
            final(self).recipient == old(self).recipient,
            final(self).fingerprint_needed == old(self).fingerprint_needed,
            final(self).force_init == old(self).force_init,
    {
        if self.recipient_id == Some(id) {
            return false;
        }
        self.recipient_id = Some(id);
        self.recipient_uuid = None;
        true
    }

    /// Selects the recipient with the UUID written in `uuid`; an unparsable
    /// text selects none. The id is then learned when loading. Returns
    /// whether the selection changed (it does not when `uuid` is exactly the
    /// hyphenated form of the current UUID), in which case the recipient is
    /// to be loaded again.
    pub fn set_recipient_uuid(&mut self, uuid: &str) -> (changed: bool)
        ensures
            changed == !(old(self).recipient_uuid matches Some(u) && uuid_text(u) == uuid@),
            final(self).recipient_uuid == uuid_from_text(uuid@),
            forall|u: u128| uuid@ == uuid_text(u) ==> final(self).recipient_uuid == Some(u),
            changed ==> final(self).recipient_id is None,
            !changed ==> final(self).recipient_id == old(self).recipient_id
                && final(self).recipient_uuid == old(self).recipient_uuid,
            final(self).recipient == old(self).recipient,
            final(self).fingerprint_needed == old(self).fingerprint_needed,
            final(self).force_init == old(self).force_init,
    {
        let parsed = parse_uuid(uuid);
        proof {
            assert forall|u: u128| uuid@ == uuid_text(u) implies parsed == Some(u) by {
                crate::codec::lemma_uuid_text_round_trip(u);
            }
        }
        let same = match self.recipient_uuid {
            Some(u) => {
                let current = uuid_to_string(u);
                crate::text::same_text(current.as_str(), uuid)
            },
            None => false,
        };
        if same {
            proof {
                crate::codec::lemma_uuid_text_round_trip(self.recipient_uuid->0);
            }
            return false;
        }
        self.recipient_id = None;
        self.recipient_uuid = parsed;
        true
    }

    /// Records whether the safety number is wanted; when it is, the caller
    /// goes on to `fingerprint_request`.
    pub fn set_fingerprint_needed(&mut self, needed: bool)
        ensures
            final(self).fingerprint_needed == needed,
            final(self).recipient_id == old(self).recipient_id,
            final(self).recipient_uuid == old(self).recipient_uuid,
            final(self).recipient == old(self).recipient,
            final(self).force_init == old(self).force_init,
    {
        self.fingerprint_needed = needed;
    }

    pub fn get_fingerprint_needed(&self) -> (r: bool)
        ensures
            r == self.fingerprint_needed,
    {
        self.fingerprint_needed
    }
}

/// The lookup that loading needs in state `s`: none while a recipient is
/// loaded and no reload is forced; otherwise by UUID if one is set, else by
/// id if a non-negative one is set, else the recipient is cleared.
pub open spec fn init_request_of(s: &RecipientImpl) -> InitRequest {
    if s.recipient is None || s.force_init {
        match s.recipient_uuid {
            Some(u) => InitRequest::ByUuid(u),
            None => match s.recipient_id {
                Some(id) => if id >= 0 {
                    InitRequest::ById(id)
                } else {
                    InitRequest::Clear
                },
                None => InitRequest::Clear,
            },
        }
    } else {
        InitRequest::Keep
    }
}

/// A freshly loaded recipient, with its direct-message session if found.
pub open spec fn loaded(r: RecipientWithAnalyzedSession, inner: RecipientRecord, session: Option<i32>) -> bool {
    &&& r.inner == inner
    &&& r.direct_message_recipient_id == match session {
        Some(sid) => sid,
        None => -1i32,
    }
    &&& r.fingerprint is None
    &&& r.versions@.len() == 0
}

impl RecipientImpl {
    /// The store lookup that loading the recipient needs now.
    pub fn init_request(&self) -> (r: InitRequest)
        ensures
            r == init_request_of(self),
    {
        if self.recipient.is_none() || self.force_init {
            match self.recipient_uuid {
                Some(u) => InitRequest::ByUuid(u),
                None => match self.recipient_id {
                    Some(id) => if id >= 0 {
                        InitRequest::ById(id)
                    } else {
                        InitRequest::Clear
                    },
                    None => InitRequest::Clear,
                },
            }
        } else {
            InitRequest::Keep
        }
    }

    /// Completes loading after `request` was looked up: `found` is the
    /// recipient the store returned, with the id of its direct-message
    /// session if it has one. A recipient found by UUID sets the id; one
    /// found by id sets the UUID (the nil UUID when it has none). A forced
    /// reload is then done and drops the safety number. Returns whether the
    /// safety number is to be computed next.
    pub fn init_complete(&mut self, request: InitRequest, found: Option<(RecipientRecord, Option<i32>)>) -> (compute: bool)
        ensures
            compute == old(self).fingerprint_needed,
            final(self).fingerprint_needed == old(self).fingerprint_needed,
            !final(self).force_init,
            match request {
                InitRequest::Keep => {
                    &&& final(self).recipient_id == old(self).recipient_id
                    &&& final(self).recipient_uuid == old(self).recipient_uuid
                    &&& if old(self).force_init {
                        final(self).recipient matches Some(r) && old(self).recipient matches Some(o) && {
                            &&& r.inner == o.inner
                            &&& r.direct_message_recipient_id == o.direct_message_recipient_id
                            &&& r.fingerprint is None
                            &&& r.versions@ == o.versions@
                        } || (final(self).recipient is None && old(self).recipient is None)
                    } else {
                        final(self).recipient == old(self).recipient
                    }
                },
                InitRequest::Clear => {
                    &&& final(self).recipient is None
                    &&& final(self).recipient_id == old(self).recipient_id
                    &&& final(self).recipient_uuid == old(self).recipient_uuid
                },
                InitRequest::ByUuid(_) => match found {
                    Some((inner, session)) => {
                        &&& final(self).recipient matches Some(r) && loaded(r, inner, session)
                        &&& final(self).recipient_id == Some(inner.id)
                        &&& final(self).recipient_uuid == old(self).recipient_uuid
                    },
                    None => {
                        &&& final(self).recipient is None
                        &&& final(self).recipient_id == old(self).recipient_id
                        &&& final(self).recipient_uuid == old(self).recipient_uuid
                    },
                },
                InitRequest::ById(_) => match found {
                    Some((inner, session)) => {
                        &&& final(self).recipient matches Some(r) && loaded(r, inner, session)
                        &&& final(self).recipient_id == old(self).recipient_id
                        &&& final(self).recipient_uuid == Some(match inner.uuid {
                            Some(u) => u,
                            None => 0u128,
                        })
                    },
                    None => {
                        &&& final(self).recipient is None
                        &&& final(self).recipient_id == old(self).recipient_id
                        &&& final(self).recipient_uuid == old(self).recipient_uuid
                    },
                },
            },
    {
        match request {
            InitRequest::Keep => {},
            InitRequest::Clear => {
                self.recipient = None;
            },
            InitRequest::ByUuid(_) => {
                match found {
                    Some((inner, session)) => {
                        self.recipient_id = Some(inner.id);
                        self.recipient = Some(RecipientWithAnalyzedSession {
                            inner,
                            direct_message_recipient_id: match session {
                                Some(sid) => sid,
                                None => -1,
                            },
                            fingerprint: None,
                            versions: Vec::new(),
                        });
                    },
                    None => {
                        self.recipient = None;
                    },
                }
            },
            InitRequest::ById(_) => {
                match found {
                    Some((inner, session)) => {
                        self.recipient_uuid = Some(match inner.uuid {
                            Some(u) => u,
                            None => 0,
                        });
                        self.recipient = Some(RecipientWithAnalyzedSession {
                            inner,
                            direct_message_recipient_id: match session {
                                Some(sid) => sid,
                                None => -1,
                            },
                            fingerprint: None,
                            versions: Vec::new(),
                        });
                    },
                    None => {
                        self.recipient = None;
                    },
                }
            },
        }
        if self.force_init {
            self.force_init = false;
            match self.recipient.as_mut() {
                Some(r) => {
                    r.fingerprint = None;
                },
                None => {},
            }
        }
        self.fingerprint_needed
    }

    /// A change in the store was observed: the recipient is to be loaded
    /// again, whatever is loaded now.
    pub fn observe(&mut self) -> (r: InitRequest)
        ensures
            final(self).force_init,
            final(self).recipient_id == old(self).recipient_id,
            final(self).recipient_uuid == old(self).recipient_uuid,
            final(self).recipient == old(self).recipient,
            final(self).fingerprint_needed == old(self).fingerprint_needed,
            r == init_request_of(final(self)),
            !(r is Keep),
    {
        self.force_init = true;
        self.init_request()
    }

    /// The recipient (id and ACI) whose safety number is to be computed:
    /// only a loaded recipient with an ACI and no safety number yet.
    pub fn fingerprint_request(&self) -> (r: Option<(i32, u128)>)
        ensures
            r == match self.recipient {
                Some(rec) => if rec.fingerprint is Some {
                    None
                } else {
                    match rec.inner.uuid {
                        Some(u) => Some((rec.inner.id, u)),
                        None => None,
                    }
                },
                None => None,
            },
    {
        match &self.recipient {
            None => None,
            Some(rec) => {
                if rec.fingerprint.is_some() {
                    None
                } else {
                    match rec.inner.uuid {
                        Some(u) => Some((rec.inner.id, u)),
                        None => None,
                    }
                }
            },
        }
    }

    /// Stores the analysis of a recipient's sessions, if that recipient is
    /// still the one shown.
    pub fn session_analyzed(&mut self, recipient_id: i32, fingerprint: String, versions: Vec<(u32, u32)>)
        ensures
            final(self).recipient_id == old(self).recipient_id,
            final(self).recipient_uuid == old(self).recipient_uuid,
            final(self).fingerprint_needed == old(self).fingerprint_needed,
            final(self).force_init == old(self).force_init,
            match old(self).recipient {
                Some(o) => if o.inner.id == recipient_id {
                    final(self).recipient matches Some(r) && {
                        &&& r.inner == o.inner
                        &&& r.direct_message_recipient_id == o.direct_message_recipient_id
                        &&& r.fingerprint matches Some(f) && f@ == fingerprint@
                        &&& r.versions@ == versions@
                    }
                } else {
                    final(self).recipient == old(self).recipient
                },
                None => final(self).recipient is None,
            },
    {
        match self.recipient.as_mut() {
            Some(r) => {
                if r.inner.id == recipient_id {
                    r.fingerprint = Some(fingerprint);
                    r.versions = versions;
                }
            },
            None => {},
        }
    }
}

/// The version with which a device session is recorded: the session's own
/// version, or 0 when the device has no session.
pub fn device_session_version(version: Option<u32>) -> (r: u32)
    ensures
        r == match version {
            Some(v) => v,
            None => 0u32,
        },
{
    match version {
        Some(v) => v,
        None => 0,
    }
}

/// Device sessions as the store loaded them, in the order it listed the
/// devices: the device id and the version of its session, if it has one.
pub open spec fn device_versions_of(loaded: Seq<(u32, Option<u32>)>) -> Seq<(u32, u32)> {
    loaded.map_values(|p: (u32, Option<u32>)| (p.0, match p.1 {
        Some(v) => v,
        None => 0u32,
    }))
}

/// The versions list of a session analysis: for each device, in order, its
/// id and the version of its session, 0 when it has none.
pub fn device_versions(loaded: &Vec<(u32, Option<u32>)>) -> (r: Vec<(u32, u32)>)
    ensures
        r@ == device_versions_of(loaded@),
{
    let mut out: Vec<(u32, u32)> = Vec::new();
    let n = loaded.len();
    for i in 0..n
        invariant
            n == loaded@.len(),
            out@ == device_versions_of(loaded@.take(i as int)),
    {
        let (device, version) = loaded[i];
        proof {
            assert(loaded@.take(i + 1) == loaded@.take(i as int).push(loaded@[i as int]));
            assert(device_versions_of(loaded@.take(i + 1)) == device_versions_of(loaded@.take(i as int)).push(
                (device, match version {
                    Some(v) => v,
                    None => 0u32,
                }),
            ));
        }
        out.push((device, device_session_version(version)));
    }
    proof {
        assert(loaded@.take(n as int) == loaded@);
    }
    out
}

/// The outcome of analysing a recipient's sessions.
pub struct SessionAnalyzed {
    pub recipient_id: i32,
    pub fingerprint: String,
    pub versions: Vec<(u32, u32)>,
}

/// The analysis to report for recipient `recipient_id`: its safety number
/// and the versions list of the device sessions loaded for it.
pub fn analyze_sessions(recipient_id: i32, fingerprint: String, loaded: &Vec<(u32, Option<u32>)>) -> (r: SessionAnalyzed)
    ensures
        r.recipient_id == recipient_id,
        r.fingerprint@ == fingerprint@,
        r.versions@ == device_versions_of(loaded@),
{
    SessionAnalyzed { recipient_id, fingerprint, versions: device_versions(loaded) }
}

/// The list model of recipients.
pub struct RecipientListModel {
    pub content: Vec<RecipientRecord>,
}

impl RecipientListModel {
    pub fn new() -> (r: Self)
        ensures
            r.content@.len() == 0,
    {
        RecipientListModel { content: Vec::new() }
    }

    /// Number of recipients, as the `i32` row count of the list (an `as`
    /// conversion).
    pub fn row_count(&self) -> (r: i32)
        ensures
            r == self.content@.len() as i32,
    {
        #[verifier::truncate]
        let r = self.content.len() as i32;
        r
    }
}

} // verus!
