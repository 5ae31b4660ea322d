//! Scheduling of profile refreshes: which outdated profile to fetch next,
//! and when to look again.

use std::collections::HashMap;
use vstd::prelude::*;
use vstd::std_specs::iter::IteratorSpec;
use crate::codec::{parse_uuid, uuid_from_text};

verus! {

broadcast use vstd::std_specs::hash::group_hash_axioms;

/// The smallest value of a map, if it has any entry.
pub open spec fn is_min_value(m: Map<u128, u64>, r: Option<u64>) -> bool {
    match r {
        None => forall|k: u128| !m.contains_key(k),
        Some(d) => {
            &&& exists|k: u128| #[trigger] m.contains_key(k) && m[k] == d
            &&& forall|k: u128| #[trigger] m.contains_key(k) ==> d <= m[k]
        },
    }
}

/// The earliest deadline held in an ignore map.
pub fn min_deadline(m: &HashMap<u128, u64>) -> (r: Option<u64>)
    ensures
        is_min_value(m@, r),
{
    let ghost s = vstd::std_specs::hash::spec_hash_map_iter(m).remaining();
    let mut best: Option<u64> = None;
    let ghost mut seen: int = 0;
    for e in it: m.iter()
        invariant
            it.seq() == s,
            seen == it.index(),
            match best {
                None => it.index() == 0,
                Some(d) => {
                    &&& exists|j: int| 0 <= j < it.index() && *it.seq()[j].1 == d
                    &&& forall|j: int| 0 <= j < it.index() ==> d <= *#[trigger] it.seq()[j].1
                },
            },
    {
        let v = *e.1;
        match best {
            None => { best = Some(v); },
            Some(d) => { if v < d { best = Some(v); } },
        }
        proof { seen = seen + 1; }
    }
    proof {
        assert(seen == s.len());
        assert forall|k: u128| #[trigger] m@.contains_key(k) implies s.contains((&k, &m@[k])) by {}
        match best {
            None => {}
            Some(d) => {
                let j = choose|j: int| 0 <= j < seen && *s[j].1 == d;
                let k = *s[j].0;
                assert(m@.contains_key(k) && m@[k] == d);
                assert forall|k2: u128| #[trigger] m@.contains_key(k2) implies d <= m@[k2] by {
                    assert(s.contains((&k2, &m@[k2])));
                    let i = choose|i: int| 0 <= i < s.len() && s[i] == (&k2, &m@[k2]);
                    assert(d <= *s[i].1);
                }
            }
        }
    }
    best
}

/// The entries of an ignore map whose deadline lies after `now`.
pub open spec fn still_ignored(m: Map<u128, u64>, now: u64) -> Map<u128, u64> {
    Map::new(|k: u128| m.contains_key(k) && m[k] > now, |k: u128| m[k])
}

/// A copy of `m` without the entries whose deadline has passed.
pub fn retain_pending(m: &HashMap<u128, u64>, now: u64) -> (r: HashMap<u128, u64>)
    ensures
        r@ == still_ignored(m@, now),
{
    let ghost s = vstd::std_specs::hash::spec_hash_map_iter(m).remaining();
    let mut kept: HashMap<u128, u64> = HashMap::new();
    let ghost mut seen: int = 0;
    for e in it: m.iter()
        invariant
            it.seq() == s,
            seen == it.index(),
            s.no_duplicates(),
            forall|k: u128| #[trigger] kept@.contains_key(k) <==>
                (exists|j: int| 0 <= j < seen && *s[j].0 == k && *s[j].1 > now),
            forall|j: int| 0 <= j < seen && *s[j].1 > now ==> kept@.contains_key(*#[trigger] s[j].0)
                && kept@[*s[j].0] == *s[j].1,
            forall|i: int| #![trigger s[i]] 0 <= i < s.len() ==> m@.contains_key(*s[i].0) && m@[*s[i].0] == *s[i].1,
    {
        let k = *e.0;
        let v = *e.1;
        if v > now {
            kept.insert(k, v);
        }
        proof {
            assert(s[seen] == e);
            assert forall|j: int| 0 <= j < seen && *s[j].0 == k implies false by {
                assert(m@[*s[j].0] == *s[j].1);
            }
            seen = seen + 1;
        }
    }
    proof {
        assert forall|k: u128| #[trigger] m@.contains_key(k) implies s.contains((&k, &m@[k])) by {}
        assert forall|k: u128| #[trigger] kept@.contains_key(k) == still_ignored(m@, now).contains_key(k) by {
            if m@.contains_key(k) {
                assert(s.contains((&k, &m@[k])));
            }
        }
        assert forall|k: u128| #[trigger] kept@.contains_key(k) implies kept@[k] == m@[k] by {
            let j = choose|j: int| 0 <= j < seen && *s[j].0 == k && *s[j].1 > now;
        }
        assert(kept@ == still_ignored(m@, now));
    }
    kept
}

/// How long a yielded profile is kept back before it may be yielded again:
/// five minutes, in milliseconds.
pub const REYIELD_DELAY_MS: u64 = 300_000;

/// A recipient row that may need a profile refresh, as the store lists it
/// (least recently fetched first).
pub struct ProfileCandidate {
    pub uuid: Option<String>,
    pub profile_key: Option<Vec<u8>>,
}

/// A profile to refresh: the recipient's UUID and its 32-byte profile key.
pub struct OutdatedProfile(pub u128, pub Vec<u8>);

/// The UUID of a candidate, if it has one that parses.
pub open spec fn candidate_uuid(c: ProfileCandidate) -> Option<u128> {
    match c.uuid {
        Some(t) => uuid_from_text(t@),
        None => None,
    }
}

/// The candidate holds a profile key of the right length.
pub open spec fn candidate_key_ok(c: ProfileCandidate) -> bool {
    c.profile_key matches Some(k) && k@.len() == 32
}

/// Where a scan over the candidates stops.
#[derive(PartialEq, Eq)]
pub enum ScanStep {
    /// The candidate at this index is yielded.
    Yield(usize),
    /// No candidate is due.
    Exhausted,
    /// The candidate at this index has no UUID, or one that does not parse.
    Malformed(usize),
}

/// The scan from index `i`: candidates are inspected in order; one without a
/// valid UUID stops the scan, one without a 32-byte key or still ignored is
/// skipped, the first other one is yielded.
pub open spec fn scan_from(ignored: Map<u128, u64>, c: Seq<ProfileCandidate>, i: int) -> ScanStep
    decreases c.len() - i,
{
    if i < 0 || i >= c.len() {
        ScanStep::Exhausted
    } else {
        match candidate_uuid(c[i]) {
            None => ScanStep::Malformed(i as usize),
            Some(u) => if candidate_key_ok(c[i]) && !ignored.contains_key(u) {
                ScanStep::Yield(i as usize)
            } else {
                scan_from(ignored, c, i + 1)
            },
        }
    }
}

/// The result of scanning for an outdated profile.
pub enum ScanResult {
    Yield(OutdatedProfile),
    Exhausted,
    Malformed(usize),
}

/// The wake-up that the stream arranges when nothing is due.
#[derive(Clone, Copy, PartialEq, Eq, Debug)]
pub enum NextWake {
    /// At this deadline of the ignore map (stream clock, milliseconds).
    At(u64),
    /// After this many milliseconds.
    After(u64),
}

/// State of the stream of outdated profiles: the UUIDs yielded recently,
/// each with the time after which it may be yielded again, and the planned
/// wake-up.
pub struct OutdatedProfileStream {
    ignore_map: HashMap<u128, u64>,
    next_wake: Option<NextWake>,
}

impl View for OutdatedProfileStream {
    type V = Map<u128, u64>;

    closed spec fn view(&self) -> Map<u128, u64> {
        self.ignore_map@
    }
}

impl OutdatedProfileStream {
    /// The wake-up planned last.
    pub closed spec fn planned_wake(&self) -> Option<NextWake> {
        self.next_wake
    }

    /// The wake-up planned last.
    pub fn next_wake(&self) -> (r: Option<NextWake>)
        ensures
            r == self.planned_wake(),
    {
        self.next_wake
    }

    /// A stream that ignores nothing and plans no wake-up.
    pub fn new() -> (r: Self)
        ensures
            r@ == Map::<u128, u64>::empty(),
            r.planned_wake() is None,
    {
        OutdatedProfileStream { ignore_map: HashMap::new(), next_wake: None }
    }

    /// Forgets the UUIDs whose delay has passed at `now`.
    pub fn clean_ignore_set(&mut self, now: u64)
        ensures
            final(self)@ == still_ignored(old(self)@, now),
            final(self).planned_wake() == old(self).planned_wake(),
    {
        let kept = retain_pending(&self.ignore_map, now);
        self.ignore_map = kept;
    }

    /// Where a scan of the candidates would stop, without changing anything.
    pub fn scan_position(&self, candidates: &Vec<ProfileCandidate>) -> (r: ScanStep)
        ensures
            r == scan_from(self@, candidates@, 0),
    {
        let n = candidates.len();
        let mut i: usize = 0;
        while i < n
            invariant
                n == candidates@.len(),
                i <= n,
                scan_from(self@, candidates@, 0) == scan_from(self@, candidates@, i as int),
            decreases n - i,
        {
            let c = &candidates[i];
            let u = match &c.uuid {
                Some(t) => parse_uuid(t.as_str()),
                None => None,
            };
            match u {
                None => {
                    return ScanStep::Malformed(i);
                },
                Some(u) => {
                    let key_ok = match &c.profile_key {
                        Some(k) => k.len() == 32,
                        None => false,
                    };
                    if key_ok && !self.ignore_map.contains_key(&u) {
                        return ScanStep::Yield(i);
                    }
                },
            }
            i = i + 1;
        }
        ScanStep::Exhausted
    }

    /// One poll of the stream at time `now` over the candidates the store
    /// listed: forget the UUIDs whose delay has passed, then yield the first
    /// candidate due. `None` when a candidate that the scan reaches has no
    /// valid UUID (the store broke its own rule); the expired entries are
    /// forgotten all the same.
    pub fn poll_profiles(&mut self, candidates: &Vec<ProfileCandidate>, now: u64) -> (r: Option<Option<OutdatedProfile>>)
        requires
            now <= u64::MAX - REYIELD_DELAY_MS,
        ensures
            final(self).planned_wake() == old(self).planned_wake(),
            match poll_step(old(self)@, now, candidates@) {
                ScanStep::Malformed(_) => r is None && final(self)@ == still_ignored(old(self)@, now),
                ScanStep::Yield(i) => r matches Some(Some(p)) && {
                    &&& candidate_uuid(candidates@[i as int]) == Some(p.0)
                    &&& candidates@[i as int].profile_key->0@ == p.1@
                    &&& final(self)@ == after_poll(old(self)@, now, candidates@)
                },
                ScanStep::Exhausted => r == Some(None::<OutdatedProfile>) && final(self)@ == after_poll(old(self)@, now, candidates@),
            },
    {
        self.clean_ignore_set(now);
        match self.scan_position(candidates) {
            ScanStep::Malformed(_) => None,
            _ => Some(self.next_out_of_date_profile(candidates, now)),
        }
    }

    /// Scans the candidates for the first one due for a refresh; a yielded
    /// UUID is ignored until `now` plus the delay.
    pub fn scan_out_of_date_profiles(&mut self, candidates: &Vec<ProfileCandidate>, now: u64) -> (r: ScanResult)
        requires
            now <= u64::MAX - REYIELD_DELAY_MS,
        ensures
            final(self).planned_wake() == old(self).planned_wake(),
            match scan_from(old(self)@, candidates@, 0) {
                ScanStep::Yield(i) => r matches ScanResult::Yield(p) && {
                    &&& candidate_uuid(candidates@[i as int]) == Some(p.0)
                    &&& candidates@[i as int].profile_key->0@ == p.1@
                    &&& final(self)@ == old(self)@.insert(p.0, (now + REYIELD_DELAY_MS) as u64)
                },
                ScanStep::Exhausted => r is Exhausted && final(self)@ == old(self)@,
                ScanStep::Malformed(i) => r == ScanResult::Malformed(i) && final(self)@ == old(self)@,
            },
    {
        let n = candidates.len();
        let mut i: usize = 0;
        while i < n
            invariant
                n == candidates@.len(),
                i <= n,
                self@ == old(self)@,
                self.planned_wake() == old(self).planned_wake(),
                now <= u64::MAX - REYIELD_DELAY_MS,
                scan_from(old(self)@, candidates@, 0) == scan_from(old(self)@, candidates@, i as int),
            decreases n - i,
        {
            let c = &candidates[i];
            let u = match &c.uuid {
                Some(t) => parse_uuid(t.as_str()),
                None => None,
            };
            match u {
                None => {
                    return ScanResult::Malformed(i);
                },
                Some(u) => {
                    let key_ok = match &c.profile_key {
                        Some(k) => k.len() == 32,
                        None => false,
                    };
                    if key_ok && !self.ignore_map.contains_key(&u) {
                        let key = c.profile_key.as_ref().unwrap().clone();
                        proof {
                            assert(key@ == c.profile_key->0@);
                        }
                        self.ignore_map.insert(u, now + REYIELD_DELAY_MS);
                        return ScanResult::Yield(OutdatedProfile(u, key));
                    }
                },
            }
            i = i + 1;
        }
        ScanResult::Exhausted
    }

    /// The next profile due for a refresh, if any. The candidates up to the
    /// one yielded must carry a UUID that parses.
    pub fn next_out_of_date_profile(&mut self, candidates: &Vec<ProfileCandidate>, now: u64) -> (r: Option<OutdatedProfile>)
        requires
            now <= u64::MAX - REYIELD_DELAY_MS,
            !(scan_from(old(self)@, candidates@, 0) is Malformed),
        ensures
            final(self).planned_wake() == old(self).planned_wake(),
            match scan_from(old(self)@, candidates@, 0) {
                ScanStep::Yield(i) => r matches Some(p) && {
                    &&& candidate_uuid(candidates@[i as int]) == Some(p.0)
                    &&& candidates@[i as int].profile_key->0@ == p.1@
                    &&& final(self)@ == old(self)@.insert(p.0, (now + REYIELD_DELAY_MS) as u64)
                },
                _ => r is None && final(self)@ == old(self)@,
            },
    {
        match self.scan_out_of_date_profiles(candidates, now) {
            ScanResult::Yield(p) => Some(p),
            _ => None,
        }
    }

    /// Plans a wake-up at the earliest deadline of the ignore map; returns
    /// whether there was one.
    pub fn wake_for_ignored(&mut self) -> (r: bool)
        ensures
            final(self)@ == old(self)@,
            r == !(old(self)@ =~= Map::<u128, u64>::empty()),
            r ==> (final(self).planned_wake() matches Some(NextWake::At(d)) && is_min_value(old(self)@, Some(d))),
            !r ==> final(self).planned_wake() == old(self).planned_wake(),
    {
        match min_deadline(&self.ignore_map) {
            Some(d) => {
                self.next_wake = Some(NextWake::At(d));
                true
            },
            None => {
                proof {
                    assert(self@ =~= Map::<u128, u64>::empty());
                }
                false
            },
        }
    }

    /// Plans a wake-up from the least recently fetched profile the store
    /// knows, if there is one; returns whether it did.
    pub fn wake_for_last_fetch(&mut self, now: i64, last_fetch: Option<i64>) -> (r: bool)
        ensures
            final(self)@ == old(self)@,
            r == (last_fetch is Some),
            match last_fetch {
                Some(t) => final(self).planned_wake() == Some(NextWake::After(wake_delay(now, t))),
                None => final(self).planned_wake() == old(self).planned_wake(),
            },
    {
        match last_fetch {
            Some(t) => {
                self.next_wake = Some(NextWake::After(compute_wake_delay(now, t)));
                true
            },
            None => false,
        }
    }
}

/// The delay before looking again, given the time of the least recent
/// fetch: the time elapsed since that fetch, or the re-yield delay when the
/// fetch lies in the future.
pub open spec fn wake_delay(now: i64, last_fetch: i64) -> u64 {
    if now >= last_fetch {
        (now - last_fetch) as u64
    } else {
        REYIELD_DELAY_MS
    }
}

/// Computes `wake_delay`.
pub fn compute_wake_delay(now: i64, last_fetch: i64) -> (r: u64)
    ensures
        r == wake_delay(now, last_fetch),
{
    if now >= last_fetch {
        let d: i128 = now as i128 - last_fetch as i128;
        d as u64
    } else {
        REYIELD_DELAY_MS
    }
}

/// Where the scan of a poll at time `t` stops, from ignore map `m`.
pub open spec fn poll_step(m: Map<u128, u64>, t: u64, c: Seq<ProfileCandidate>) -> ScanStep {
    scan_from(still_ignored(m, t), c, 0)
}

/// The ignore map after a poll at time `t`: expired entries forgotten, and
/// the yielded UUID, if any, ignored until `t` plus the delay.
pub open spec fn after_poll(m: Map<u128, u64>, t: u64, c: Seq<ProfileCandidate>) -> Map<u128, u64> {
    let m1 = still_ignored(m, t);
    match scan_from(m1, c, 0) {
        ScanStep::Yield(i) => m1.insert(candidate_uuid(c[i as int])->0, (t + REYIELD_DELAY_MS) as u64),
        _ => m1,
    }
}

/// The ignore map after the first `n` polls of a run starting from `m0`,
/// the poll `k` at time `times[k]` over the candidates `cands[k]`.
pub open spec fn run_map(m0: Map<u128, u64>, times: Seq<u64>, cands: Seq<Seq<ProfileCandidate>>, n: nat) -> Map<u128, u64>
    decreases n,
{
    if n == 0 {
        m0
    } else {
        after_poll(run_map(m0, times, cands, (n - 1) as nat), times[n - 1], cands[n - 1])
    }
}

/// The UUID yielded by poll `k` of the run, if any.
pub open spec fn yielded_at(m0: Map<u128, u64>, times: Seq<u64>, cands: Seq<Seq<ProfileCandidate>>, k: nat) -> Option<u128> {
    match poll_step(run_map(m0, times, cands, k), times[k as int], cands[k as int]) {
        ScanStep::Yield(i) => candidate_uuid(cands[k as int][i as int]),
        _ => None,
    }
}

/// Over any run of polls, a UUID yielded by poll `i` is yielded again by a
/// later poll `j` only if some poll after `i`, up to `j`, happens at least
/// the delay after poll `i`: in between, the UUID stays ignored.
pub proof fn lemma_reyield_needs_delay(
    m0: Map<u128, u64>,
    times: Seq<u64>,
    cands: Seq<Seq<ProfileCandidate>>,
    i: nat,
    j: nat,
    u: u128,
)
    requires
        times.len() == cands.len(),
        i < j < times.len(),
        forall|k: int| 0 <= k < times.len() ==> #[trigger] times[k] <= u64::MAX - REYIELD_DELAY_MS,
        forall|k: int| 0 <= k < cands.len() ==> #[trigger] cands[k].len() <= usize::MAX,
        yielded_at(m0, times, cands, i) == Some(u),
        yielded_at(m0, times, cands, j) == Some(u),
    ensures
        exists|l: int| i < l <= j && times[l] >= times[i as int] + REYIELD_DELAY_MS,
{
    let d = (times[i as int] + REYIELD_DELAY_MS) as u64;
    if forall|l: int| i < l <= j ==> times[l] < d {
        lemma_entry_kept(m0, times, cands, i, j, u, d);
        let m = run_map(m0, times, cands, j);
        assert(still_ignored(m, times[j as int]).contains_key(u));
        lemma_scan_skips_ignored(still_ignored(m, times[j as int]), cands[j as int], 0, u);
    }
}

/// Over any run of polls with non-decreasing times, a UUID is yielded at
/// most once every five minutes: two polls that yield the same UUID lie at
/// least the delay apart, however many polls come between them.
pub proof fn lemma_yields_at_most_once_per_delay(
    m0: Map<u128, u64>,
    times: Seq<u64>,
    cands: Seq<Seq<ProfileCandidate>>,
    i: nat,
    j: nat,
    u: u128,
)
    requires
        times.len() == cands.len(),
        i < j < times.len(),
        forall|k: int| 0 <= k < times.len() ==> #[trigger] times[k] <= u64::MAX - REYIELD_DELAY_MS,
        forall|k: int, l: int| 0 <= k <= l < times.len() ==> times[k] <= times[l],
        forall|k: int| 0 <= k < cands.len() ==> #[trigger] cands[k].len() <= usize::MAX,
        yielded_at(m0, times, cands, i) == Some(u),
        yielded_at(m0, times, cands, j) == Some(u),
    ensures
        times[j as int] >= times[i as int] + REYIELD_DELAY_MS,
{
    lemma_reyield_needs_delay(m0, times, cands, i, j, u);
    let l = choose|l: int| i < l <= j && times[l] >= times[i as int] + REYIELD_DELAY_MS;
    assert(times[l] <= times[j as int]);
}

/// After poll `i` yields `u`, the entry `u` with deadline `d` (the poll's
/// time plus the delay) stays in the map through every later poll up to
/// `k`, as long as those polls happen before `d`.
proof fn lemma_entry_kept(
    m0: Map<u128, u64>,
    times: Seq<u64>,
    cands: Seq<Seq<ProfileCandidate>>,
    i: nat,
    k: nat,
    u: u128,
    d: u64,
)
    requires
        times.len() == cands.len(),
        i < k < times.len(),
        d == times[i as int] + REYIELD_DELAY_MS,
        forall|l: int| 0 <= l < times.len() ==> #[trigger] times[l] <= u64::MAX - REYIELD_DELAY_MS,
        forall|l: int| 0 <= l < cands.len() ==> #[trigger] cands[l].len() <= usize::MAX,
        forall|l: int| i < l <= k ==> times[l] < d,
        yielded_at(m0, times, cands, i) == Some(u),
    ensures
        run_map(m0, times, cands, k).contains_key(u),
        run_map(m0, times, cands, k)[u] == d,
    decreases k,
{
    if k == i + 1 {
        let m = run_map(m0, times, cands, i);
        let m1 = still_ignored(m, times[i as int]);
        assert(run_map(m0, times, cands, k) == after_poll(m, times[i as int], cands[i as int]));
        match scan_from(m1, cands[i as int], 0) {
            ScanStep::Yield(x) => {
                assert(candidate_uuid(cands[i as int][x as int]) == Some(u));
            },
            _ => {},
        }
    } else {
        let k1 = (k - 1) as nat;
        assert(times[k1 as int] < d);
        lemma_entry_kept(m0, times, cands, i, k1, u, d);
        let m = run_map(m0, times, cands, k1);
        let m1 = still_ignored(m, times[k1 as int]);
        assert(m1.contains_key(u) && m1[u] == d);
        lemma_scan_skips_ignored(m1, cands[k1 as int], 0, u);
        assert(run_map(m0, times, cands, k) == after_poll(m, times[k1 as int], cands[k1 as int]));
        match scan_from(m1, cands[k1 as int], 0) {
            ScanStep::Yield(x) => {
                assert(candidate_uuid(cands[k1 as int][x as int]) != Some(u));
                lemma_scan_yield_has_uuid(m1, cands[k1 as int], 0);
            },
            _ => {},
        }
    }
}

/// A yielded candidate has a valid UUID.
proof fn lemma_scan_yield_has_uuid(m: Map<u128, u64>, c: Seq<ProfileCandidate>, i: int)
    requires
        c.len() <= usize::MAX,
    ensures
        scan_from(m, c, i) matches ScanStep::Yield(j) ==> candidate_uuid(c[j as int]) is Some,
    decreases c.len() - i,
{
    if 0 <= i < c.len() {
        lemma_scan_yield_has_uuid(m, c, i + 1);
    }
}

/// A UUID that was yielded at `now` is not yielded again before the delay
/// has passed: at any time `t` earlier than `now` plus the delay, cleaning
/// the ignore set keeps it, and no scan yields it.
pub proof fn lemma_no_reyield_within_delay(
    ignored: Map<u128, u64>,
    u: u128,
    now: u64,
    t: u64,
    c: Seq<ProfileCandidate>,
)
    requires
        now <= u64::MAX - REYIELD_DELAY_MS,
        t < now + REYIELD_DELAY_MS,
        c.len() <= usize::MAX,
    ensures
        still_ignored(ignored.insert(u, (now + REYIELD_DELAY_MS) as u64), t).contains_key(u),
        scan_from(still_ignored(ignored.insert(u, (now + REYIELD_DELAY_MS) as u64), t), c, 0) matches
            ScanStep::Yield(j) ==> candidate_uuid(c[j as int]) != Some(u),
{
    let m = still_ignored(ignored.insert(u, (now + REYIELD_DELAY_MS) as u64), t);
    lemma_scan_skips_ignored(m, c, 0, u);
}

/// Once the delay has passed, cleaning forgets the UUID again.
pub proof fn lemma_forgotten_after_delay(ignored: Map<u128, u64>, u: u128, now: u64, t: u64)
    requires
        now <= u64::MAX - REYIELD_DELAY_MS,
        t >= now + REYIELD_DELAY_MS,
    ensures
        !still_ignored(ignored.insert(u, (now + REYIELD_DELAY_MS) as u64), t).contains_key(u),
{
}

/// A scan never yields a candidate whose UUID is ignored.
proof fn lemma_scan_skips_ignored(m: Map<u128, u64>, c: Seq<ProfileCandidate>, i: int, u: u128)
    requires
        m.contains_key(u),
        c.len() <= usize::MAX,
    ensures
        scan_from(m, c, i) matches ScanStep::Yield(j) ==> candidate_uuid(c[j as int]) != Some(u),
    decreases c.len() - i,
{
    if 0 <= i < c.len() {
        lemma_scan_skips_ignored(m, c, i + 1, u);
    }
}

/// Where a scan stops, from index `i0` on: at the first candidate that has
/// no valid UUID (`Malformed`), or at the first one with a valid UUID, a
/// 32-byte key and no ignore entry (`Yield`), every candidate before it
/// having a valid UUID but lacking such a key or being ignored; and only
/// when there is neither does it report `Exhausted`.
proof fn lemma_scan_outcome_from(ignored: Map<u128, u64>, c: Seq<ProfileCandidate>, i0: int)
    requires
        0 <= i0 <= c.len(),
        c.len() <= usize::MAX,
    ensures
        match scan_from(ignored, c, i0) {
            ScanStep::Yield(i) => {
                &&& i0 <= i < c.len()
                &&& c[i as int].uuid matches Some(t) && uuid_from_text(t@) matches Some(u)
                    && !ignored.contains_key(u)
                &&& c[i as int].profile_key matches Some(key) && key@.len() == 32
                &&& forall|k: int| i0 <= k < i ==> ((#[trigger] c[k]).uuid matches Some(t) && uuid_from_text(t@) matches Some(u)
                    && !(c[k].profile_key matches Some(key) && key@.len() == 32 && !ignored.contains_key(u)))
            },
            ScanStep::Exhausted => forall|k: int| i0 <= k < c.len() ==> ((#[trigger] c[k]).uuid matches Some(t)
                && uuid_from_text(t@) matches Some(u)
                && !(c[k].profile_key matches Some(key) && key@.len() == 32 && !ignored.contains_key(u))),
            ScanStep::Malformed(i) => {
                &&& i0 <= i < c.len()
                &&& !(c[i as int].uuid matches Some(t) && uuid_from_text(t@) is Some)
                &&& forall|k: int| i0 <= k < i ==> ((#[trigger] c[k]).uuid matches Some(t) && uuid_from_text(t@) matches Some(u)
                    && !(c[k].profile_key matches Some(key) && key@.len() == 32 && !ignored.contains_key(u)))
            },
        },
    decreases c.len() - i0,
{
    if i0 < c.len() {
        lemma_scan_outcome_from(ignored, c, i0 + 1);
    }
}

/// What a scan of the candidates gives: it stops at the first candidate
/// without a valid UUID, or yields the first one with a valid UUID, a
/// 32-byte key and no ignore entry, having passed over only candidates
/// with a valid UUID that lack such a key or are ignored; it reports
/// nothing due only when every candidate has a valid UUID and none is due.
pub proof fn lemma_scan_outcome(ignored: Map<u128, u64>, c: Seq<ProfileCandidate>)
    requires
        c.len() <= usize::MAX,
    ensures
        match scan_from(ignored, c, 0) {
            ScanStep::Yield(i) => {
                &&& i < c.len()
                &&& c[i as int].uuid matches Some(t) && uuid_from_text(t@) matches Some(u)
                    && !ignored.contains_key(u)
                &&& c[i as int].profile_key matches Some(key) && key@.len() == 32
                &&& forall|k: int| 0 <= k < i ==> ((#[trigger] c[k]).uuid matches Some(t) && uuid_from_text(t@) matches Some(u)
                    && !(c[k].profile_key matches Some(key) && key@.len() == 32 && !ignored.contains_key(u)))
            },
            ScanStep::Exhausted => forall|k: int| 0 <= k < c.len() ==> ((#[trigger] c[k]).uuid matches Some(t)
                && uuid_from_text(t@) matches Some(u)
                && !(c[k].profile_key matches Some(key) && key@.len() == 32 && !ignored.contains_key(u))),
            ScanStep::Malformed(i) => {
                &&& i < c.len()
                &&& !(c[i as int].uuid matches Some(t) && uuid_from_text(t@) is Some)
                &&& forall|k: int| 0 <= k < i ==> ((#[trigger] c[k]).uuid matches Some(t) && uuid_from_text(t@) matches Some(u)
                    && !(c[k].profile_key matches Some(key) && key@.len() == 32 && !ignored.contains_key(u)))
            },
        },
{
    lemma_scan_outcome_from(ignored, c, 0);
}

/// No candidate that is due is passed over: if candidate `j` has a valid
/// UUID, a 32-byte key and no ignore entry, and every candidate before it
/// has a valid UUID, the scan yields a candidate at or before `j`.
pub proof fn lemma_scan_reaches_due_candidate(ignored: Map<u128, u64>, c: Seq<ProfileCandidate>, j: int)
    requires
        0 <= j < c.len(),
        c.len() <= usize::MAX,
        forall|k: int| 0 <= k <= j ==> ((#[trigger] c[k]).uuid matches Some(t) && uuid_from_text(t@) is Some),
        c[j].uuid matches Some(t) && uuid_from_text(t@) matches Some(u) && !ignored.contains_key(u),
        c[j].profile_key matches Some(key) && key@.len() == 32,
    ensures
        scan_from(ignored, c, 0) matches ScanStep::Yield(i) && i <= j,
{
    lemma_scan_outcome(ignored, c);
    match scan_from(ignored, c, 0) {
        ScanStep::Yield(i) => {
            if i > j {
                assert(!(c[j].profile_key matches Some(key) && key@.len() == 32
                    && !ignored.contains_key(uuid_from_text(c[j].uuid->0@)->0)));
            }
        },
        ScanStep::Exhausted => {
            assert(!(c[j].profile_key matches Some(key) && key@.len() == 32
                && !ignored.contains_key(uuid_from_text(c[j].uuid->0@)->0)));
        },
        ScanStep::Malformed(i) => {
            if i > j {
                assert(!(c[j].profile_key matches Some(key) && key@.len() == 32
                    && !ignored.contains_key(uuid_from_text(c[j].uuid->0@)->0)));
            } else {
                assert(c[i as int].uuid matches Some(t) && uuid_from_text(t@) is Some);
            }
        },
    }
}

} // verus!
