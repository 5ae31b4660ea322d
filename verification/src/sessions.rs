//! The list of conversations shown in the session overview.

use vstd::prelude::*;

verus! {

/// What the session list reads of a conversation.
#[derive(Clone, Copy, Debug, PartialEq, Eq)]
pub struct SessionSummary {
    pub id: i32,
    pub is_pinned: bool,
    pub is_read: bool,
}

/// Sessions whose pinned flag equals `pinned`, in their original order.
pub open spec fn with_pinned(s: Seq<SessionSummary>, pinned: bool) -> Seq<SessionSummary> {
    s.filter(|x: SessionSummary| x.is_pinned == pinned)
}

/// The display order: pinned sessions first, each group keeping the order
/// the store delivered (a stable sort on "not pinned").
pub open spec fn display_order(s: Seq<SessionSummary>) -> Seq<SessionSummary> {
    with_pinned(s, true) + with_pinned(s, false)
}

/// Number of sessions that are not read.
pub open spec fn unread_count(s: Seq<SessionSummary>) -> nat {
    s.filter(|x: SessionSummary| !x.is_read).len()
}

/// The list model behind the session overview.
pub struct SessionListModel {
    pub content: Vec<SessionSummary>,
}

impl SessionListModel {
    pub fn new() -> (r: Self)
        ensures
            r.content@ == Seq::<SessionSummary>::empty(),
    {
        SessionListModel { content: Vec::new() }
    }

    /// Replaces the content by `sessions`, moving pinned sessions to the
    /// front while keeping the relative order within pinned and unpinned.
    pub fn load_all(&mut self, sessions: Vec<SessionSummary>)
        ensures
            final(self).content@ == display_order(sessions@),
    {
        let mut pinned: Vec<SessionSummary> = Vec::new();
        let mut others: Vec<SessionSummary> = Vec::new();
        let n = sessions.len();
        for i in 0..n
            invariant
                n == sessions@.len(),
                pinned@ == with_pinned(sessions@.take(i as int), true),
                others@ == with_pinned(sessions@.take(i as int), false),
        {
            let s = sessions[i];
            proof {
                broadcast use Seq::lemma_filter_push;
                assert(sessions@.take(i + 1) == sessions@.take(i as int).push(s));
            }
            if s.is_pinned {
                pinned.push(s);
            } else {
                others.push(s);
            }
        }
        proof {
            assert(sessions@.take(n as int) == sessions@);
        }
        pinned.append(&mut others);
        self.content = pinned;
    }

    /// Number of sessions in the list.
    pub fn count(&self) -> (r: usize)
        ensures
            r == self.content@.len(),
    {
        self.content.len()
    }

    /// Number of sessions that still hold unread messages.
    pub fn unread(&self) -> (r: i32)
        requires
            unread_count(self.content@) <= i32::MAX,
        ensures
            r == unread_count(self.content@),
    {
        let mut total: i32 = 0;
        let n = self.content.len();
        for i in 0..n
            invariant
                n == self.content@.len(),
                unread_count(self.content@) <= i32::MAX,
                total == unread_count(self.content@.take(i as int)),
        {
            proof {
                broadcast use Seq::lemma_filter_push;
                assert(self.content@.take(i + 1) == self.content@.take(i as int).push(self.content@[i as int]));
                lemma_unread_count_prefix(self.content@, i + 1);
            }
            if !self.content[i].is_read {
                total = total + 1;
            }
        }
        proof {
            assert(self.content@.take(n as int) == self.content@);
        }
        total
    }

    /// The row count reported to the view: the length as an `i32`, wrapping
    /// as an `as` conversion does.
    pub fn row_count(&self) -> (r: i32)
        ensures
            r == self.content@.len() as i32,
    {
        #[verifier::truncate]
        let r = self.content.len() as i32;
        r
    }
}

/// The sessions object of the UI: a session list that is reloaded from the
/// store whenever the store changes.
pub struct SessionsImpl {
    pub session_list: SessionListModel,
}

impl SessionsImpl {
    pub fn new() -> (r: Self)
        ensures
            r.session_list.content@.len() == 0,
    {
        SessionsImpl { session_list: SessionListModel::new() }
    }

    /// First load, with the sessions the store lists.
    pub fn init(&mut self, sessions: Vec<SessionSummary>)
        ensures
            final(self).session_list.content@ == display_order(sessions@),
    {
        self.session_list.load_all(sessions);
    }

    /// The store changed: reload with the sessions it now lists.
    pub fn observe(&mut self, sessions: Vec<SessionSummary>)
        ensures
            final(self).session_list.content@ == display_order(sessions@),
    {
        self.session_list.load_all(sessions);
    }
}

/// The unread count counts exactly the sessions not read: none in an empty
/// list, one more for each unread session added and none more for a read
/// one, pinned or not; a list of read sessions has none, and reordering
/// for display does not change the count.
pub proof fn lemma_unread_counts_unread_sessions(s: Seq<SessionSummary>, x: SessionSummary)
    ensures
        unread_count(Seq::empty()) == 0,
        unread_count(s.push(x)) == unread_count(s) + if x.is_read { 0int } else { 1int },
        (forall|i: int| 0 <= i < s.len() ==> (#[trigger] s[i]).is_read) ==> unread_count(s) == 0,
        unread_count(s) <= s.len(),
        unread_count(display_order(s)) == unread_count(s),
{
    broadcast use Seq::lemma_filter_push, vstd::seq_lib::group_filter_ensures;
    assert(Seq::<SessionSummary>::empty().filter(|x: SessionSummary| !x.is_read) =~= Seq::<SessionSummary>::empty());
    if forall|i: int| 0 <= i < s.len() ==> (#[trigger] s[i]).is_read {
        let f = s.filter(|x: SessionSummary| !x.is_read);
        if f.len() > 0 {
            assert(f.contains(f[0]));
            s.lemma_filter_contains_rev(|x: SessionSummary| !x.is_read, f[0]);
            assert(s.contains(f[0]));
            let i = choose|i: int| 0 <= i < s.len() && s[i] == f[0];
            assert(s[i].is_read);
        }
    }
    lemma_unread_count_permutation(s);
}

/// Reordering for display keeps the unread count.
proof fn lemma_unread_count_permutation(s: Seq<SessionSummary>)
    ensures
        unread_count(display_order(s)) == unread_count(s),
    decreases s.len(),
{
    broadcast use Seq::lemma_filter_push, Seq::filter_distributes_over_add;
    if s.len() == 0 {
        assert(with_pinned(s, true) == Seq::<SessionSummary>::empty());
        assert(with_pinned(s, false) == Seq::<SessionSummary>::empty());
        assert(display_order(s) == Seq::<SessionSummary>::empty());
    } else {
        let t = s.drop_last();
        let x = s.last();
        assert(s == t.push(x));
        lemma_unread_count_permutation(t);
        let f = |y: SessionSummary| !y.is_read;
        Seq::filter_distributes_over_add(with_pinned(t, true), with_pinned(t, false), f);
        if x.is_pinned {
            assert(with_pinned(s, true) == with_pinned(t, true).push(x));
            assert(with_pinned(s, false) == with_pinned(t, false));
            Seq::filter_distributes_over_add(with_pinned(t, true).push(x), with_pinned(t, false), f);
        } else {
            assert(with_pinned(s, true) == with_pinned(t, true));
            assert(with_pinned(s, false) == with_pinned(t, false).push(x));
            Seq::filter_distributes_over_add(with_pinned(t, true), with_pinned(t, false).push(x), f);
        }
    }
}

/// A prefix never holds more unread sessions than the whole list.
proof fn lemma_unread_count_prefix(s: Seq<SessionSummary>, i: int)
    requires
        0 <= i <= s.len(),
    ensures
        unread_count(s.take(i)) <= unread_count(s),
    decreases s.len() - i,
{
    broadcast use Seq::lemma_filter_push;
    if i < s.len() {
        assert(s.take(i + 1) == s.take(i).push(s[i]));
        lemma_unread_count_prefix(s, i + 1);
    } else {
        assert(s.take(i) == s);
    }
}

/// Loading sessions neither loses nor duplicates any: the display order is
/// a permutation of what the store delivered.
pub proof fn lemma_display_order_is_permutation(s: Seq<SessionSummary>)
    ensures
        display_order(s).to_multiset() == s.to_multiset(),
        display_order(s).len() == s.len(),
    decreases s.len(),
{
    broadcast use Seq::lemma_filter_push, vstd::seq_lib::group_to_multiset_ensures;
    if s.len() == 0 {
        assert(with_pinned(s, true) == Seq::<SessionSummary>::empty());
        assert(with_pinned(s, false) == Seq::<SessionSummary>::empty());
        assert(display_order(s) == Seq::<SessionSummary>::empty());
    } else {
        let t = s.drop_last();
        let x = s.last();
        assert(s == t.push(x));
        lemma_display_order_is_permutation(t);
        vstd::seq_lib::lemma_multiset_commutative(with_pinned(t, true), with_pinned(t, false));
        if x.is_pinned {
            assert(display_order(s) == (with_pinned(t, true) + with_pinned(t, false)).insert(
                with_pinned(t, true).len() as int, x));
        } else {
            assert(display_order(s) == display_order(t).push(x));
        }
    }
}

/// Every pinned session comes before every unpinned one.
pub proof fn lemma_display_order_pinned_first(s: Seq<SessionSummary>, i: int, j: int)
    requires
        0 <= i < j < display_order(s).len(),
        display_order(s)[j].is_pinned,
    ensures
        display_order(s)[i].is_pinned,
{
    broadcast use vstd::seq_lib::group_filter_ensures;
    let p = with_pinned(s, true);
    let q = with_pinned(s, false);
    if j >= p.len() {
        assert(display_order(s)[j] == q[j - p.len()]);
    }
}

/// The reordering is stable: among pinned sessions, and among unpinned
/// sessions, the display order is the order the store delivered.
pub proof fn lemma_display_order_is_stable(s: Seq<SessionSummary>, pinned: bool)
    ensures
        with_pinned(display_order(s), pinned) == with_pinned(s, pinned),
{
    let p = with_pinned(s, true);
    let q = with_pinned(s, false);
    let f = |x: SessionSummary| x.is_pinned == pinned;
    Seq::filter_distributes_over_add(p, q, f);
    lemma_filter_idempotent(s, pinned);
    lemma_filter_disjoint(s, !pinned);
    if pinned {
        assert(with_pinned(display_order(s), pinned) == with_pinned(p, true) + with_pinned(q, true));
        assert(with_pinned(s, pinned) + Seq::<SessionSummary>::empty() == with_pinned(s, pinned));
    } else {
        assert(with_pinned(display_order(s), pinned) == with_pinned(p, false) + with_pinned(q, false));
        assert(Seq::<SessionSummary>::empty() + with_pinned(s, pinned) == with_pinned(s, pinned));
    }
}

proof fn lemma_filter_idempotent(s: Seq<SessionSummary>, pinned: bool)
    ensures
        with_pinned(with_pinned(s, pinned), pinned) == with_pinned(s, pinned),
    decreases s.len(),
{
    broadcast use Seq::lemma_filter_push;
    if s.len() == 0 {
        assert(with_pinned(s, pinned) == Seq::<SessionSummary>::empty());
    } else {
        let t = s.drop_last();
        assert(s == t.push(s.last()));
        lemma_filter_idempotent(t, pinned);
    }
}

proof fn lemma_filter_disjoint(s: Seq<SessionSummary>, pinned: bool)
    ensures
        with_pinned(with_pinned(s, pinned), !pinned) == Seq::<SessionSummary>::empty(),
    decreases s.len(),
{
    broadcast use Seq::lemma_filter_push;
    if s.len() == 0 {
        assert(with_pinned(s, pinned) == Seq::<SessionSummary>::empty());
    } else {
        let t = s.drop_last();
        assert(s == t.push(s.last()));
        lemma_filter_disjoint(t, pinned);
    }
}

} // verus!
