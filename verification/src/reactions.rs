//! Migration of old text reactions (`R@<timestamp>:<emoji>` messages) into
//! proper reactions on the message they point at.

use vstd::prelude::*;
use crate::text::{chars_of, parse_u64, parsed_u64};

verus! {

#[verifier::external_type_specification]
#[verifier::external_body]
pub struct ExRegex(regex::Regex);

/// Whether `regex::Regex::new` accepts the pattern.
pub uninterp spec fn regex_compiles(pattern: Seq<char>) -> bool;

/// The capture groups of the first match of `pattern` in `text`, as the
/// `regex` crate finds it: group 0 is the whole match, a group that took no
/// part in the match is `None`.
pub uninterp spec fn first_match_groups(pattern: Seq<char>, text: Seq<char>) -> Option<Seq<Option<Seq<char>>>>;

/// A compiled regular expression together with its pattern.
pub struct CompiledRegex {
    pattern: String,
    re: regex::Regex,
}

impl View for CompiledRegex {
    type V = Seq<char>;

    closed spec fn view(&self) -> Seq<char> {
        self.pattern@
    }
}

/// Calls `regex::Regex::new`; which patterns compile is left to the name.
#[verifier::external_body]
fn compile_regex(pattern: &str) -> (r: Option<regex::Regex>)
    ensures
        r is Some == regex_compiles(pattern@),
{
    regex::Regex::new(pattern).ok()
}

/// The texts of some optional groups.
pub open spec fn groups_view(g: Seq<Option<String>>) -> Seq<Option<Seq<char>>> {
    g.map_values(|o: Option<String>| match o {
        Some(s) => Some(s@),
        None => None,
    })
}

/// Calls `captures_iter(text).next()` on the compiled expression and copies
/// out the text of each group. The expression inside a `CompiledRegex` is
/// always the one compiled from its pattern, so the outcome is a function of
/// the pattern and the text; what it is is left to the name.
#[verifier::external_body]
fn first_captures(re: &CompiledRegex, text: &str) -> (r: Option<Vec<Option<String>>>)
    ensures
        match r {
            Some(g) => first_match_groups(re@, text@) == Some(groups_view(g@)),
            None => first_match_groups(re@, text@) is None,
        },
{
    re.re.captures_iter(text).next().map(|c| c.iter().map(|m| m.map(|m| m.as_str().to_string())).collect())
}

impl CompiledRegex {
    /// Compiles `pattern`, if it is a valid expression.
    pub fn new(pattern: &str) -> (r: Option<CompiledRegex>)
        ensures
            r is Some == regex_compiles(pattern@),
            r matches Some(c) ==> c@ == pattern@,
    {
        match compile_regex(pattern) {
            Some(re) => Some(CompiledRegex { pattern: pattern.to_string(), re }),
            None => None,
        }
    }
}

/// The pattern of an old text reaction: the timestamp of the message reacted
/// to, and the emoji.
pub const REACTION_PATTERN: &'static str = "R@(\\d+):(.*)";

/// What an old reaction text holds: the timestamp (group 1, read as a
/// `u64`) and the emoji (group 2), when the pattern matches, both groups
/// take part and the timestamp parses.
pub open spec fn reaction_parts(pattern: Seq<char>, text: Seq<char>) -> Option<(u64, Seq<char>)> {
    match first_match_groups(pattern, text) {
        Some(g) => if g.len() > 2 && g[1] is Some && g[2] is Some {
            match parsed_u64(g[1]->0) {
                Some(ts) => Some((ts, g[2]->0)),
                None => None,
            }
        } else {
            None
        },
        None => None,
    }
}

/// Reads old reaction texts.
pub struct ReactionParser {
    regex: CompiledRegex,
}

impl View for ReactionParser {
    type V = Seq<char>;

    closed spec fn view(&self) -> Seq<char> {
        self.regex@
    }
}

impl ReactionParser {
    /// A parser for `REACTION_PATTERN`, if the regex engine compiles it.
    pub fn new() -> (r: Option<ReactionParser>)
        ensures
            r is Some == regex_compiles(REACTION_PATTERN@),
            r matches Some(p) ==> p@ == REACTION_PATTERN@,
    {
        match CompiledRegex::new(REACTION_PATTERN) {
            Some(regex) => Some(ReactionParser { regex }),
            None => None,
        }
    }

    /// The timestamp and emoji of an old reaction text.
    pub fn parse(&self, text: &str) -> (r: Option<(u64, String)>)
        ensures
            match r {
                Some((ts, emoji)) => reaction_parts(self@, text@) == Some((ts, emoji@)),
                None => reaction_parts(self@, text@) is None,
            },
    {
        let groups = match first_captures(&self.regex, text) {
            Some(g) => g,
            None => return None,
        };
        proof {
            assert(groups_view(groups@).len() == groups@.len());
        }
        if groups.len() <= 2 {
            return None;
        }
        proof {
            assert(groups_view(groups@)[1] == match groups@[1] {
                Some(s) => Some(s@),
                None => None::<Seq<char>>,
            });
            assert(groups_view(groups@)[2] == match groups@[2] {
                Some(s) => Some(s@),
                None => None::<Seq<char>>,
            });
        }
        let ts_text = match &groups[1] {
            Some(t) => t,
            None => return None,
        };
        let emoji = match &groups[2] {
            Some(e) => e.clone(),
            None => return None,
        };
        let digits = chars_of(ts_text.as_str());
        match parse_u64(&digits) {
            Some(ts) => Some((ts, emoji)),
            None => None,
        }
    }
}

/// Request to migrate the old text reactions.
#[derive(Clone, Copy, PartialEq, Eq, Debug)]
pub struct ParseOldReaction;

/// A stored message as the reaction migration reads it. Times are
/// milliseconds since the Unix epoch.
pub struct ReactionMessage {
    pub id: i32,
    pub text: Option<String>,
    pub sender_recipient_id: Option<i32>,
    pub sent_timestamp: Option<i64>,
    pub server_timestamp: i64,
    pub received_timestamp: Option<i64>,
}

/// A reaction is dropped in favour of the next one in the listing when both
/// have the same sender and the same timestamp.
pub open spec fn superseded(sender: Option<i32>, ts: u64, next: Option<(Option<i32>, u64)>) -> bool {
    match next {
        Some((next_sender, next_ts)) => sender == next_sender && ts == next_ts,
        None => false,
    }
}

/// A reaction gives way to the next one only when both have the same
/// sender (no sender matching only no sender) and the same timestamp; with
/// no next reaction, or another sender, or another timestamp, it is kept.
/// As the migration reads it (the compared timestamp taken from the
/// reaction's own text), the senders alone decide.
pub proof fn lemma_superseded_needs_same_sender_and_time(
    sender: Option<i32>,
    ts: u64,
    next_sender: Option<i32>,
    next_ts: u64,
    next: Option<&ReactionMessage>,
)
    ensures
        !superseded(sender, ts, None),
        superseded(sender, ts, Some((next_sender, next_ts))) ==> sender == next_sender && ts == next_ts,
        sender == next_sender && ts == next_ts ==> superseded(sender, ts, Some((next_sender, next_ts))),
        sender != next_sender ==> !superseded(sender, ts, Some((next_sender, next_ts))),
        superseded(sender, ts, next_key(next, ts)) == (next matches Some(n) && n.sender_recipient_id == sender),
{
}

/// Whether a reaction is dropped in favour of the next one.
pub fn is_superseded(sender: Option<i32>, ts: u64, next: Option<(Option<i32>, u64)>) -> (r: bool)
    ensures
        r == superseded(sender, ts, next),
{
    match next {
        Some((next_sender, next_ts)) => sender == next_sender && ts == next_ts,
        None => false,
    }
}

/// A reaction row to store.
pub struct ReactionRow {
    pub message_id: i32,
    pub author: i32,
    pub emoji: String,
    pub sent_time: i64,
    pub received_time: i64,
}

/// `row` is the reaction that `reaction` becomes on `target_message_id`
/// (see `reaction_row`).
pub open spec fn is_row_for(row: ReactionRow, reaction: &ReactionMessage, target_message_id: i32, myself_id: i32, emoji: Seq<char>, now: i64) -> bool {
    &&& row.message_id == target_message_id
    &&& row.author == match reaction.sender_recipient_id {
        Some(a) => a,
        None => myself_id,
    }
    &&& row.emoji@ == emoji
    &&& row.sent_time == match reaction.sent_timestamp {
        Some(t) => t,
        None => reaction.server_timestamp,
    }
    &&& row.received_time == match reaction.received_timestamp {
        Some(t) => t,
        None => now,
    }
}

/// The reaction that an old reaction message becomes, on the message
/// `target_message_id`: authored by its sender (by the user when it has
/// none), sent at its sent time (its server time when it has none),
/// received at its received time (`now` when it has none). Existing
/// reactions by that author on that message sent no later are replaced.
pub fn reaction_row(reaction: &ReactionMessage, target_message_id: i32, myself_id: i32, emoji: String, now: i64) -> (r: ReactionRow)
    ensures
        is_row_for(r, reaction, target_message_id, myself_id, emoji@, now),
{
    ReactionRow {
        message_id: target_message_id,
        author: match reaction.sender_recipient_id {
            Some(a) => a,
            None => myself_id,
        },
        emoji,
        sent_time: match reaction.sent_timestamp {
            Some(t) => t,
            None => reaction.server_timestamp,
        },
        received_time: match reaction.received_timestamp {
            Some(t) => t,
            None => now,
        },
    }
}

/// The first step for one old reaction, given its timestamp and the sender
/// and timestamp read for the next reaction in the listing.
#[derive(Clone, Copy, PartialEq, Eq, Debug)]
pub enum ReactionStep {
    /// The next reaction supersedes it: delete this message and go on.
    DeleteSuperseded(i32),
    /// Look up the message with this server timestamp.
    LookUpTarget(u64),
}

/// The first step for `reaction` with timestamp `ts`.
pub fn reaction_step(reaction: &ReactionMessage, ts: u64, next: Option<(Option<i32>, u64)>) -> (r: ReactionStep)
    ensures
        r == if superseded(reaction.sender_recipient_id, ts, next) {
            ReactionStep::DeleteSuperseded(reaction.id)
        } else {
            ReactionStep::LookUpTarget(ts)
        },
{
    if is_superseded(reaction.sender_recipient_id, ts, next) {
        ReactionStep::DeleteSuperseded(reaction.id)
    } else {
        ReactionStep::LookUpTarget(ts)
    }
}

/// The timestamp pair a reaction is compared with: the next reaction's
/// sender, and the timestamp `ts` read from this reaction's own text.
pub open spec fn next_key(next: Option<&ReactionMessage>, ts: u64) -> Option<(Option<i32>, u64)> {
    match next {
        Some(n) => Some((n.sender_recipient_id, ts)),
        None => None,
    }
}

impl ReactionParser {
    /// The first step for one old reaction, and its emoji. The reaction's
    /// timestamp and emoji come from its text; the timestamp that the next
    /// reaction in the listing is compared with is read from this
    /// reaction's text too, so the next reaction supersedes it exactly when
    /// it has the same sender. `None` when the text is missing or is not an
    /// old reaction.
    pub fn plan_reaction(&self, reaction: &ReactionMessage, next: Option<&ReactionMessage>) -> (r: Option<(ReactionStep, String)>)
        ensures
            match reaction.text {
                None => r is None,
                Some(t) => match reaction_parts(self@, t@) {
                    None => r is None,
                    Some((ts, emoji)) => r matches Some((step, e)) && e@ == emoji && step == (
                    if superseded(reaction.sender_recipient_id, ts, next_key(next, ts)) {
                        ReactionStep::DeleteSuperseded(reaction.id)
                    } else {
                        ReactionStep::LookUpTarget(ts)
                    }),
                },
            },
    {
        let text = match &reaction.text {
            Some(t) => t,
            None => return None,
        };
        let (ts, emoji) = match self.parse(text.as_str()) {
            Some(p) => p,
            None => return None,
        };
        let next_pair = match next {
            Some(n) => match self.parse(text.as_str()) {
                Some((next_ts, _)) => Some((n.sender_recipient_id, next_ts)),
                None => None,
            },
            None => None,
        };
        Some((reaction_step(reaction, ts, next_pair), emoji))
    }
}

/// The rest of the work for a reaction whose target was looked up: the
/// reaction to store, if the target was found, and the message to delete.
pub struct ReactionOutcome {
    pub row: Option<ReactionRow>,
    pub delete_message: i32,
}

/// The outcome for `reaction` once its target is known: a reaction row on
/// the target when there is one (none otherwise), and in either case the
/// old reaction message is deleted.
pub fn reaction_outcome(reaction: &ReactionMessage, target: Option<i32>, myself_id: i32, emoji: String, now: i64) -> (r: ReactionOutcome)
    ensures
        r.delete_message == reaction.id,
        match target {
            Some(t) => r.row matches Some(row) && is_row_for(row, reaction, t, myself_id, emoji@, now),
            None => r.row is None,
        },
{
    let row = match target {
        Some(t) => Some(reaction_row(reaction, t, myself_id, emoji, now)),
        None => None,
    };
    ReactionOutcome { row, delete_message: reaction.id }
}

} // verus!
