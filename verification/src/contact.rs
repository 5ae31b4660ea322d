//! Phone numbers of contacts: normalising what the user typed, and the keys
//! under which the address book is searched for a display name.

use std::str::FromStr;
use vstd::prelude::*;
use crate::text::{trim, trimmed, remove_char, without_char, string_from_chars};

verus! {

#[verifier::external_type_specification]
#[verifier::external_body]
pub struct ExCountryId(phonenumber::country::Id);

#[verifier::external_type_specification]
#[verifier::external_body]
pub struct ExPhoneNumber(phonenumber::PhoneNumber);

/// How a phone number is written out.
#[derive(Clone, Copy, PartialEq, Eq, Debug)]
pub enum FormatMode {
    /// `+` and all digits, no spaces.
    E164,
    /// The country's own way, without the calling code.
    National,
}

/// Whether `phonenumber::country::Id::from_str` knows this region code.
pub uninterp spec fn country_code_known(code: Seq<char>) -> bool;

/// Whether `phonenumber::parse` accepts `text` for the region `code`.
pub uninterp spec fn number_parses(code: Seq<char>, text: Seq<char>) -> bool;

/// Whether `phonenumber::is_valid` holds of the number parsed from `text`
/// for the region `code`.
pub uninterp spec fn number_valid(code: Seq<char>, text: Seq<char>) -> bool;

/// What the `phonenumber` formatter writes for the number parsed from
/// `text` for the region `code`.
pub uninterp spec fn number_written(code: Seq<char>, text: Seq<char>, mode: FormatMode) -> Seq<char>;

/// A region known to the phone number database, with its code.
pub struct Country {
    code: String,
    id: phonenumber::country::Id,
}

impl View for Country {
    type V = Seq<char>;

    closed spec fn view(&self) -> Seq<char> {
        self.code@
    }
}

/// A phone number as parsed for a region, with the region code and the text
/// it was parsed from.
pub struct ParsedNumber {
    code: String,
    text: String,
    number: phonenumber::PhoneNumber,
}

impl View for ParsedNumber {
    type V = (Seq<char>, Seq<char>);

    closed spec fn view(&self) -> (Seq<char>, Seq<char>) {
        (self.code@, self.text@)
    }
}

/// Calls `phonenumber::country::Id::from_str`, which matches the code against
/// the region names it knows; which ones is left to the name.
#[verifier::external_body]
fn country_id(code: &str) -> (r: Option<phonenumber::country::Id>)
    ensures
        r is Some == country_code_known(code@),
{
    phonenumber::country::Id::from_str(code).ok()
}

/// Calls `phonenumber::parse` with the region of `country`. The region value
/// inside a `Country` is always the one `country_id` gave for its code, so
/// the outcome is a function of the code and the text.
#[verifier::external_body]
fn parse_for_country(country: &Country, text: &str) -> (r: Option<phonenumber::PhoneNumber>)
    ensures
        r is Some == number_parses(country@, text@),
{
    phonenumber::parse(Some(country.id), text).ok()
}

/// Calls `phonenumber::is_valid` on a parsed number.
#[verifier::external_body]
fn is_valid_number(n: &ParsedNumber) -> (r: bool)
    ensures
        r == number_valid(n@.0, n@.1),
{
    phonenumber::is_valid(&n.number)
}

/// Calls `number.format().mode(..).to_string()`. Formatting fails (and
/// `to_string` panics) only for a number whose calling code the database
/// does not know, which `is_valid` rules out. The E.164 form is written as
/// `+`, the calling code and the national number, so it starts with `+`.
#[verifier::external_body]
fn write_number(n: &ParsedNumber, mode: FormatMode) -> (r: String)
    requires
        number_valid(n@.0, n@.1),
    ensures
        r@ == number_written(n@.0, n@.1, mode),
        mode == FormatMode::E164 ==> r@.len() > 0 && r@[0] == '+',
{
    let m = match mode {
        FormatMode::E164 => phonenumber::Mode::E164,
        FormatMode::National => phonenumber::Mode::National,
    };
    n.number.format().mode(m).to_string()
}

impl Country {
    /// The region with this code, if the database knows it.
    pub fn from_code(code: &str) -> (r: Option<Country>)
        ensures
            r is Some == country_code_known(code@),
            r matches Some(c) ==> c@ == code@,
    {
        match country_id(code) {
            Some(id) => Some(Country { code: code.to_string(), id }),
            None => None,
        }
    }
}

/// A valid number written out: `None` when the region is unknown, the text
/// does not parse as a number of it, or the number is not valid.
pub open spec fn formatted(code: Seq<char>, text: Seq<char>, mode: FormatMode) -> Option<Seq<char>> {
    if !country_code_known(code) || !number_parses(code, text) || !number_valid(code, text) {
        None
    } else {
        Some(number_written(code, text, mode))
    }
}

/// Parses `number` for the region `country_code` and writes it out in
/// `mode`, when it is a valid number.
pub fn format_helper(country_code: &str, number: &str, mode: FormatMode) -> (r: Option<String>)
    ensures
        match r {
            Some(s) => formatted(country_code@, number@, mode) == Some(s@),
            None => formatted(country_code@, number@, mode) is None,
        },
        mode == FormatMode::E164 ==> (r matches Some(s) ==> s@.len() > 0 && s@[0] == '+'),
{
    let country = match Country::from_code(country_code) {
        Some(c) => c,
        None => return None,
    };
    let parsed = match parse_for_country(&country, number) {
        Some(p) => ParsedNumber { code: country.code, text: number.to_string(), number: p },
        None => return None,
    };
    if !is_valid_number(&parsed) {
        return None;
    }
    Some(write_number(&parsed, mode))
}

/// What the number field shows for `input`: empty for blank input; the
/// E.164 form of the trimmed input if it is a valid number; otherwise, for
/// input not starting with `+`, the E.164 form of the input with `+` put in
/// front; empty if neither is valid.
pub open spec fn formatted_input(code: Seq<char>, input: Seq<char>) -> Seq<char> {
    let t = trimmed(input);
    if t.len() == 0 {
        Seq::empty()
    } else {
        choose_formatted(t, formatted(code, t, FormatMode::E164), formatted(code, seq!['+'] + t, FormatMode::E164))
    }
}

/// The choice among the two attempts of `formatted_input` for a non-blank
/// trimmed input `t`.
pub open spec fn choose_formatted(t: Seq<char>, direct: Option<Seq<char>>, with_plus: Option<Seq<char>>) -> Seq<char> {
    match direct {
        Some(n) => n,
        None => if t.len() > 0 && t[0] == '+' {
            Seq::empty()
        } else {
            match with_plus {
                Some(n) => n,
                None => Seq::empty(),
            }
        },
    }
}

/// How the shown number is chosen: a valid reading of the input as typed
/// always wins, whatever the reading with `+` put in front gives; failing
/// that, input starting with `+` shows nothing; otherwise the reading with
/// `+` put in front is shown if valid, and nothing if not.
pub proof fn lemma_typed_reading_preferred(t: Seq<char>, direct: Option<Seq<char>>, with_plus: Option<Seq<char>>)
    ensures
        direct matches Some(n) ==> choose_formatted(t, direct, with_plus) == n,
        direct is None && t.len() > 0 && t[0] == '+' ==> choose_formatted(t, direct, with_plus).len() == 0,
        direct is None && !(t.len() > 0 && t[0] == '+') ==> choose_formatted(t, direct, with_plus) == match with_plus {
            Some(n) => n,
            None => Seq::<char>::empty(),
        },
{
}

/// For non-blank input, when the trimmed input is a valid number of the
/// region, the field shows its E.164 form, whatever the reading with `+`
/// put in front gives; blank input shows nothing.
pub proof fn lemma_normalize_prefers_typed_number(code: Seq<char>, input: Seq<char>)
    ensures
        trimmed(input).len() == 0 ==> formatted_input(code, input).len() == 0,
        trimmed(input).len() > 0 && formatted(code, trimmed(input), FormatMode::E164) is Some
            ==> formatted_input(code, input) == formatted(code, trimmed(input), FormatMode::E164)->0,
        trimmed(input).len() > 0 && formatted(code, trimmed(input), FormatMode::E164) is None
            && trimmed(input)[0] == '+' ==> formatted_input(code, input).len() == 0,
        trimmed(input).len() > 0 && formatted(code, trimmed(input), FormatMode::E164) is None
            && trimmed(input)[0] != '+' ==> formatted_input(code, input) == match formatted(
                code, seq!['+'] + trimmed(input), FormatMode::E164) {
                Some(n) => n,
                None => Seq::<char>::empty(),
            },
{
    let t = trimmed(input);
    lemma_typed_reading_preferred(t, formatted(code, t, FormatMode::E164), formatted(code, seq!['+'] + t, FormatMode::E164));
}

/// The option's text, or nothing.
pub open spec fn opt_view(o: Option<String>) -> Option<Seq<char>> {
    match o {
        Some(s) => Some(s@),
        None => None,
    }
}

/// Picks the shown number from the two formatting attempts.
pub fn pick_formatted(t: &Vec<char>, direct: Option<String>, with_plus: Option<String>) -> (r: String)
    ensures
        r@ == choose_formatted(t@, opt_view(direct), opt_view(with_plus)),
{
    match direct {
        Some(n) => n,
        None => {
            if t.len() > 0 && t[0] == '+' {
                String::new()
            } else {
                match with_plus {
                    Some(n) => n,
                    None => String::new(),
                }
            }
        },
    }
}

/// Normalises a number the user typed into E.164 form for the region
/// `country_code`, or gives the empty text.
pub fn normalize_number(country_code: &str, input: &str) -> (r: String)
    ensures
        r@ == formatted_input(country_code@, input@),
        r@.len() == 0 || r@[0] == '+',
{
    let t = trim(input);
    if t.len() == 0 {
        return String::new();
    }
    let text = string_from_chars(&t);
    let mut plus: Vec<char> = Vec::new();
    plus.push('+');
    let mut rest = t.clone();
    proof {
        assert(rest@ == t@);
    }
    plus.append(&mut rest);
    let text_with_plus = string_from_chars(&plus);
    proof {
        assert(plus@ == seq!['+'] + t@);
    }
    let direct = format_helper(country_code, text.as_str(), FormatMode::E164);
    let with_plus = format_helper(country_code, text_with_plus.as_str(), FormatMode::E164);
    pick_formatted(&t, direct, with_plus)
}

/// An address book entry: display name and telephone number.
pub struct Contact {
    pub name: String,
    pub tel: String,
}

/// The keys under which the address book is searched for `source`: its
/// E.164 form and its national form without spaces, each empty when the
/// trimmed source is not a valid number.
pub struct NameLookup {
    /// The trimmed source, shown when no contact matches.
    pub source: String,
    pub e164: String,
    pub national: String,
}

/// The option's text, or the empty text.
pub open spec fn or_empty(o: Option<Seq<char>>) -> Seq<char> {
    match o {
        Some(s) => s,
        None => Seq::empty(),
    }
}

/// The model behind the contact list and the number helpers of the UI.
pub struct ContactModel {
    pub content: Vec<Contact>,
}

impl ContactModel {
    pub fn new() -> (r: Self)
        ensures
            r.content@.len() == 0,
    {
        ContactModel { content: Vec::new() }
    }

    /// Number of contacts, as the `i32` row count of the list (an `as`
    /// conversion).
    pub fn row_count(&self) -> (r: i32)
        ensures
            r == self.content@.len() as i32,
    {
        #[verifier::truncate]
        let r = self.content.len() as i32;
        r
    }

    /// Normalises a number typed by the user (see `format`).
    pub fn format(&self, country_code: &str, input: &str) -> (r: String)
        ensures
            r@ == formatted_input(country_code@, input@),
            r@.len() == 0 || r@[0] == '+',
    {
        normalize_number(country_code, input)
    }

    /// The search keys for the display name of `source`.
    pub fn name_lookup(&self, country_code: &str, source: &str) -> (r: NameLookup)
        ensures
            r.source@ == trimmed(source@),
            r.e164@ == or_empty(formatted(country_code@, trimmed(source@), FormatMode::E164)),
            r.national@ == without_char(
                or_empty(formatted(country_code@, trimmed(source@), FormatMode::National)),
                ' ',
            ),
    {
        let t = trim(source);
        let text = string_from_chars(&t);
        let e164 = match format_helper(country_code, text.as_str(), FormatMode::E164) {
            Some(s) => s,
            None => String::new(),
        };
        let national = match format_helper(country_code, text.as_str(), FormatMode::National) {
            Some(s) => s,
            None => String::new(),
        };
        let national_chars = crate::text::chars_of(national.as_str());
        let national_compact = remove_char(&national_chars, ' ');
        NameLookup { source: text, e164, national: string_from_chars(&national_compact) }
    }

    /// The name shown for a number: the display label of the matching
    /// contact, or the trimmed number itself.
    pub fn name(&self, lookup: NameLookup, found: Option<String>) -> (r: String)
        ensures
            r@ == match found {
                Some(n) => n@,
                None => lookup.source@,
            },
    {
        match found {
            Some(n) => n,
            None => lookup.source,
        }
    }
}

} // verus!
