//! The text forms in which statuses are stored in the database, and the
//! escaping of search text for `LIKE` patterns.

use vstd::prelude::*;

use crate::domain::inventory::StockMovementType;
use crate::domain::service_visit::ServiceVisitStatus;
use crate::domain::service_visit_part::ServiceVisitPartStatus;
use crate::text::{chars_of, string_from_chars};

verus! {

/// Calls `<str as PartialEq>::eq`: equal slices hold the same characters.
#[verifier::external_body]
pub(crate) fn str_eq(a: &str, b: &str) -> (r: bool)
    ensures
        r == (a@ == b@),
{
    a == b
}

pub open spec fn visit_status_text(status: ServiceVisitStatus) -> Seq<char> {
    match status {
        ServiceVisitStatus::Open => "OPEN"@,
        ServiceVisitStatus::ReadyForPickup => "READY_FOR_PICKUP"@,
        ServiceVisitStatus::Closed => "CLOSED"@,
        ServiceVisitStatus::Cancelled => "CANCELLED"@,
    }
}

pub fn visit_status_name(status: ServiceVisitStatus) -> (r: &'static str)
    ensures
        r@ == visit_status_text(status),
{
    match status {
        ServiceVisitStatus::Open => "OPEN",
        ServiceVisitStatus::ReadyForPickup => "READY_FOR_PICKUP",
        ServiceVisitStatus::Closed => "CLOSED",
        ServiceVisitStatus::Cancelled => "CANCELLED",
    }
}

/// The status whose stored text this is, if any.
pub open spec fn visit_status_from_text(text: Seq<char>) -> Option<ServiceVisitStatus> {
    if text == "OPEN"@ {
        Some(ServiceVisitStatus::Open)
    } else if text == "READY_FOR_PICKUP"@ {
        Some(ServiceVisitStatus::ReadyForPickup)
    } else if text == "CLOSED"@ {
        Some(ServiceVisitStatus::Closed)
    } else if text == "CANCELLED"@ {
        Some(ServiceVisitStatus::Cancelled)
    } else {
        None
    }
}

pub fn parse_visit_status(value: &str) -> (r: Option<ServiceVisitStatus>)
    ensures
        r == visit_status_from_text(value@),
{
    if str_eq(value, "OPEN") {
        Some(ServiceVisitStatus::Open)
    } else if str_eq(value, "READY_FOR_PICKUP") {
        Some(ServiceVisitStatus::ReadyForPickup)
    } else if str_eq(value, "CLOSED") {
        Some(ServiceVisitStatus::Closed)
    } else if str_eq(value, "CANCELLED") {
        Some(ServiceVisitStatus::Cancelled)
    } else {
        None
    }
}

/// Reading back the stored text of a status gives that status.
pub proof fn visit_status_text_round_trip(status: ServiceVisitStatus)
    ensures
        visit_status_from_text(visit_status_text(status)) == Some(status),
{
    reveal_strlit("OPEN");
    reveal_strlit("READY_FOR_PICKUP");
    reveal_strlit("CLOSED");
    reveal_strlit("CANCELLED");
    assert("OPEN"@.len() == 4);
    assert("READY_FOR_PICKUP"@.len() == 16);
    assert("CLOSED"@.len() == 6);
    assert("CANCELLED"@.len() == 9);
}

pub open spec fn part_status_text(status: ServiceVisitPartStatus) -> Seq<char> {
    match status {
        ServiceVisitPartStatus::Active => "ACTIVE"@,
        ServiceVisitPartStatus::Voided => "VOIDED"@,
    }
}

pub fn part_status_name(status: ServiceVisitPartStatus) -> (r: &'static str)
    ensures
        r@ == part_status_text(status),
{
    match status {
        ServiceVisitPartStatus::Active => "ACTIVE",
        ServiceVisitPartStatus::Voided => "VOIDED",
    }
}

pub open spec fn part_status_from_text(text: Seq<char>) -> Option<ServiceVisitPartStatus> {
    if text == "ACTIVE"@ {
        Some(ServiceVisitPartStatus::Active)
    } else if text == "VOIDED"@ {
        Some(ServiceVisitPartStatus::Voided)
    } else {
        None
    }
}

pub fn parse_part_status(value: &str) -> (r: Option<ServiceVisitPartStatus>)
    ensures
        r == part_status_from_text(value@),
{
    if str_eq(value, "ACTIVE") {
        Some(ServiceVisitPartStatus::Active)
    } else if str_eq(value, "VOIDED") {
        Some(ServiceVisitPartStatus::Voided)
    } else {
        None
    }
}

/// Reading back the stored text of a part status gives that status.
pub proof fn part_status_text_round_trip(status: ServiceVisitPartStatus)
    ensures
        part_status_from_text(part_status_text(status)) == Some(status),
{
    reveal_strlit("ACTIVE");
    reveal_strlit("VOIDED");
    assert("ACTIVE"@[0] != "VOIDED"@[0]);
}

pub open spec fn movement_type_text(value: StockMovementType) -> Seq<char> {
    match value {
        StockMovementType::OpeningStock => "OPENING_STOCK"@,
        StockMovementType::Purchase => "PURCHASE"@,
        StockMovementType::AdjustmentIn => "ADJUSTMENT_IN"@,
        StockMovementType::AdjustmentOut => "ADJUSTMENT_OUT"@,
    }
}

pub fn movement_type_name(value: StockMovementType) -> (r: &'static str)
    ensures
        r@ == movement_type_text(value),
{
    match value {
        StockMovementType::OpeningStock => "OPENING_STOCK",
        StockMovementType::Purchase => "PURCHASE",
        StockMovementType::AdjustmentIn => "ADJUSTMENT_IN",
        StockMovementType::AdjustmentOut => "ADJUSTMENT_OUT",
    }
}

pub open spec fn movement_type_from_text(text: Seq<char>) -> Option<StockMovementType> {
    if text == "OPENING_STOCK"@ {
        Some(StockMovementType::OpeningStock)
    } else if text == "PURCHASE"@ {
        Some(StockMovementType::Purchase)
    } else if text == "ADJUSTMENT_IN"@ {
        Some(StockMovementType::AdjustmentIn)
    } else if text == "ADJUSTMENT_OUT"@ {
        Some(StockMovementType::AdjustmentOut)
    } else {
        None
    }
}

pub fn parse_movement_type(value: &str) -> (r: Option<StockMovementType>)
    ensures
        r == movement_type_from_text(value@),
{
    if str_eq(value, "OPENING_STOCK") {
        Some(StockMovementType::OpeningStock)
    } else if str_eq(value, "PURCHASE") {
        Some(StockMovementType::Purchase)
    } else if str_eq(value, "ADJUSTMENT_IN") {
        Some(StockMovementType::AdjustmentIn)
    } else if str_eq(value, "ADJUSTMENT_OUT") {
        Some(StockMovementType::AdjustmentOut)
    } else {
        None
    }
}

/// Reading back the stored text of a movement type gives that type.
pub proof fn movement_type_text_round_trip(value: StockMovementType)
    ensures
        movement_type_from_text(movement_type_text(value)) == Some(value),
{
    reveal_strlit("OPENING_STOCK");
    reveal_strlit("PURCHASE");
    reveal_strlit("ADJUSTMENT_IN");
    reveal_strlit("ADJUSTMENT_OUT");
    assert("OPENING_STOCK"@[0] != "PURCHASE"@[0]);
    assert("OPENING_STOCK"@[0] != "ADJUSTMENT_IN"@[0]);
    assert("OPENING_STOCK"@[0] != "ADJUSTMENT_OUT"@[0]);
    assert("PURCHASE"@[0] != "ADJUSTMENT_IN"@[0]);
    assert("PURCHASE"@[0] != "ADJUSTMENT_OUT"@[0]);
    assert("ADJUSTMENT_IN"@.len() != "ADJUSTMENT_OUT"@.len());
}

/// The characters that `LIKE ... ESCAPE '\'` treats specially.
pub open spec fn is_like_special(c: char) -> bool {
    c == '\\' || c == '%' || c == '_'
}

pub open spec fn escape_char(c: char) -> Seq<char> {
    if is_like_special(c) {
        seq!['\\', c]
    } else {
        seq![c]
    }
}

/// The text with every `\`, `%` and `_` preceded by a backslash.
pub open spec fn like_escaped(s: Seq<char>) -> Seq<char>
    decreases s.len(),
{
    if s.len() == 0 {
        Seq::empty()
    } else {
        escape_char(s[0]) + like_escaped(s.skip(1))
    }
}

/// Undoes the escaping: a backslash stands for the character after it.
pub open spec fn like_unescaped(s: Seq<char>) -> Seq<char>
    decreases s.len(),
{
    if s.len() == 0 {
        Seq::empty()
    } else if s[0] == '\\' && s.len() >= 2 {
        seq![s[1]] + like_unescaped(s.skip(2))
    } else {
        seq![s[0]] + like_unescaped(s.skip(1))
    }
}

/// A `LIKE` pattern that matches any text containing the query literally.
pub open spec fn substring_pattern(query: Seq<char>) -> Seq<char> {
    seq!['%'] + like_escaped(query) + seq!['%']
}

proof fn lemma_escaped_push(s: Seq<char>, c: char)
    ensures
        like_escaped(s.push(c)) == like_escaped(s) + escape_char(c),
    decreases s.len(),
{
    if s.len() == 0 {
        assert(s.push(c).skip(1) =~= Seq::<char>::empty());
        assert(like_escaped(Seq::<char>::empty()) == Seq::<char>::empty());
        assert(like_escaped(s.push(c)) =~= escape_char(c) + Seq::<char>::empty());
        assert(like_escaped(s) == Seq::<char>::empty());
        assert(like_escaped(s.push(c)) =~= like_escaped(s) + escape_char(c));
    } else {
        assert(s.push(c).skip(1) =~= s.skip(1).push(c));
        lemma_escaped_push(s.skip(1), c);
        assert(like_escaped(s.push(c)) =~= like_escaped(s) + escape_char(c));
    }
}

/// Escaping loses nothing: unescaping the escaped query gives the query back.
pub proof fn like_escaping_round_trip(s: Seq<char>)
    ensures
        like_unescaped(like_escaped(s)) == s,
    decreases s.len(),
{
    if s.len() > 0 {
        let rest = like_escaped(s.skip(1));
        like_escaping_round_trip(s.skip(1));
        let e = like_escaped(s);
        if is_like_special(s[0]) {
            assert(e =~= seq!['\\', s[0]] + rest);
            assert(e.skip(2) =~= rest);
        } else {
            assert(e =~= seq![s[0]] + rest);
            assert(e.skip(1) =~= rest);
        }
        assert(like_unescaped(e) =~= s);
    }
}

/// Reads a `LIKE` pattern whose escape character is `\` as literal
/// characters only: an escaped character stands for itself, any other
/// character but `%` and `_` stands for itself. `None` when the pattern holds
/// an unescaped `%` or `_` (a wildcard) or ends in a lone `\`.
pub open spec fn literal_text(p: Seq<char>) -> Option<Seq<char>>
    decreases p.len(),
{
    if p.len() == 0 {
        Some(Seq::empty())
    } else if p[0] == '\\' {
        if p.len() >= 2 {
            match literal_text(p.skip(2)) {
                Some(t) => Some(seq![p[1]] + t),
                None => None,
            }
        } else {
            None
        }
    } else if p[0] == '%' || p[0] == '_' {
        None
    } else {
        match literal_text(p.skip(1)) {
            Some(t) => Some(seq![p[0]] + t),
            None => None,
        }
    }
}

/// The escaped query holds no wildcard: read as a pattern, it is exactly the
/// query, character for character.
pub proof fn escaped_query_is_taken_literally(s: Seq<char>)
    ensures
        literal_text(like_escaped(s)) == Some(s),
    decreases s.len(),
{
    if s.len() > 0 {
        let rest = like_escaped(s.skip(1));
        escaped_query_is_taken_literally(s.skip(1));
        let e = like_escaped(s);
        if is_like_special(s[0]) {
            assert(e =~= seq!['\\', s[0]] + rest);
            assert(e.skip(2) =~= rest);
        } else {
            assert(e =~= seq![s[0]] + rest);
            assert(e.skip(1) =~= rest);
        }
        assert(seq![s[0]] + s.skip(1) =~= s);
    }
}

/// A substring pattern is a wildcard, then the query read literally, then a
/// wildcard.
pub proof fn substring_pattern_takes_the_query_literally(query: Seq<char>)
    ensures
        ({
            let p = substring_pattern(query);
            &&& p.len() >= 2
            &&& p[0] == '%'
            &&& p[p.len() - 1] == '%'
            &&& literal_text(p.subrange(1, p.len() - 1)) == Some(query)
        }),
{
    escaped_query_is_taken_literally(query);
    let p = substring_pattern(query);
    assert(p.subrange(1, p.len() - 1) =~= like_escaped(query));
}

/// The `LIKE` pattern for a substring search of the query taken literally.
pub fn literal_substring_pattern(query: &str) -> (r: String)
    ensures
        r@ == substring_pattern(query@),
{
    let chars = chars_of(query);
    let n = chars.len();
    let mut out: Vec<char> = Vec::new();
    out.push('%');
    let mut i: usize = 0;
    while i < n
        invariant
            i <= n == chars@.len(),
            out@ == seq!['%'] + like_escaped(chars@.take(i as int)),
        decreases n - i,
    {
        let c = chars[i];
        proof {
            assert(chars@.take(i + 1) =~= chars@.take(i as int).push(c));
            lemma_escaped_push(chars@.take(i as int), c);
        }
        if c == '\\' || c == '%' || c == '_' {
            out.push('\\');
        }
        out.push(c);
        assert(out@ =~= seq!['%'] + like_escaped(chars@.take(i + 1)));
        i = i + 1;
    }
    out.push('%');
    assert(chars@.take(n as int) =~= chars@);
    string_from_chars(&out)
}

} // verus!
