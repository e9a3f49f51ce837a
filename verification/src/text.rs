//! Character-level text handling shared by the workshop's validation rules:
//! trimming, control-character detection, ASCII classification and the
//! decimal rendering of integers.

use vstd::prelude::*;

verus! {

/// The Unicode `White_Space` property (PropList.txt): the controls U+0009 to
/// U+000D, the space, U+0085, the no-break space, the Ogham space mark, the
/// spaces U+2000 to U+200A, the line and paragraph separators, the narrow
/// no-break space, the medium mathematical space and the ideographic space.
pub open spec fn white_space(c: char) -> bool {
    let u = c as u32;
    ||| 0x09 <= u <= 0x0d
    ||| u == 0x20
    ||| u == 0x85
    ||| u == 0xa0
    ||| u == 0x1680
    ||| 0x2000 <= u <= 0x200a
    ||| u == 0x2028
    ||| u == 0x2029
    ||| u == 0x202f
    ||| u == 0x205f
    ||| u == 0x3000
}

/// Calls `char::is_whitespace`, which the standard library documents as
/// true exactly when the character has the Unicode `White_Space` property.
#[verifier::external_body]
pub(crate) fn char_is_whitespace(c: char) -> (r: bool)
    ensures
        r == white_space(c),
{
    c.is_whitespace()
}

/// Builds a `String` from its characters (`FromIterator<&char> for String`).
#[verifier::external_body]
pub(crate) fn string_from_chars(chars: &Vec<char>) -> (s: String)
    ensures
        s@ == chars@,
{
    chars.iter().collect()
}

/// General category `Cc`: the C0 controls U+0000..=U+001F and the C1 controls
/// U+007F..=U+009F.
pub open spec fn is_control(c: char) -> bool {
    (c as u32) <= 0x1f || (0x7f <= (c as u32) && (c as u32) <= 0x9f)
}

/// Line feed, carriage return and horizontal tab.
pub open spec fn is_formatting_control(c: char) -> bool {
    c == '\n' || c == '\r' || c == '\t'
}

pub open spec fn is_ascii_char(c: char) -> bool {
    (c as u32) < 0x80
}

pub open spec fn is_ascii_digit(c: char) -> bool {
    0x30 <= (c as u32) && (c as u32) <= 0x39
}

pub open spec fn is_ascii_upper(c: char) -> bool {
    0x41 <= (c as u32) && (c as u32) <= 0x5a
}

pub open spec fn is_ascii_lower(c: char) -> bool {
    0x61 <= (c as u32) && (c as u32) <= 0x7a
}

/// `char::to_ascii_uppercase`: lowercase ASCII letters move up by 0x20,
/// every other character is unchanged.
pub open spec fn ascii_upper(c: char) -> char {
    if is_ascii_lower(c) {
        ((c as u32) - 0x20) as char
    } else {
        c
    }
}

pub open spec fn all_ascii(s: Seq<char>) -> bool {
    forall|i: int| 0 <= i < s.len() ==> is_ascii_char(#[trigger] s[i])
}

pub open spec fn upper_seq(s: Seq<char>) -> Seq<char> {
    Seq::new(s.len(), |i: int| ascii_upper(s[i]))
}

/// Index of the first character at or after `i` that is not white space,
/// or the length when there is none.
pub open spec fn first_kept(s: Seq<char>, i: int) -> int
    decreases s.len() - i,
{
    if i < 0 || i >= s.len() {
        s.len() as int
    } else if !white_space(s[i]) {
        i
    } else {
        first_kept(s, i + 1)
    }
}

/// One past the last character before `j` that is not white space, or zero.
pub open spec fn end_kept(s: Seq<char>, j: int) -> int
    decreases j,
{
    if j <= 0 || j > s.len() {
        0
    } else if !white_space(s[j - 1]) {
        j
    } else {
        end_kept(s, j - 1)
    }
}

/// The text with leading and trailing white space removed (`str::trim`).
pub open spec fn trimmed(s: Seq<char>) -> Seq<char> {
    let a = first_kept(s, 0);
    if a >= s.len() {
        Seq::empty()
    } else {
        s.subrange(a, end_kept(s, s.len() as int))
    }
}

/// Some character is a control character that the field does not accept.
pub open spec fn has_forbidden_control(s: Seq<char>, allow_formatting: bool) -> bool {
    exists|i: int|
        0 <= i < s.len() && is_control(#[trigger] s[i]) && !(allow_formatting
            && is_formatting_control(s[i]))
}

pub open spec fn digit_char(d: int) -> char {
    (0x30 + d) as char
}

/// Decimal digits of a natural number, most significant first.
pub open spec fn decimal(n: nat) -> Seq<char>
    decreases n,
{
    if n < 10 {
        seq![digit_char(n as int)]
    } else {
        decimal(n / 10).push(digit_char((n % 10) as int))
    }
}

/// Decimal text of an integer, with a leading minus sign when negative.
pub open spec fn int_text(n: int) -> Seq<char> {
    if n < 0 {
        seq!['-'] + decimal((-n) as nat)
    } else {
        decimal(n as nat)
    }
}

/// Decimal digits of `n` padded on the left with zeros to `width` characters.
pub open spec fn zero_padded(n: nat, width: nat) -> Seq<char> {
    let d = decimal(n);
    if d.len() >= width {
        d
    } else {
        Seq::new((width - d.len()) as nat, |i: int| '0') + d
    }
}


pub open spec fn reversed(s: Seq<char>) -> Seq<char> {
    Seq::new(s.len(), |i: int| s[s.len() - 1 - i])
}

fn digit(d: u64) -> (c: char)
    requires
        d < 10,
    ensures
        c == digit_char(d as int),
{
    let b: u8 = 0x30u8 + (d as u8);
    b as char
}

/// Decimal digits of `n`, most significant first.
pub fn decimal_chars(n: u64) -> (out: Vec<char>)
    ensures
        out@ == decimal(n as nat),
{
    let mut rest: u64 = n;
    let mut acc: Vec<char> = Vec::new();
    while rest >= 10
        invariant
            decimal(n as nat) =~= decimal(rest as nat) + reversed(acc@),
        decreases rest,
    {
        let d = rest % 10;
        acc.push(digit(d));
        rest = rest / 10;
        assert(reversed(acc@) =~= seq![digit_char(d as int)] + reversed(acc@.drop_last()));
    }
    let mut out: Vec<char> = Vec::new();
    out.push(digit(rest));
    let mut k: usize = acc.len();
    while k > 0
        invariant
            k <= acc@.len(),
            out@ =~= seq![digit_char(rest as int)] + reversed(acc@).take((acc@.len() - k) as int),
        decreases k,
    {
        k = k - 1;
        out.push(acc[k]);
    }
    assert(reversed(acc@).take(acc@.len() as int) =~= reversed(acc@));
    out
}


/// Decimal text of a signed integer, with a leading minus sign when negative.
pub fn int_to_text(n: i64) -> (s: String)
    ensures
        s@ == int_text(n as int),
{
    if n < 0 {
        let magnitude: u64 = (-(n as i128)) as u64;
        let mut chars: Vec<char> = Vec::new();
        chars.push('-');
        let mut digits = decimal_chars(magnitude);
        chars.append(&mut digits);
        assert(chars@ =~= int_text(n as int));
        string_from_chars(&chars)
    } else {
        let digits = decimal_chars(n as u64);
        string_from_chars(&digits)
    }
}

/// Decimal digits of `n`, padded on the left with zeros to `width` characters.
pub fn zero_padded_chars(n: u64, width: usize) -> (out: Vec<char>)
    ensures
        out@ == zero_padded(n as nat, width as nat),
{
    let mut digits = decimal_chars(n);
    if digits.len() >= width {
        return digits;
    }
    let pad = width - digits.len();
    let mut out: Vec<char> = Vec::new();
    let mut i: usize = 0;
    while i < pad
        invariant
            i <= pad,
            out@ =~= Seq::new(i as nat, |k: int| '0'),
        decreases pad - i,
    {
        out.push('0');
        i = i + 1;
    }
    out.append(&mut digits);
    out
}


/// The two texts one after the other.
pub fn join2(a: &str, b: &str) -> (r: String)
    ensures
        r@ == a@ + b@,
{
    let mut chars = chars_of(a);
    let mut tail = chars_of(b);
    chars.append(&mut tail);
    string_from_chars(&chars)
}

/// The four texts one after the other.
pub fn join4(a: &str, b: &str, c: &str, d: &str) -> (r: String)
    ensures
        r@ == a@ + b@ + c@ + d@,
{
    let mut chars = chars_of(a);
    let mut second = chars_of(b);
    let mut third = chars_of(c);
    let mut fourth = chars_of(d);
    chars.append(&mut second);
    chars.append(&mut third);
    chars.append(&mut fourth);
    string_from_chars(&chars)
}

/// The three texts one after the other.
pub fn join3(a: &str, b: &str, c: &str) -> (r: String)
    ensures
        r@ == a@ + b@ + c@,
{
    let mut chars = chars_of(a);
    let mut middle = chars_of(b);
    let mut tail = chars_of(c);
    chars.append(&mut middle);
    chars.append(&mut tail);
    string_from_chars(&chars)
}

/// The five texts one after the other.
pub fn join5(a: &str, b: &str, c: &str, d: &str, e: &str) -> (r: String)
    ensures
        r@ == a@ + b@ + c@ + d@ + e@,
{
    let mut chars = chars_of(a);
    let mut second = chars_of(b);
    let mut third = chars_of(c);
    let mut fourth = chars_of(d);
    let mut fifth = chars_of(e);
    chars.append(&mut second);
    chars.append(&mut third);
    chars.append(&mut fourth);
    chars.append(&mut fifth);
    string_from_chars(&chars)
}

/// Why a piece of free text is not acceptable for its field.
#[derive(Debug, Clone, Copy, PartialEq, Eq)]
pub enum TextFault {
    TooLong,
    ForbiddenControl,
}

/// Length is counted in characters; control characters are rejected except
/// line feed, carriage return and tab where the field allows formatting.
pub open spec fn text_fault(s: Seq<char>, maximum: nat, allow_formatting: bool) -> Option<TextFault> {
    if s.len() > maximum {
        Some(TextFault::TooLong)
    } else if has_forbidden_control(s, allow_formatting) {
        Some(TextFault::ForbiddenControl)
    } else {
        None
    }
}

/// Optional text as a record keeps it: absent when missing or blank,
/// otherwise trimmed.
pub open spec fn kept_text(value: Option<Seq<char>>) -> Option<Seq<char>> {
    match value {
        None => None,
        Some(v) => if trimmed(v).len() == 0 {
            None
        } else {
            Some(trimmed(v))
        },
    }
}

/// Text that a field of at most `maximum` characters takes: once trimmed it
/// is short enough and holds no control character the field refuses.
pub open spec fn fits_field(value: Seq<char>, maximum: nat, allow_formatting: bool) -> bool {
    trimmed(value).len() <= maximum && !has_forbidden_control(trimmed(value), allow_formatting)
}

pub open spec fn opt_chars(o: Option<String>) -> Option<Seq<char>> {
    match o {
        Some(s) => Some(s@),
        None => None,
    }
}

pub fn check_text(chars: &Vec<char>, maximum: usize, allow_formatting: bool) -> (r: Option<TextFault>)
    ensures
        r == text_fault(chars@, maximum as nat, allow_formatting),
{
    if chars.len() > maximum {
        Some(TextFault::TooLong)
    } else if find_forbidden_control(chars, allow_formatting) {
        Some(TextFault::ForbiddenControl)
    } else {
        None
    }
}

/// Borrows the text of an optional owned string.
pub fn opt_as_str(o: &Option<String>) -> (r: Option<&str>)
    ensures
        match r {
            Some(s) => o.is_some() && s@ == o.unwrap()@,
            None => o.is_none(),
        },
{
    match o {
        Some(s) => Some(s.as_str()),
        None => None,
    }
}

/// The characters of a string slice.
pub fn chars_of(s: &str) -> (out: Vec<char>)
    ensures
        out@ == s@,
{
    let mut out: Vec<char> = Vec::new();
    for c in it: s.chars()
        invariant
            out@ == it.seq().take(it.index() as int),
            it.seq() == s@,
    {
        out.push(c);
    }
    out
}

pub fn is_control_char(c: char) -> (r: bool)
    ensures
        r == is_control(c),
{
    let v: u32 = c as u32;
    v <= 0x1f || (0x7f <= v && v <= 0x9f)
}

pub fn is_ascii_digit_char(c: char) -> (r: bool)
    ensures
        r == is_ascii_digit(c),
{
    let v: u32 = c as u32;
    0x30 <= v && v <= 0x39
}

pub fn is_ascii_upper_char(c: char) -> (r: bool)
    ensures
        r == is_ascii_upper(c),
{
    let v: u32 = c as u32;
    0x41 <= v && v <= 0x5a
}

pub fn is_ascii_lower_char(c: char) -> (r: bool)
    ensures
        r == is_ascii_lower(c),
{
    let v: u32 = c as u32;
    0x61 <= v && v <= 0x7a
}

pub fn to_ascii_upper_char(c: char) -> (r: char)
    ensures
        r == ascii_upper(c),
{
    if is_ascii_lower_char(c) {
        let b: u8 = ((c as u32) - 0x20) as u8;
        let r: char = b as char;
        r
    } else {
        c
    }
}

/// Positions of the first and one past the last character kept by trimming.
pub fn trim_bounds(chars: &Vec<char>) -> (r: (usize, usize))
    ensures
        r.0 <= r.1 <= chars@.len(),
        trimmed(chars@) == chars@.subrange(r.0 as int, r.1 as int),
{
    let n = chars.len();
    let mut a: usize = 0;
    while a < n && char_is_whitespace(chars[a])
        invariant
            a <= n == chars@.len(),
            first_kept(chars@, 0) == first_kept(chars@, a as int),
        decreases n - a,
    {
        a = a + 1;
    }
    if a == n {
        assert(trimmed(chars@) =~= chars@.subrange(a as int, a as int));
        return (a, a);
    }
    let mut b: usize = n;
    while char_is_whitespace(chars[b - 1])
        invariant
            a < b <= n == chars@.len(),
            !white_space(chars@[a as int]),
            first_kept(chars@, 0) == a,
            end_kept(chars@, n as int) == end_kept(chars@, b as int),
        decreases b,
    {
        b = b - 1;
    }
    (a, b)
}

/// The trimmed text as a `String` together with its characters.
pub fn trim_text(s: &str) -> (r: (String, Vec<char>))
    ensures
        r.0@ == trimmed(s@),
        r.1@ == trimmed(s@),
{
    let chars = chars_of(s);
    let (a, b) = trim_bounds(&chars);
    let mut kept: Vec<char> = Vec::new();
    let mut i: usize = a;
    while i < b
        invariant
            a <= i <= b <= chars@.len(),
            kept@ == chars@.subrange(a as int, i as int),
        decreases b - i,
    {
        kept.push(chars[i]);
        i = i + 1;
    }
    let text = s.substring_char(a, b).to_string();
    (text, kept)
}

/// Whether some character is a control character that the field rejects.
pub fn find_forbidden_control(chars: &Vec<char>, allow_formatting: bool) -> (r: bool)
    ensures
        r == has_forbidden_control(chars@, allow_formatting),
{
    let n = chars.len();
    let mut i: usize = 0;
    while i < n
        invariant
            i <= n == chars@.len(),
            forall|k: int|
                0 <= k < i ==> !(is_control(#[trigger] chars@[k]) && !(allow_formatting
                    && is_formatting_control(chars@[k]))),
        decreases n - i,
    {
        let c = chars[i];
        if is_control_char(c) && !(allow_formatting && (c == '\n' || c == '\r' || c == '\t')) {
            return true;
        }
        i = i + 1;
    }
    false
}

/// Whether every character is ASCII.
pub fn all_ascii_chars(chars: &Vec<char>) -> (r: bool)
    ensures
        r == all_ascii(chars@),
{
    let n = chars.len();
    let mut i: usize = 0;
    while i < n
        invariant
            i <= n == chars@.len(),
            forall|k: int| 0 <= k < i ==> is_ascii_char(#[trigger] chars@[k]),
        decreases n - i,
    {
        if (chars[i] as u32) >= 0x80 {
            return false;
        }
        i = i + 1;
    }
    true
}

/// `to_ascii_uppercase` applied to every character.
pub fn upper_chars(chars: &Vec<char>) -> (r: Vec<char>)
    ensures
        r@ == upper_seq(chars@),
{
    let n = chars.len();
    let mut out: Vec<char> = Vec::new();
    let mut i: usize = 0;
    while i < n
        invariant
            i <= n == chars@.len(),
            out@ =~= upper_seq(chars@).take(i as int),
        decreases n - i,
    {
        out.push(to_ascii_upper_char(chars[i]));
        i = i + 1;
    }
    assert(out@ =~= upper_seq(chars@));
    out
}

} // verus!

verus! {

/// `first_kept` lands on a kept character or at the end.
proof fn lemma_first_kept(s: Seq<char>, i: int)
    requires
        0 <= i <= s.len(),
    ensures
        i <= first_kept(s, i) <= s.len(),
        first_kept(s, i) < s.len() ==> !white_space(s[first_kept(s, i)]),
        forall|k: int| i <= k < first_kept(s, i) ==> white_space(#[trigger] s[k]),
    decreases s.len() - i,
{
    if i < s.len() && white_space(s[i]) {
        lemma_first_kept(s, i + 1);
    }
}

/// `end_kept` lands just after a kept character or at zero.
proof fn lemma_end_kept(s: Seq<char>, j: int)
    requires
        0 <= j <= s.len(),
    ensures
        0 <= end_kept(s, j) <= j,
        end_kept(s, j) > 0 ==> !white_space(s[end_kept(s, j) - 1]),
        forall|k: int| end_kept(s, j) <= k < j ==> white_space(#[trigger] s[k]),
    decreases j,
{
    if j > 0 && white_space(s[j - 1]) {
        lemma_end_kept(s, j - 1);
    }
}

/// Trimmed text starts and ends with a character that is not white space.
pub proof fn lemma_trimmed_ends(s: Seq<char>)
    ensures
        trimmed(s).len() > 0 ==> !white_space(trimmed(s)[0]) && !white_space(
            trimmed(s)[trimmed(s).len() - 1],
        ),
        trimmed(s).len() <= s.len(),
{
    let a = first_kept(s, 0);
    lemma_first_kept(s, 0);
    lemma_end_kept(s, s.len() as int);
    if a < s.len() {
        let b = end_kept(s, s.len() as int);
        if b <= a {
            assert(white_space(s[a]));
        }
    }
}

/// Text that starts and ends with a character that is not white space is
/// its own trimmed form.
pub proof fn lemma_trimmed_unchanged(s: Seq<char>)
    requires
        s.len() > 0,
        !white_space(s[0]),
        !white_space(s[s.len() - 1]),
    ensures
        trimmed(s) == s,
{
    assert(first_kept(s, 0) == 0);
    assert(end_kept(s, s.len() as int) == s.len());
    assert(s.subrange(0, s.len() as int) =~= s);
}

/// Trimming text that is already trimmed changes nothing.
pub proof fn trim_is_idempotent(s: Seq<char>)
    ensures
        trimmed(trimmed(s)) == trimmed(s),
{
    let t = trimmed(s);
    lemma_trimmed_ends(s);
    if t.len() > 0 {
        lemma_trimmed_unchanged(t);
    } else {
        assert(trimmed(t) =~= t);
    }
}

/// The value of a digit character.
pub open spec fn digit_value(c: char) -> int {
    (c as u32) as int - 0x30
}

/// The number that a string of decimal digits stands for, most significant
/// digit first.
pub open spec fn decimal_value(s: Seq<char>) -> int
    decreases s.len(),
{
    if s.len() == 0 {
        0
    } else {
        decimal_value(s.drop_last()) * 10 + digit_value(s.last())
    }
}

/// The decimal digits of a number stand for that number.
pub proof fn decimal_digits_stand_for_the_number(n: nat)
    ensures
        decimal_value(decimal(n)) == n,
    decreases n,
{
    if n < 10 {
        let d = seq![digit_char(n as int)];
        assert(decimal(n) == d);
        assert(d.drop_last() =~= Seq::<char>::empty());
        assert(digit_char(n as int) as u32 == 0x30 + n);
        assert(decimal_value(d) == decimal_value(d.drop_last()) * 10 + digit_value(d.last()));
    } else {
        decimal_digits_stand_for_the_number(n / 10);
        let d = decimal(n / 10).push(digit_char((n % 10) as int));
        assert(d.drop_last() =~= decimal(n / 10));
        assert(digit_char((n % 10) as int) as u32 == 0x30 + n % 10);
        assert(decimal(n) == d);
        assert(d.last() == digit_char((n % 10) as int));
        assert((n / 10) * 10 + n % 10 == n) by (nonlinear_arith);
        assert(decimal_value(d) == decimal_value(decimal(n / 10)) * 10 + digit_value(d.last()));
    }
}

/// Leading zeros do not change the number a string of digits stands for.
proof fn lemma_leading_zeros(k: nat, s: Seq<char>)
    ensures
        decimal_value(Seq::new(k, |i: int| '0') + s) == decimal_value(s),
    decreases s.len(), k,
{
    let z = Seq::new(k, |i: int| '0');
    if s.len() == 0 {
        assert(z + s =~= z);
        if k > 0 {
            let shorter = Seq::new((k - 1) as nat, |i: int| '0');
            assert(z.drop_last() =~= shorter + Seq::<char>::empty());
            lemma_leading_zeros((k - 1) as nat, Seq::<char>::empty());
            assert(shorter + Seq::<char>::empty() =~= shorter);
            assert(z.last() == '0');
        }
    } else {
        lemma_leading_zeros(k, s.drop_last());
        assert((z + s).drop_last() =~= z + s.drop_last());
        assert((z + s).last() == s.last());
    }
}

/// Padding with zeros keeps the number that the digits stand for.
pub proof fn zero_padding_keeps_the_number(n: nat, width: nat)
    ensures
        decimal_value(zero_padded(n, width)) == n,
{
    decimal_digits_stand_for_the_number(n);
    let d = decimal(n);
    if d.len() < width {
        lemma_leading_zeros((width - d.len()) as nat, d);
    }
}

} // verus!
