//! Scanning the bytes of the kernel's text listings: lines, tokens that
//! white space sets apart, and unsigned numbers.

use vstd::prelude::*;
use vstd::slice::slice_subrange;
use vstd::string::*;

verus! {

/// The line feed.
pub const NEWLINE: u8 = 10;

/// The blank.
pub const BLANK: u8 = 32;

/// The plus sign.
pub const PLUS: u8 = 43;

/// The decimal point.
pub const DOT: u8 = 46;

/// The digit zero.
pub const ZERO: u8 = 48;

/// The digit nine.
pub const NINE: u8 = 57;

/// White space: the blank and the control characters from the tabulator to
/// the carriage return.
pub open spec fn is_space(b: u8) -> bool {
    b == BLANK || (9 <= b && b <= 13)
}

/// A decimal digit.
pub open spec fn is_digit(b: u8) -> bool {
    ZERO <= b && b <= NINE
}

/// The value of a decimal digit; a byte that is no digit counts as zero.
pub open spec fn digit_of(b: u8) -> nat {
    if is_digit(b) {
        (b - ZERO) as nat
    } else {
        0
    }
}

/// The kinds of byte that a scan looks for.
#[derive(Debug, Clone, Copy, PartialEq, Eq, Structural)]
pub enum ByteClass {
    /// White space.
    Space,
    /// Anything but white space.
    Visible,
    /// The line feed.
    Newline,
    /// The decimal point.
    Dot,
}

/// Whether a byte belongs to a class.
pub open spec fn in_class(b: u8, class: ByteClass) -> bool {
    match class {
        ByteClass::Space => is_space(b),
        ByteClass::Visible => !is_space(b),
        ByteClass::Newline => b == NEWLINE,
        ByteClass::Dot => b == DOT,
    }
}

/// The first position at or after `from` that holds a byte of the class, or
/// the length of the data where there is none.
pub open spec fn first_of(data: Seq<u8>, from: int, class: ByteClass) -> int
    decreases data.len() - from,
{
    if from < 0 || from >= data.len() {
        data.len() as int
    } else if in_class(data[from], class) {
        from
    } else {
        first_of(data, from + 1, class)
    }
}

/// What `first_of` finds: nothing of the class lies before it, and it is the
/// end of the data or holds a byte of the class.
pub proof fn lemma_first_of(data: Seq<u8>, from: int, class: ByteClass)
    requires
        0 <= from <= data.len(),
    ensures
        from <= first_of(data, from, class) <= data.len(),
        forall|k: int| from <= k < first_of(data, from, class) ==> !in_class(#[trigger] data[k], class),
        first_of(data, from, class) < data.len() ==> in_class(
            data[first_of(data, from, class)],
            class,
        ),
    decreases data.len() - from,
{
    if from < data.len() && !in_class(data[from], class) {
        lemma_first_of(data, from + 1, class);
    }
}

/// A position behind which nothing of the class lies, and which is the end
/// of the data or holds a byte of the class, is what `first_of` finds.
pub proof fn lemma_first_of_is(data: Seq<u8>, from: int, class: ByteClass, at: int)
    requires
        0 <= from <= at <= data.len(),
        forall|k: int| from <= k < at ==> !in_class(#[trigger] data[k], class),
        at < data.len() ==> in_class(data[at], class),
    ensures
        first_of(data, from, class) == at,
    decreases at - from,
{
    if from < at {
        lemma_first_of_is(data, from + 1, class, at);
    }
}

/// Tells whether a byte belongs to a class.
pub fn byte_in_class(b: u8, class: ByteClass) -> (yes: bool)
    ensures
        yes == in_class(b, class),
{
    match class {
        ByteClass::Space => b == BLANK || (9 <= b && b <= 13),
        ByteClass::Visible => !(b == BLANK || (9 <= b && b <= 13)),
        ByteClass::Newline => b == NEWLINE,
        ByteClass::Dot => b == DOT,
    }
}

/// Finds the first byte of a class at or after `from`; the length of the
/// data where there is none, or where `from` lies behind the data.
pub fn find_first(data: &[u8], from: usize, class: ByteClass) -> (at: usize)
    ensures
        at == first_of(data@, from as int, class),
        at <= data.len(),
        from <= data.len() ==> from <= at,
{
    if from >= data.len() {
        return data.len();
    }
    let mut at: usize = from;
    while at < data.len() && !byte_in_class(data[at], class)
        invariant
            from <= at <= data.len(),
            forall|k: int| from <= k < at ==> !in_class(#[trigger] data@[k], class),
        decreases data.len() - at,
    {
        at += 1;
    }
    proof {
        lemma_first_of_is(data@, from as int, class, at as int);
    }
    at
}

/// Whether the characters of `key` stand in `data` from position `at` on.
/// A key is plain ASCII text.
pub open spec fn key_matches_at(data: Seq<u8>, at: int, key: Seq<char>) -> bool {
    &&& 0 <= at
    &&& at + key.len() <= data.len()
    &&& forall|k: int| 0 <= k < key.len() ==> data[at + k] == key[k] as u8
}

/// Tells whether `key` stands in `data` from position `at` on.
pub(crate) fn has_key_at(data: &[u8], at: usize, key: &str) -> (yes: bool)
    requires
        key.is_ascii(),
    ensures
        yes == key_matches_at(data@, at as int, key@),
{
    broadcast use vstd::string::is_ascii_spec_bytes;

    let key_bytes = key.as_bytes();
    assert(key_bytes@.len() == key@.len());
    if at > data.len() || key_bytes.len() > data.len() - at {
        return false;
    }
    let mut k: usize = 0;
    while k < key_bytes.len()
        invariant
            k <= key_bytes.len(),
            key_bytes@.len() == key@.len(),
            at + key_bytes.len() <= data.len(),
            key_bytes@ =~= Seq::new(key@.len(), |i: int| key@[i] as u8),
            forall|j: int| 0 <= j < k ==> data@[at + j] == key@[j] as u8,
        decreases key_bytes.len() - k,
    {
        if data[at + k] != key_bytes[k] {
            return false;
        }
        k += 1;
    }
    true
}

/// Whether a line begins at position `at`: at the start of the data, or
/// behind a line feed.
pub open spec fn is_line_start(data: Seq<u8>, at: int) -> bool {
    0 <= at < data.len() && (at == 0 || data[at - 1] == NEWLINE)
}

/// Whether a line begins at `at` and begins with `key`.
pub open spec fn line_has_key(data: Seq<u8>, at: int, key: Seq<char>) -> bool {
    is_line_start(data, at) && key_matches_at(data, at, key)
}

/// Tells whether a line begins at `at` and begins with `key`.
pub(crate) fn keyed_line_at(data: &[u8], at: usize, key: &str) -> (yes: bool)
    requires
        key.is_ascii(),
    ensures
        yes == line_has_key(data@, at as int, key@),
{
    if at >= data.len() {
        return false;
    }
    if at > 0 && data[at - 1] != NEWLINE {
        return false;
    }
    has_key_at(data, at, key)
}

/// The line that begins at `at`, without its line feed.
pub open spec fn line_at(data: Seq<u8>, at: int) -> Seq<u8> {
    data.subrange(at, first_of(data, at, ByteClass::Newline))
}

/// Number of lines that begin before position `upto` and begin with `key`.
pub open spec fn count_keyed_lines(data: Seq<u8>, key: Seq<char>, upto: int) -> nat
    decreases upto,
{
    if upto <= 0 {
        0
    } else {
        count_keyed_lines(data, key, upto - 1) + if line_has_key(data, upto - 1, key) {
            1nat
        } else {
            0nat
        }
    }
}

/// Where the last line begins that begins before `upto` and begins with
/// `key`.
pub open spec fn last_keyed_line(data: Seq<u8>, key: Seq<char>, upto: int) -> Option<int>
    decreases upto,
{
    if upto <= 0 {
        None
    } else if line_has_key(data, upto - 1, key) {
        Some(upto - 1)
    } else {
        last_keyed_line(data, key, upto - 1)
    }
}

/// Where the token of index `n` begins (the tokens of a text are its
/// stretches of bytes other than white space); the length of the text where
/// it has no such token.
pub open spec fn token_start(text: Seq<u8>, n: nat) -> int
    decreases n,
{
    if n == 0 {
        first_of(text, 0, ByteClass::Visible)
    } else {
        let before = token_start(text, (n - 1) as nat);
        first_of(text, first_of(text, before, ByteClass::Space), ByteClass::Visible)
    }
}

/// The token of index `n`, counted from zero.
pub open spec fn token(text: Seq<u8>, n: nat) -> Option<Seq<u8>> {
    let start = token_start(text, n);
    if start < text.len() {
        Some(text.subrange(start, first_of(text, start, ByteClass::Space)))
    } else {
        None
    }
}

/// The view of an optional stretch of bytes.
pub open spec fn bytes_view(t: Option<&[u8]>) -> Option<Seq<u8>> {
    match t {
        Some(t) => Some(t@),
        None => None,
    }
}

/// Behind the last token there is no token.
pub proof fn lemma_no_token_behind_the_end(text: Seq<u8>, k: nat, n: nat)
    requires
        k <= n,
        token_start(text, k) == text.len(),
    ensures
        token_start(text, n) == text.len(),
    decreases n - k,
{
    if k < n {
        lemma_no_token_behind_the_end(text, k, (n - 1) as nat);
    }
}

/// Picks the token of index `n` out of a text.
pub fn nth_token(text: &[u8], n: usize) -> (found: Option<&[u8]>)
    ensures
        bytes_view(found) == token(text@, n as nat),
{
    let mut start = find_first(text, 0, ByteClass::Visible);
    let mut k: usize = 0;
    while k < n && start < text.len()
        invariant
            k <= n,
            start <= text.len(),
            start == token_start(text@, k as nat),
        decreases n - k,
    {
        let end = find_first(text, start, ByteClass::Space);
        start = find_first(text, end, ByteClass::Visible);
        k += 1;
    }
    if start < text.len() {
        let end = find_first(text, start, ByteClass::Space);
        Some(slice_subrange(text, start, end))
    } else {
        proof {
            lemma_no_token_behind_the_end(text@, k as nat, n as nat);
        }
        None
    }
}

/// The number that a run of digits writes.
pub open spec fn digits_value(digits: Seq<u8>) -> nat
    decreases digits.len(),
{
    if digits.len() == 0 {
        0
    } else {
        digits_value(digits.drop_last()) * 10 + digit_of(digits.last())
    }
}

/// Whether every byte is a decimal digit.
pub open spec fn all_digits(text: Seq<u8>) -> bool {
    forall|i: int| 0 <= i < text.len() ==> is_digit(#[trigger] text[i])
}

/// The digits of a token that may begin with a plus sign.
pub open spec fn unsigned_digits(token: Seq<u8>) -> Seq<u8> {
    if token.len() > 0 && token[0] == PLUS {
        token.subrange(1, token.len() as int)
    } else {
        token
    }
}

/// The unsigned 64-bit integer that a token writes: one digit or more, with
/// or without a plus sign before them, of a value that fits.
pub open spec fn parsed_u64(token: Seq<u8>) -> Option<u64> {
    let digits = unsigned_digits(token);
    if digits.len() > 0 && all_digits(digits) && digits_value(digits) <= u64::MAX {
        Some(digits_value(digits) as u64)
    } else {
        None
    }
}

/// Reads the digits of `text` from `from` up to the first byte that is no
/// digit.  Gives the position of that byte and the value read, or no value
/// where the value read does not fit.
fn read_digits(text: &[u8], from: usize) -> (r: (usize, Option<u64>))
    requires
        from <= text.len(),
    ensures
        from <= r.0 <= text.len(),
        all_digits(text@.subrange(from as int, r.0 as int)),
        r.0 < text.len() ==> !is_digit(text@[r.0 as int]),
        match r.1 {
            Some(v) => v == digits_value(text@.subrange(from as int, r.0 as int)),
            None => digits_value(text@.subrange(from as int, r.0 as int)) > u64::MAX,
        },
{
    let mut at: usize = from;
    let mut value: Option<u64> = Some(0);
    while at < text.len() && ZERO <= text[at] && text[at] <= NINE
        invariant
            from <= at <= text.len(),
            all_digits(text@.subrange(from as int, at as int)),
            match value {
                Some(v) => v == digits_value(text@.subrange(from as int, at as int)),
                None => digits_value(text@.subrange(from as int, at as int)) > u64::MAX,
            },
        decreases text.len() - at,
    {
        let digit: u64 = (text[at] - ZERO) as u64;
        proof {
            let longer = text@.subrange(from as int, at + 1);
            assert(longer.drop_last() =~= text@.subrange(from as int, at as int));
            assert(longer.last() == text@[at as int]);
        }
        value = match value {
            Some(v) => if v > (u64::MAX - digit) / 10 {
                None
            } else {
                Some(v * 10 + digit)
            },
            None => None,
        };
        at += 1;
    }
    (at, value)
}

/// Reads an unsigned 64-bit integer.
pub fn parse_u64(token: &[u8]) -> (value: Option<u64>)
    ensures
        value == parsed_u64(token@),
{
    let from: usize = if token.len() > 0 && token[0] == PLUS {
        1
    } else {
        0
    };
    let (end, read) = read_digits(token, from);
    proof {
        assert(unsigned_digits(token@) =~= token@.subrange(from as int, token@.len() as int));
    }
    if end < token.len() || end == from {
        proof {
            if end < token.len() {
                let digits = unsigned_digits(token@);
                assert(digits[end - from] == token@[end as int]);
            }
        }
        None
    } else {
        read
    }
}

/// The digit at index `i` behind the decimal point; zero where the fraction
/// has fewer digits.
pub open spec fn fraction_digit(fraction: Seq<u8>, i: int) -> nat {
    if 0 <= i < fraction.len() {
        digit_of(fraction[i])
    } else {
        0
    }
}

/// The millionths that the digits behind a decimal point write.  Digits
/// beyond the sixth are cut off.
pub open spec fn fraction_millionths(fraction: Seq<u8>) -> nat {
    fraction_digit(fraction, 0) * 100_000 + fraction_digit(fraction, 1) * 10_000 + fraction_digit(
        fraction,
        2,
    ) * 1_000 + fraction_digit(fraction, 3) * 100 + fraction_digit(fraction, 4) * 10
        + fraction_digit(fraction, 5)
}

/// The part of a decimal number before its point.
pub open spec fn whole_part(token: Seq<u8>) -> Seq<u8> {
    token.subrange(0, first_of(token, 0, ByteClass::Dot))
}

/// The part of a decimal number behind its point; empty without a point.
pub open spec fn fraction_part(token: Seq<u8>) -> Seq<u8> {
    let dot = first_of(token, 0, ByteClass::Dot);
    if dot < token.len() {
        token.subrange(dot + 1, token.len() as int)
    } else {
        Seq::empty()
    }
}

/// Whether a token writes an unsigned decimal number: digits, with or
/// without a decimal point among them, before them or behind them, and at
/// least one digit in all.
pub open spec fn is_decimal(token: Seq<u8>) -> bool {
    &&& all_digits(whole_part(token))
    &&& all_digits(fraction_part(token))
    &&& whole_part(token).len() + fraction_part(token).len() > 0
}

/// The millionths that a decimal number writes, rounded down.
pub open spec fn decimal_millionths(token: Seq<u8>) -> nat {
    digits_value(whole_part(token)) * 1_000_000 + fraction_millionths(fraction_part(token))
}

/// The fixed-point value, in millionths, that a token writes: an unsigned
/// decimal number whose millionths fit.
pub open spec fn parsed_millionths(token: Seq<u8>) -> Option<u64> {
    if is_decimal(token) && decimal_millionths(token) <= u64::MAX {
        Some(decimal_millionths(token) as u64)
    } else {
        None
    }
}

/// The value of the digit at index `i` of the fraction that begins at
/// `from`; zero where the text ends before it.
fn fraction_digit_at(text: &[u8], from: usize, i: usize) -> (d: u64)
    requires
        from <= text.len(),
        i < 6,
        all_digits(text@.subrange(from as int, text@.len() as int)),
    ensures
        d == fraction_digit(text@.subrange(from as int, text@.len() as int), i as int),
        d <= 9,
{
    if i < text.len() - from {
        let ghost fraction = text@.subrange(from as int, text@.len() as int);
        assert(fraction[i as int] == text@[from + i]);
        assert(is_digit(fraction[i as int]));
        (text[from + i] - ZERO) as u64
    } else {
        0
    }
}

/// Reads an unsigned decimal number as a fixed-point value in millionths.
pub fn parse_millionths(token: &[u8]) -> (value: Option<u64>)
    ensures
        value == parsed_millionths(token@),
{
    let (dot, whole) = read_digits(token, 0);
    if dot < token.len() && token[dot] != DOT {
        proof {
            lemma_first_of(token@, 0, ByteClass::Dot);
            let found = first_of(token@, 0, ByteClass::Dot);
            if found <= dot {
                if found < dot {
                    assert(token@.subrange(0, dot as int)[found] == token@[found]);
                }
            } else {
                assert(whole_part(token@)[dot as int] == token@[dot as int]);
            }
        }
        return None;
    }
    proof {
        assert forall|k: int| 0 <= k < dot implies !in_class(
            #[trigger] token@[k],
            ByteClass::Dot,
        ) by {
            assert(token@.subrange(0, dot as int)[k] == token@[k]);
        }
        lemma_first_of_is(token@, 0, ByteClass::Dot, dot as int);
    }
    let from: usize = if dot < token.len() {
        dot + 1
    } else {
        dot
    };
    let (end, _) = read_digits(token, from);
    proof {
        assert(fraction_part(token@) =~= token@.subrange(from as int, token@.len() as int));
    }
    if end < token.len() {
        proof {
            assert(fraction_part(token@)[end - from] == token@[end as int]);
        }
        return None;
    }
    if dot == 0 && end == from {
        return None;
    }
    let micros: u64 = fraction_digit_at(token, from, 0) * 100_000 + fraction_digit_at(
        token,
        from,
        1,
    ) * 10_000 + fraction_digit_at(token, from, 2) * 1_000 + fraction_digit_at(token, from, 3)
        * 100 + fraction_digit_at(token, from, 4) * 10 + fraction_digit_at(token, from, 5);
    match whole {
        Some(w) => {
            if w > (u64::MAX - micros) / 1_000_000 {
                None
            } else {
                Some(w * 1_000_000 + micros)
            }
        },
        None => None,
    }
}

} // verus!
