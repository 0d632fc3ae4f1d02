//! Identifiers and the clock: random identifiers, their written form, and the
//! time of day.
use vstd::prelude::*;

use crate::models::Timestamp;
use crate::text::same_ignoring_ascii_case;

verus! {

/// The hexadecimal digit of a number below sixteen, in lower case.
pub open spec fn hex_digit(d: nat) -> char {
    if d < 10 {
        (48 + d) as char
    } else {
        (87 + d) as char
    }
}

/// The last `count` hexadecimal digits of a number.
pub open spec fn hex_digits(n: nat, count: nat) -> Seq<char>
    decreases count,
{
    if count == 0 {
        Seq::empty()
    } else {
        hex_digits(n / 16, (count - 1) as nat).push(hex_digit(n % 16))
    }
}

/// The value of a hexadecimal digit in either case.
pub open spec fn hex_value(c: char) -> Option<nat> {
    if '0' <= c <= '9' {
        Some((c as u32 - 48) as nat)
    } else if 'a' <= c <= 'f' {
        Some((c as u32 - 87) as nat)
    } else if 'A' <= c <= 'F' {
        Some((c as u32 - 55) as nat)
    } else {
        None
    }
}

/// The number that hexadecimal digits spell.
pub open spec fn hex_number(s: Seq<char>) -> Option<nat>
    decreases s.len(),
{
    if s.len() == 0 {
        Some(0)
    } else {
        match (hex_number(s.drop_last()), hex_value(s.last())) {
            (Some(before), Some(last)) => Some(before * 16 + last),
            _ => None,
        }
    }
}

/// Thirty-two digits in the five groups of an identifier.
pub open spec fn hyphenated(h: Seq<char>) -> Seq<char> {
    h.subrange(0, 8) + seq!['-'] + h.subrange(8, 12) + seq!['-'] + h.subrange(12, 16) + seq!['-']
        + h.subrange(16, 20) + seq!['-'] + h.subrange(20, 32)
}

/// The identifier as it is written.
pub open spec fn id_written(id: u128) -> Seq<char> {
    hyphenated(hex_digits(id as nat, 32))
}

/// The digits of five groups, where the hyphens stand as they should.
pub open spec fn grouped_digits(s: Seq<char>) -> Option<Seq<char>> {
    if s.len() == 36 && s[8] == '-' && s[13] == '-' && s[18] == '-' && s[23] == '-' {
        Some(
            s.subrange(0, 8) + s.subrange(9, 13) + s.subrange(14, 18) + s.subrange(19, 23)
                + s.subrange(24, 36),
        )
    } else {
        None
    }
}

/// The digits of an identifier: plain, in five groups, in braces, or as a URN.
pub open spec fn id_digits(s: Seq<char>) -> Option<Seq<char>> {
    if s.len() == 32 {
        Some(s)
    } else if s.len() == 36 {
        grouped_digits(s)
    } else if s.len() == 38 && s[0] == '{' && s[37] == '}' {
        grouped_digits(s.subrange(1, 37))
    } else if s.len() == 45 && same_ignoring_ascii_case(s.subrange(0, 9), "urn:uuid:"@) {
        grouped_digits(s.subrange(9, 45))
    } else {
        None
    }
}

/// The identifier that a text stands for, if it stands for one.
pub open spec fn id_read(s: Seq<char>) -> Option<u128> {
    match id_digits(s) {
        Some(digits) => match hex_number(digits) {
            Some(value) => Some(value as u128),
            None => None,
        },
        None => None,
    }
}

/// Whether an identifier is marked as a random one.
pub open spec fn random_id(id: u128) -> bool {
    &&& (id / 0x1000_0000_0000_0000_0000) % 16 == 4
    &&& (id / 0x4000_0000_0000_0000) % 4 == 2
}

/// Whether a moment is one that the clock can show.
pub open spec fn clock_time(t: Timestamp) -> bool {
    0 <= t.secs && t.nanos < 1_000_000_000
}

/// Calls `Uuid::new_v4`. Trusted: whatever comes back carries the marks of a
/// random identifier. Which one it is rests on the system's random numbers;
/// without any to be had the call panics.
#[verifier::external_body]
pub(crate) fn new_id() -> (r: u128)
    ensures
        random_id(r),
{
    uuid::Uuid::new_v4().as_u128()
}

/// Calls `Uuid::parse_str`. Trusted: a text is read as its thirty-two
/// hexadecimal digits in one of the four forms, and refused otherwise.
#[verifier::external_body]
pub(crate) fn read_id(s: &str) -> (r: Option<u128>)
    ensures
        r == id_read(s@),
{
    match uuid::Uuid::parse_str(s) {
        Ok(id) => Some(id.as_u128()),
        Err(_) => None,
    }
}

/// Calls the `Display` format of `Uuid`. Trusted: the thirty-two hexadecimal
/// digits in lower case, in groups of 8, 4, 4, 4 and 12.
#[verifier::external_body]
pub(crate) fn write_id(id: u128) -> (r: String)
    ensures
        r@ == id_written(id),
{
    uuid::Uuid::from_u128(id).to_string()
}

/// Calls `Utc::now`. Trusted: not before 1970, and less than a second of
/// nanoseconds. Which moment it is rests on the system's clock; set before 1970
/// the call panics.
#[verifier::external_body]
pub(crate) fn now() -> (r: Timestamp)
    ensures
        clock_time(r),
{
    let moment = chrono::Utc::now();
    Timestamp { secs: moment.timestamp(), nanos: moment.timestamp_subsec_nanos() }
}

/// Sixteen to a power.
spec fn sixteens(count: nat) -> nat
    decreases count,
{
    if count == 0 {
        1
    } else {
        16 * sixteens((count - 1) as nat)
    }
}

proof fn lemma_hex_digits_len(n: nat, count: nat)
    ensures
        hex_digits(n, count).len() == count,
    decreases count,
{
    if count > 0 {
        lemma_hex_digits_len(n / 16, (count - 1) as nat);
    }
}

proof fn lemma_hex_round_trip(n: nat, count: nat)
    requires
        n < sixteens(count),
    ensures
        hex_number(hex_digits(n, count)) == Some(n),
    decreases count,
{
    if count > 0 {
        let rest = (count - 1) as nat;
        assert(n / 16 < sixteens(rest)) by (nonlinear_arith)
            requires
                n < 16 * sixteens(rest),
        ;
        lemma_hex_round_trip(n / 16, rest);
        let digits = hex_digits(n, count);
        assert(digits.drop_last() =~= hex_digits(n / 16, rest));
        assert(hex_value(hex_digit(n % 16)) == Some(n % 16));
    }
}

/// An identifier is read back from its written form.
pub proof fn written_id_is_read_back(id: u128)
    ensures
        id_read(id_written(id)) == Some(id),
{
    let n = id as nat;
    let h = hex_digits(n, 32);
    lemma_hex_digits_len(n, 32);
    reveal_with_fuel(sixteens, 33);
    assert(n < sixteens(32));
    lemma_hex_round_trip(n, 32);
    let w = id_written(id);
    assert(w.len() == 36);
    assert(w.subrange(0, 8) + w.subrange(9, 13) + w.subrange(14, 18) + w.subrange(19, 23)
        + w.subrange(24, 36) =~= h);
}

} // verus!
