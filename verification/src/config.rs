//! What the service is set up with where nothing else is said.
use vstd::prelude::*;

use crate::text::to_chars;

verus! {

/// The port to listen on.
pub const DEFAULT_PORT: u16 = 3000;

/// Where requests are saved.
pub const DEFAULT_REQUEST_LOG: &'static str = "data/requests.jsonl";

/// Where the log was before it also held checks and extractions.
pub const LEGACY_REQUEST_LOG: &'static str = "data/serp_requests.jsonl";

/// Where the extractor's model is.
pub const DEFAULT_MODEL_DIR: &'static str = "models/gliner_large-v2.1";

/// Whether a text is made of decimal digits alone.
pub open spec fn all_digits(s: Seq<char>) -> bool {
    forall|i: int| 0 <= i < s.len() ==> '0' <= #[trigger] s[i] <= '9'
}

/// The number that decimal digits spell.
pub open spec fn number_of(s: Seq<char>) -> nat
    decreases s.len(),
{
    if s.len() == 0 {
        0
    } else {
        (number_of(s.drop_last()) * 10 + (s.last() as u32 - 48)) as nat
    }
}

/// The digits of a number that may have a plus sign before it.
pub open spec fn unsigned(s: Seq<char>) -> Seq<char> {
    if s.len() > 0 && s[0] == '+' {
        s.drop_first()
    } else {
        s
    }
}

/// The port that a text spells, if it spells one.
pub open spec fn port_read(s: Seq<char>) -> Option<u16> {
    let digits = unsigned(s);
    if digits.len() > 0 && all_digits(digits) && number_of(digits) <= u16::MAX {
        Some(number_of(digits) as u16)
    } else {
        None
    }
}

proof fn lemma_number_grows(s: Seq<char>, count: int)
    requires
        0 <= count <= s.len(),
        all_digits(s),
    ensures
        number_of(s.take(count)) <= number_of(s),
    decreases s.len(),
{
    if count == s.len() {
        assert(s.take(count) =~= s);
    } else {
        assert(s.drop_last().take(count) =~= s.take(count));
        assert('0' <= s[s.len() - 1]);
        lemma_number_grows(s.drop_last(), count);
    }
}

/// The port that a text spells, if it spells one.
pub fn parse_port(text: &str) -> (r: Option<u16>)
    ensures
        r == port_read(text@),
{
    let chars = to_chars(text);
    let from: usize = if chars.len() > 0 && chars[0] == '+' {
        1
    } else {
        0
    };
    let ghost digits = unsigned(text@);
    assert(digits =~= text@.skip(from as int));
    if chars.len() == from {
        return None;
    }
    let mut value: u32 = 0;
    let mut i: usize = from;
    assert(digits.take(0) =~= Seq::empty());
    while i < chars.len()
        invariant
            from <= i <= chars.len(),
            chars@ == text@,
            digits == text@.skip(from as int),
            value <= u16::MAX,
            value == number_of(digits.take(i - from)),
            forall|k: int| 0 <= k < i - from ==> '0' <= #[trigger] digits[k] <= '9',
            digits == unsigned(text@),
        decreases chars.len() - i,
    {
        let c = chars[i];
        assert(digits[i - from] == c);
        if !('0' <= c && c <= '9') {
            return None;
        }
        let ghost longer = digits.take(i - from + 1);
        assert(longer.drop_last() =~= digits.take(i - from));
        value = value * 10 + (c as u32 - 48);
        assert(value == number_of(longer));
        if value > 65535 {
            proof {
                if all_digits(digits) {
                    lemma_number_grows(digits, i - from + 1);
                }
            }
            return None;
        }
        i += 1;
    }
    assert(digits.take(i - from) =~= digits);
    Some(value as u16)
}

/// The port to listen on: the one asked for, or the default when none is or
/// what is asked for is no port.
pub fn port(asked: Option<&str>) -> (r: u16)
    ensures
        r == (match asked {
            Some(text) => match port_read(text@) {
                Some(port) => port,
                None => DEFAULT_PORT,
            },
            None => DEFAULT_PORT,
        }),
{
    match asked {
        Some(text) => match parse_port(text) {
            Some(port) => port,
            None => DEFAULT_PORT,
        },
        None => DEFAULT_PORT,
    }
}

/// What is to be done with a log at the old place.
#[derive(Debug, Clone, Copy, PartialEq, Eq, Structural)]
pub enum Migration {
    /// It is moved to the new place.
    Move,
    /// It is left alone: there is a log at the new place already.
    Leave,
    /// There is none.
    Nothing,
}

/// What is to be done with a log at the old place, so that existing history is
/// not silently left behind. An existing log is never overwritten.
pub fn migrate_legacy_request_log(legacy_is_file: bool, current_exists: bool) -> (r: Migration)
    ensures
        r == Migration::Move <==> legacy_is_file && !current_exists,
        r == Migration::Leave <==> legacy_is_file && current_exists,
        r == Migration::Nothing <==> !legacy_is_file,
{
    if legacy_is_file && !current_exists {
        Migration::Move
    } else if legacy_is_file {
        Migration::Leave
    } else {
        Migration::Nothing
    }
}

} // verus!
