//! Ports and identifiers are read as they are written.
use vstd::prelude::*;

use crate::config::all_digits;
use crate::config::number_of;
use crate::config::port_read;
use crate::config::DEFAULT_PORT;
use crate::config::DEFAULT_REQUEST_LOG;
use crate::config::LEGACY_REQUEST_LOG;
use crate::ids::grouped_digits;
use crate::ids::hex_digits;
use crate::ids::hex_number;
use crate::ids::hex_value;
use crate::ids::id_read;
use crate::ids::id_written;
use crate::ids::written_id_is_read_back;
use crate::laws::texts::decimals_are_read_back;
use crate::search::SerpApiClient;
use crate::text::ascii_lower;
use crate::text::ascii_lowered;
use crate::text::decimal;
use crate::text::same_ignoring_ascii_case;
use crate::text::strip_end;
use crate::text::Class;
use crate::verify::JevClient;

verus! {

/// A text is made of digits just when each of its characters is one of the ten.
pub proof fn digits_by_number(s: Seq<char>)
    ensures
        all_digits(s) <==> forall|i: int| 0 <= i < s.len() ==> '0' <= #[trigger] s[i] && s[i] <= '9',
{
}

/// A port written in decimal is read as that port, with a plus sign before it or
/// without; a number that is too large for a port is none.
pub proof fn ports_are_read_as_written(n: nat)
    ensures
        n <= 65535 ==> port_read(decimal(n)) == Some(n as u16),
        n <= 65535 ==> port_read(seq!['+'] + decimal(n)) == Some(n as u16),
        n > 65535 ==> port_read(decimal(n)) is None,
        n > 65535 ==> port_read(seq!['+'] + decimal(n)) is None,
{
    decimals_are_read_back(n);
    let signed = seq!['+'] + decimal(n);
    assert(signed.drop_first() =~= decimal(n));
    assert(48 <= decimal(n)[0] as u32 <= 57);
}

/// Only digits are read as a port, with a plus sign before them or without, and
/// at least one of them; zeros before a number do not matter.
pub proof fn only_digits_are_ports(s: Seq<char>)
    ensures
        port_read(Seq::empty()) is None,
        port_read(seq!['+']) is None,
        s.len() > 0 && s[0] != '+' && !all_digits(s) ==> port_read(s) is None,
        s.len() > 0 && s[0] == '+' && !all_digits(s.skip(1)) ==> port_read(s) is None,
        s.len() > 0 && all_digits(s) ==> port_read(s) == (if number_of(s) <= 65535 {
            Some(number_of(s) as u16)
        } else {
            None
        }),
        s.len() > 0 && all_digits(s) ==> port_read(seq!['+'] + s) == port_read(s),
        s.len() > 0 && all_digits(s) ==> port_read(seq!['0'] + s) == port_read(s),
{
    assert(seq!['+'].drop_first() =~= Seq::empty());
    if s.len() > 0 {
        assert(s.skip(1) =~= s.drop_first());
    }
    if s.len() > 0 && all_digits(s) {
        assert('0' <= s[0] <= '9');
        assert((seq!['+'] + s).drop_first() =~= s);
        let longer = seq!['0'] + s;
        assert forall|i: int| 0 <= i < longer.len() implies '0' <= #[trigger] longer[i] && longer[i]
            <= '9' by {
            if i > 0 {
                assert(longer[i] == s[i - 1]);
            }
        }
        lemma_zeros_do_not_matter(s);
    }
}

proof fn lemma_zeros_do_not_matter(s: Seq<char>)
    ensures
        number_of(seq!['0'] + s) == number_of(s),
    decreases s.len(),
{
    let longer = seq!['0'] + s;
    if s.len() == 0 {
        assert(longer.drop_last() =~= Seq::empty());
        assert(number_of(longer.drop_last()) == 0);
        assert(longer.last() == '0');
    } else {
        assert(longer.drop_last() =~= seq!['0'] + s.drop_last());
        assert(longer.last() == s.last());
        lemma_zeros_do_not_matter(s.drop_last());
    }
}

/// Two identifiers are never written the same, and each is written with thirty-six
/// characters: a hyphen at four of them, and at the others a hexadecimal digit,
/// in lower case.
pub proof fn identifiers_are_written_apart(a: u128, b: u128)
    ensures
        id_written(a) == id_written(b) ==> a == b,
        id_written(a).len() == 36,
        id_written(a)[8] == '-',
        id_written(a)[13] == '-',
        id_written(a)[18] == '-',
        id_written(a)[23] == '-',
        forall|i: int|
            0 <= i < 36 && i != 8 && i != 13 && i != 18 && i != 23 ==> small_hex(
                #[trigger] id_written(a)[i],
            ),
{
    written_id_is_read_back(a);
    written_id_is_read_back(b);
    lemma_thirty_two_digits(a as nat, 32);
    let h = hex_digits(a as nat, 32);
    let w = id_written(a);
    assert forall|i: int|
        0 <= i < 36 && i != 8 && i != 13 && i != 18 && i != 23 implies small_hex(
        #[trigger] w[i],
    ) by {
        let at: int = if i < 8 {
            i
        } else if i < 13 {
            i - 1
        } else if i < 18 {
            i - 2
        } else if i < 23 {
            i - 3
        } else {
            i - 4
        };
        assert(w[i] == h[at]);
    }
}

/// Whether a character is a hexadecimal digit in lower case.
pub open spec fn small_hex(c: char) -> bool {
    '0' <= c <= '9' || 'a' <= c <= 'f'
}

proof fn lemma_thirty_two_digits(n: nat, count: nat)
    ensures
        hex_digits(n, count).len() == count,
        forall|i: int| 0 <= i < count ==> small_hex(#[trigger] hex_digits(n, count)[i]),
    decreases count,
{
    if count > 0 {
        let less = hex_digits(n / 16, (count - 1) as nat);
        lemma_thirty_two_digits(n / 16, (count - 1) as nat);
        assert forall|i: int| 0 <= i < count implies small_hex(
            #[trigger] hex_digits(n, count)[i],
        ) by {
            if i < count - 1 {
                assert(hex_digits(n, count)[i] == less[i]);
            }
        }
    }
}

/// An identifier is read in braces and behind its prefix as it is without, and
/// its prefix in any case.
pub proof fn identifiers_are_read_in_every_form(id: u128, prefix: Seq<char>)
    ensures
        id_read(seq!['{'] + id_written(id) + seq!['}']) == Some(id),
        same_ignoring_ascii_case(prefix, "urn:uuid:"@) ==> id_read(prefix + id_written(id)) == Some(
            id,
        ),
{
    reveal_strlit("urn:uuid:");
    written_id_is_read_back(id);
    identifiers_are_written_apart(id, id);
    let w = id_written(id);
    let braced = seq!['{'] + w + seq!['}'];
    assert(braced.subrange(1, 37) =~= w);
    if same_ignoring_ascii_case(prefix, "urn:uuid:"@) {
        let long = prefix + w;
        assert(long.subrange(0, 9) =~= prefix);
        assert(long.subrange(9, 45) =~= w);
    }
}

proof fn lemma_hex_in_any_case(s: Seq<char>)
    ensures
        hex_number(ascii_lowered(s)) == hex_number(s),
    decreases s.len(),
{
    if s.len() > 0 {
        assert(ascii_lowered(s).drop_last() =~= ascii_lowered(s.drop_last()));
        lemma_hex_in_any_case(s.drop_last());
        assert(hex_value(ascii_lower(s.last())) == hex_value(s.last()));
    }
}

proof fn lemma_groups_in_any_case(s: Seq<char>)
    requires
        s.len() == 36,
    ensures
        grouped_digits(ascii_lowered(s)) == (match grouped_digits(s) {
            Some(digits) => Some(ascii_lowered(digits)),
            None => None,
        }),
{
    let low = ascii_lowered(s);
    assert(low[8] == '-' <==> s[8] == '-');
    assert(low[13] == '-' <==> s[13] == '-');
    assert(low[18] == '-' <==> s[18] == '-');
    assert(low[23] == '-' <==> s[23] == '-');
    match grouped_digits(s) {
        Some(digits) => {
            assert(ascii_lowered(digits) =~= low.subrange(0, 8) + low.subrange(9, 13)
                + low.subrange(14, 18) + low.subrange(19, 23) + low.subrange(24, 36));
        },
        None => {},
    }
}

/// An identifier is read the same in any ASCII case, and a text is one only if it
/// has the length of one of the four forms; the digits alone are one of them.
pub proof fn identifiers_are_read_in_any_case(s: Seq<char>, id: u128)
    ensures
        id_read(ascii_lowered(s)) == id_read(s),
        id_read(s) is Some ==> s.len() == 32 || s.len() == 36 || s.len() == 38 || s.len() == 45,
        id_read(hex_digits(id as nat, 32)) == Some(id),
{
    let low = ascii_lowered(s);
    written_id_is_read_back(id);
    lemma_thirty_two_digits(id as nat, 32);
    let h = hex_digits(id as nat, 32);
    let w = id_written(id);
    assert(w.subrange(0, 8) + w.subrange(9, 13) + w.subrange(14, 18) + w.subrange(19, 23)
        + w.subrange(24, 36) =~= h);
    if s.len() == 32 {
        lemma_hex_in_any_case(s);
    } else if s.len() == 36 {
        lemma_groups_in_any_case(s);
        match grouped_digits(s) {
            Some(digits) => {
                lemma_hex_in_any_case(digits);
            },
            None => {},
        }
    } else if s.len() == 38 {
        assert(low[0] == '{' <==> s[0] == '{');
        assert(low[37] == '}' <==> s[37] == '}');
        let inner = s.subrange(1, 37);
        assert(low.subrange(1, 37) =~= ascii_lowered(inner));
        lemma_groups_in_any_case(inner);
        match grouped_digits(inner) {
            Some(digits) => {
                lemma_hex_in_any_case(digits);
            },
            None => {},
        }
    } else if s.len() == 45 {
        let prefix = s.subrange(0, 9);
        let inner = s.subrange(9, 45);
        assert(low.subrange(0, 9) =~= ascii_lowered(prefix));
        assert(low.subrange(9, 45) =~= ascii_lowered(inner));
        lemma_same_when_lowered(prefix, "urn:uuid:"@);
        lemma_groups_in_any_case(inner);
        match grouped_digits(inner) {
            Some(digits) => {
                lemma_hex_in_any_case(digits);
            },
            None => {},
        }
    }
}

proof fn lemma_same_when_lowered(a: Seq<char>, b: Seq<char>)
    ensures
        same_ignoring_ascii_case(ascii_lowered(a), b) == same_ignoring_ascii_case(a, b),
{
    let low = ascii_lowered(a);
    assert forall|i: int| 0 <= i < a.len() implies ascii_lower(#[trigger] low[i]) == ascii_lower(
        a[i],
    ) by {}
    if same_ignoring_ascii_case(low, b) {
        assert forall|i: int| 0 <= i < a.len() implies #[trigger] ascii_lower(a[i]) == ascii_lower(
            b[i],
        ) by {
            assert(ascii_lower(low[i]) == ascii_lower(b[i]));
        }
    }
    if same_ignoring_ascii_case(a, b) {
        assert forall|i: int| 0 <= i < low.len() implies #[trigger] ascii_lower(low[i])
            == ascii_lower(b[i]) by {
            assert(ascii_lower(a[i]) == ascii_lower(b[i]));
        }
    }
}

/// Where nothing else is said, the service listens on port 3000, keeps its log
/// where it is looked for, and asks the two services where they are.
pub proof fn defaults_are_where_they_are_said_to_be()
    ensures
        DEFAULT_PORT == 3000,
        DEFAULT_REQUEST_LOG@ == "data/requests.jsonl"@,
        LEGACY_REQUEST_LOG@ == "data/serp_requests.jsonl"@,
        strip_end(SerpApiClient::DEFAULT_BASE_URL@, Class::Slash) == "https://serpapi.com"@,
        strip_end(JevClient::DEFAULT_BASE_URL@, Class::Slash) == "https://api.typesafe.ai"@,
{
    reveal_strlit("https://serpapi.com");
    reveal_strlit("https://api.typesafe.ai");
    assert("https://serpapi.com"@.last() == 'm');
    assert("https://api.typesafe.ai"@.last() == 'i');
}

} // verus!
