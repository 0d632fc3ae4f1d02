//! What cutting, joining and lowering a text does to it.
use vstd::prelude::*;
use vstd::utf8::encode_utf8;
use vstd::utf8::is_ascii_chars;

use crate::config::all_digits;
use crate::config::number_of;
use crate::laws::names::free_of;
use crate::text::alphanumeric;
use crate::text::ascii_lower;
use crate::text::ascii_lowered;
use crate::text::byte_offset;
use crate::text::byte_width;
use crate::text::cut_out;
use crate::text::decimal;
use crate::text::first_chars;
use crate::text::first_from;
use crate::text::found_at;
use crate::text::holds;
use crate::text::in_class;
use crate::text::joined;
use crate::text::lemma_first_from;
use crate::text::lemma_pieces_of_more;
use crate::text::lemma_pieces_some;
use crate::text::lowercase;
use crate::text::non_empty;
use crate::text::pieces;
use crate::text::same_ignoring_ascii_case;
use crate::text::spaced;
use crate::text::strip;
use crate::text::strip_end;
use crate::text::strip_start;
use crate::text::trimmed;
use crate::text::what_is_cut_out_is_gone;
use crate::text::white_space;
use crate::text::wide_alphanumeric;
use crate::text::wide_lowercase;
use crate::text::words;
use crate::text::Class;

verus! {

/// A character is white space just when its number is one of the twenty-five
/// that have that property.
pub proof fn white_space_by_number(c: char)
    ensures
        white_space(c) <==> ({
            let n = c as u32;
            9 <= n <= 13 || n == 32 || n == 133 || n == 160 || n == 5760 || 8192 <= n <= 8202 || n
                == 8232 || n == 8233 || n == 8239 || n == 8287 || n == 12288
        }),
{
}

/// Of the characters below 128 the digits and the letters of either case are
/// letters or numbers, and no others; beyond, `char::is_alphanumeric` says.
pub proof fn letters_and_numbers_by_number(c: char)
    ensures
        alphanumeric(c) <==> ({
            let n = c as u32;
            48 <= n <= 57 || 65 <= n <= 90 || 97 <= n <= 122 || (n >= 128 && wide_alphanumeric(c))
        }),
{
}

/// Each class is made of the characters it is named after.
pub proof fn classes_are_what_they_are_named(c: char)
    ensures
        in_class(Class::WhiteSpace, c) <==> white_space(c),
        in_class(Class::NotAlphanumeric, c) <==> !alphanumeric(c),
        in_class(Class::NameSeparator, c) <==> white_space(c) || c as u32 == 44,
        in_class(Class::Slash, c) <==> c as u32 == 47,
        in_class(Class::LineFeed, c) <==> c as u32 == 10,
{
}

/// Lowering in ASCII moves each of the twenty-six capitals by thirty-two, and
/// leaves every other character alone; it keeps the length of a text.
pub proof fn capitals_move_by_thirty_two(s: Seq<char>, i: int)
    requires
        0 <= i < s.len(),
    ensures
        ascii_lowered(s).len() == s.len(),
        65 <= s[i] as u32 <= 90 ==> ascii_lowered(s)[i] as u32 == s[i] as u32 + 32,
        !(65 <= s[i] as u32 <= 90) ==> ascii_lowered(s)[i] == s[i],
{
}

/// Two texts are the same ignoring ASCII case just when they are as long, and
/// at each place have the same character or one letter in both its cases.
pub proof fn same_but_for_case(a: Seq<char>, b: Seq<char>)
    ensures
        same_ignoring_ascii_case(a, b) <==> a.len() == b.len() && forall|i: int|
            #![trigger a[i]]
            0 <= i < a.len() ==> {
                let x = a[i] as u32;
                let y = b[i] as u32;
                x == y || (65 <= x <= 90 && y == x + 32) || (65 <= y <= 90 && x == y + 32)
            },
{
    if a.len() == b.len() {
        assert forall|i: int| 0 <= i < a.len() implies (#[trigger] ascii_lower(a[i])
            == ascii_lower(b[i]) <==> {
            let x = a[i] as u32;
            let y = b[i] as u32;
            x == y || (65 <= x <= 90 && y == x + 32) || (65 <= y <= 90 && x == y + 32)
        }) by {}
        if forall|i: int|
            #![trigger a[i]]
            0 <= i < a.len() ==> {
                let x = a[i] as u32;
                let y = b[i] as u32;
                x == y || (65 <= x <= 90 && y == x + 32) || (65 <= y <= 90 && x == y + 32)
            } {
            assert forall|i: int| 0 <= i < a.len() implies #[trigger] ascii_lower(a[i])
                == ascii_lower(b[i]) by {
                let x = a[i] as u32;
            }
        }
        if same_ignoring_ascii_case(a, b) {
            assert forall|i: int|
                #![trigger a[i]]
                0 <= i < a.len() implies {
                let x = a[i] as u32;
                let y = b[i] as u32;
                x == y || (65 <= x <= 90 && y == x + 32) || (65 <= y <= 90 && x == y + 32)
            } by {
                assert(ascii_lower(a[i]) == ascii_lower(b[i]));
            }
        }
    }
}

proof fn lemma_none_below_zero(c: char)
    ensures
        '\0' <= c,
{
}

/// Lower case is lowering in ASCII where the text is ASCII, and else what
/// `str::to_lowercase` makes of the text lowered in ASCII.
pub proof fn lower_case_goes_through_ascii(s: Seq<char>)
    ensures
        (forall|i: int| 0 <= i < s.len() ==> (#[trigger] s[i]) <= '\u{7f}') ==> lowercase(s)
            == ascii_lowered(s),
        !(forall|i: int| 0 <= i < s.len() ==> (#[trigger] s[i]) <= '\u{7f}') ==> lowercase(s)
            == wide_lowercase(ascii_lowered(s)),
{
    if is_ascii_chars(s) {
        assert forall|i: int| 0 <= i < s.len() implies (#[trigger] s[i]) <= '\u{7f}' by {}
    } else {
        if forall|i: int| 0 <= i < s.len() ==> (#[trigger] s[i]) <= '\u{7f}' {
            assert forall|i: int| 0 <= i < s.len() implies '\0' <= #[trigger] s[i]
                <= '\u{7f}' by {
                lemma_none_below_zero(s[i]);
            }
        }
    }
}

/// Whether a text is made of the characters of a class alone.
pub open spec fn made_of(s: Seq<char>, class: Class) -> bool {
    forall|i: int| 0 <= i < s.len() ==> in_class(class, #[trigger] s[i])
}

/// Stripping the front takes away all that is of the class there, and no more.
pub proof fn stripping_the_front(a: Seq<char>, m: Seq<char>, class: Class)
    requires
        made_of(a, class),
        m.len() > 0 ==> !in_class(class, m[0]),
    ensures
        strip_start(a + m, class) == m,
    decreases a.len(),
{
    if a.len() == 0 {
        assert(a + m =~= m);
    } else {
        assert(in_class(class, a[0]));
        assert((a + m)[0] == a[0]);
        assert((a + m).drop_first() =~= a.drop_first() + m);
        stripping_the_front(a.drop_first(), m, class);
    }
}

/// Stripping the end takes away all that is of the class there, and no more.
pub proof fn stripping_the_end(m: Seq<char>, b: Seq<char>, class: Class)
    requires
        made_of(b, class),
        m.len() > 0 ==> !in_class(class, m.last()),
    ensures
        strip_end(m + b, class) == m,
    decreases b.len(),
{
    if b.len() == 0 {
        assert(m + b =~= m);
    } else {
        assert(in_class(class, b[b.len() - 1]));
        assert((m + b).last() == b[b.len() - 1]);
        assert((m + b).drop_last() =~= m + b.drop_last());
        stripping_the_end(m, b.drop_last(), class);
    }
}

/// Stripping a text leaves what stands between the characters of the class at
/// its two ends, untouched; trimming does so with white space.
pub proof fn stripping_leaves_the_middle(
    a: Seq<char>,
    m: Seq<char>,
    b: Seq<char>,
    class: Class,
)
    requires
        made_of(a, class),
        made_of(b, class),
        m.len() > 0 ==> !in_class(class, m[0]) && !in_class(class, m.last()),
    ensures
        strip(a + m + b, class) == m,
        class == Class::WhiteSpace ==> trimmed(a + m + b) == m,
{
    if m.len() == 0 {
        assert(a + m + b =~= (a + b) + m);
        stripping_the_front(a + b, m, class);
        assert(strip_end(m, class) =~= m);
    } else {
        assert(a + m + b =~= a + (m + b));
        stripping_the_front(a, m + b, class);
        stripping_the_end(m, b, class);
    }
}

/// A text is split at each character of the class: the pieces are those of what
/// stands before it, and then those of what stands after it.
pub proof fn a_text_is_split_at_each_separator(a: Seq<char>, c: char, b: Seq<char>, class: Class)
    requires
        in_class(class, c),
    ensures
        pieces(a + seq![c] + b, class) == pieces(a, class) + pieces(b, class),
    decreases b.len(),
{
    let s = a + seq![c] + b;
    lemma_pieces_some(a, class);
    lemma_pieces_some(b, class);
    if b.len() == 0 {
        assert(s.drop_last() =~= a);
        assert(s.last() == c);
        assert(pieces(a, class) + pieces(b, class) =~= pieces(a, class).push(Seq::empty()));
    } else {
        let less = b.drop_last();
        assert(s.drop_last() =~= a + seq![c] + less);
        assert(s.last() == b.last());
        a_text_is_split_at_each_separator(a, c, less, class);
        lemma_pieces_some(less, class);
        let first = pieces(a, class);
        let second = pieces(less, class);
        assert((first + second).drop_last() =~= first + second.drop_last());
        assert((first + second).last() == second.last());
        assert(pieces(s, class) =~= first + pieces(b, class));
    }
}

/// A text without a character of the class is one piece, the whole of it.
pub proof fn a_text_without_separators_is_whole(s: Seq<char>, class: Class)
    requires
        free_of(s, class),
    ensures
        pieces(s, class) == seq![s],
{
    lemma_pieces_of_more(Seq::empty(), s, class);
    assert(Seq::<char>::empty() + s =~= s);
    assert(pieces(s, class) =~= seq![s]);
}

/// What is kept of a list of texts is those that have a character, each of them
/// and in order.
pub proof fn all_but_empty_texts_are_kept(parts: Seq<Seq<char>>)
    ensures
        non_empty(parts) == parts.filter(|part: Seq<char>| part.len() > 0),
    decreases parts.len(),
{
    reveal(Seq::filter);
    if parts.len() == 0 {
        assert(non_empty(parts) =~= parts);
    } else {
        all_but_empty_texts_are_kept(parts.drop_last());
    }
}

/// Joining two lists is joining each of them, with one separator between; a
/// single text is joined to itself, and nothing to nothing.
pub proof fn lists_are_joined_end_to_end(
    a: Seq<Seq<char>>,
    b: Seq<Seq<char>>,
    separator: Seq<char>,
)
    ensures
        a.len() == 0 ==> joined(a, separator).len() == 0,
        a.len() == 1 ==> joined(a, separator) == a[0],
        a.len() > 0 && b.len() > 0 ==> joined(a + b, separator) == joined(a, separator) + separator
            + joined(b, separator),
    decreases b.len(),
{
    if a.len() > 0 && b.len() > 0 {
        assert((a + b).drop_last() =~= a + b.drop_last());
        assert((a + b).last() == b.last());
        if b.len() == 1 {
            assert(a + b.drop_last() =~= a);
        } else {
            lists_are_joined_end_to_end(a, b.drop_last(), separator);
            let front = joined(a, separator);
            let middle = joined(b.drop_last(), separator);
            assert((front + separator + middle) + separator + b.last() =~= front + separator + (
            middle + separator + b.last()));
        }
    }
}

/// A character of white space parts the words before it from those after it; a
/// text without any is one word, unless it is empty.
pub proof fn white_space_parts_words(a: Seq<char>, c: char, b: Seq<char>)
    ensures
        white_space(c) ==> words(a + seq![c] + b) == words(a) + words(b),
        free_of(a, Class::WhiteSpace) ==> words(a) == if a.len() == 0 {
            Seq::<Seq<char>>::empty()
        } else {
            seq![a]
        },
{
    let class = Class::WhiteSpace;
    let keep = |part: Seq<char>| part.len() > 0;
    if white_space(c) {
        a_text_is_split_at_each_separator(a, c, b, class);
        all_but_empty_texts_are_kept(pieces(a + seq![c] + b, class));
        all_but_empty_texts_are_kept(pieces(a, class));
        all_but_empty_texts_are_kept(pieces(b, class));
        Seq::filter_distributes_over_add(pieces(a, class), pieces(b, class), keep);
    }
    if free_of(a, class) {
        a_text_without_separators_is_whole(a, class);
        let one = seq![a];
        assert(one.drop_last() =~= Seq::empty());
        assert(non_empty(Seq::<Seq<char>>::empty()) =~= Seq::empty());
        if a.len() > 0 {
            assert(words(a) =~= seq![a]);
        }
    }
}

/// Spacing a text out keeps its words and nothing else: the words are joined by
/// one space each.
pub proof fn spacing_out_keeps_the_words_alone(s: Seq<char>)
    ensures
        spaced(s) == joined(words(s), seq![' ']),
{
    reveal_strlit(" ");
    assert(" "@ =~= seq![' ']);
}

/// A text holds a part just when it is some text, the part, and some text.
pub proof fn holding_is_standing_somewhere(
    text: Seq<char>,
    part: Seq<char>,
    a: Seq<char>,
    b: Seq<char>,
)
    ensures
        text == a + part + b ==> holds(text, part),
        holds(text, part) ==> exists|at: int|
            0 <= at <= text.len() - part.len() && text == #[trigger] text.take(at) + part + text.skip(
                at + part.len(),
            ),
{
    if text == a + part + b {
        assert(text.subrange(a.len() as int, (a.len() + part.len()) as int) =~= part);
        assert(found_at(text, part, a.len() as int));
    }
    if holds(text, part) {
        let at = choose|at: int| #[trigger] found_at(text, part, at);
        assert(text.subrange(at, at + part.len()) =~= part);
        assert(text =~= text.take(at) + part + text.skip(at + part.len()));
    }
}

/// Cutting a part out goes on from the text without the first place at which it
/// stands: what stands before and after that place is kept.
pub proof fn the_first_occurrence_is_cut_out(a: Seq<char>, part: Seq<char>, b: Seq<char>)
    requires
        part.len() > 0,
        !holds((a + part).drop_last(), part),
    ensures
        cut_out(a + part + b, part) == cut_out(a + b, part),
{
    let text = a + part + b;
    let early = (a + part).drop_last();
    let first = a.len() as int;
    assert(text.subrange(first, first + part.len()) =~= part);
    assert(found_at(text, part, first));
    lemma_first_from(text, part, 0);
    let at = first_from(text, part, 0).unwrap();
    if at < first {
        assert(early.subrange(at, at + part.len()) =~= text.subrange(at, at + part.len()));
        assert(found_at(early, part, at));
    }
    assert(text.take(at) + text.skip(at + part.len()) =~= a + b);
}

/// Nothing is cut out of a text that does not hold the part, nor where there is no
/// part to cut out.
pub proof fn nothing_else_is_cut_out(text: Seq<char>, part: Seq<char>)
    ensures
        !holds(text, part) ==> cut_out(text, part) == text,
        part.len() == 0 ==> cut_out(text, part) == text,
{
    what_is_cut_out_is_gone(text, part);
    if part.len() == 0 {
        assert(text.subrange(0, 0) =~= part);
        assert(found_at(text, part, 0));
        assert(text.take(0) + text.skip(0) =~= text);
    }
}

/// A text cut off after a number of characters begins as the text does, and is
/// as long as that allows.
pub proof fn cutting_off_keeps_the_beginning(s: Seq<char>, count: nat)
    ensures
        first_chars(s, count).len() == if s.len() <= count {
            s.len()
        } else {
            count
        },
        forall|i: int| 0 <= i < first_chars(s, count).len() ==> first_chars(s, count)[i] == s[i],
{
}

/// A number in decimal is digits alone, without a zero to begin with but for
/// zero itself, and spells that number.
pub proof fn decimals_are_read_back(n: nat)
    ensures
        decimal(n).len() > 0,
        forall|i: int| 0 <= i < decimal(n).len() ==> 48 <= (#[trigger] decimal(n)[i]) as u32 <= 57,
        n > 0 ==> decimal(n)[0] as u32 != 48,
        all_digits(decimal(n)),
        number_of(decimal(n)) == n,
    decreases n,
{
    reveal_with_fuel(number_of, 3);
    if n < 10 {
        assert(decimal(n).drop_last() =~= Seq::empty());
    } else {
        decimals_are_read_back(n / 10);
        assert(decimal(n).drop_last() =~= decimal(n / 10));
        assert forall|i: int| 0 <= i < decimal(n).len() implies 48 <= (#[trigger] decimal(n)[i]) as u32
            <= 57 by {
            if i < decimal(n / 10).len() {
                assert(decimal(n)[i] == decimal(n / 10)[i]);
            }
        }
        assert(decimal(n)[0] == decimal(n / 10)[0]);
        assert forall|i: int| 0 <= i < decimal(n).len() implies '0' <= #[trigger] decimal(n)[i]
            <= '9' by {
            assert(48 <= decimal(n)[i] as u32 <= 57);
        }
    }
}

/// A digit at the end of a number makes it ten times as large and adds its own
/// value.
pub proof fn a_digit_more_is_ten_times_as_large(s: Seq<char>, c: char)
    requires
        48 <= c as u32 <= 57,
    ensures
        number_of(Seq::empty()) == 0,
        number_of(s.push(c)) == number_of(s) * 10 + (c as u32 - 48),
        all_digits(s.push(c)) == all_digits(s),
{
    assert(s.push(c).drop_last() =~= s);
    if all_digits(s) {
        assert forall|i: int| 0 <= i < s.push(c).len() implies '0' <= #[trigger] s.push(c)[i]
            <= '9' by {
            if i < s.len() {
                assert(s.push(c)[i] == s[i]);
            }
        }
    }
    if all_digits(s.push(c)) {
        assert forall|i: int| 0 <= i < s.len() implies '0' <= #[trigger] s[i] <= '9' by {
            assert(s.push(c)[i] == s[i]);
        }
    }
}

/// A position in bytes is how many bytes UTF-8 takes for what stands before it,
/// and a character takes as many as UTF-8 takes for it.
pub proof fn positions_count_bytes(s: Seq<char>, i: int, c: char)
    requires
        0 <= i <= s.len(),
    ensures
        byte_offset(s, i) == encode_utf8(s.subrange(0, i)).len(),
        byte_width(c) == encode_utf8(seq![c]).len(),
{
    assert(s.take(i) =~= s.subrange(0, i));
    reveal_with_fuel(encode_utf8, 2);
    assert(seq![c].drop_first() =~= Seq::empty());
}

} // verus!
