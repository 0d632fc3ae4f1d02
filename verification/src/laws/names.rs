//! Case and white space in names do not matter.
use vstd::prelude::*;
use vstd::utf8::is_ascii_chars;

use crate::ner::clean_token;
use crate::ner::kept_tokens;
use crate::ner::refers;
use crate::ner::tokens_of;
use crate::store::key_of;
use crate::store::norm;
use crate::text::ascii_lower;
use crate::text::ascii_lowered;
use crate::text::in_class;
use crate::text::joined;
use crate::text::lemma_lowered_twice;
use crate::text::lemma_pieces_of_more;
use crate::text::lemma_pieces_some;
use crate::text::lowercase;
use crate::text::non_empty;
use crate::text::pieces;
use crate::text::same_ignoring_ascii_case;
use crate::text::spaced;
use crate::text::strip;
use crate::text::strip_end;
use crate::text::strip_start;
use crate::text::trimmed;
use crate::text::words;
use crate::text::Class;

verus! {

proof fn lemma_strip_start(s: Seq<char>, class: Class)
    ensures
        strip_start(s, class).len() <= s.len(),
        strip_start(s, class) == s.skip(s.len() - strip_start(s, class).len()),
        strip_start(s, class).len() > 0 ==> !in_class(class, strip_start(s, class)[0]),
    decreases s.len(),
{
    if s.len() > 0 && in_class(class, s[0]) {
        lemma_strip_start(s.drop_first(), class);
        let r = strip_start(s, class);
        assert(r =~= s.skip(s.len() - r.len()));
    } else {
        assert(s.skip(0) =~= s);
    }
}

proof fn lemma_strip_end(s: Seq<char>, class: Class)
    ensures
        strip_end(s, class).len() <= s.len(),
        strip_end(s, class) == s.take(strip_end(s, class).len() as int),
        strip_end(s, class).len() > 0 ==> !in_class(class, strip_end(s, class).last()),
    decreases s.len(),
{
    if s.len() > 0 && in_class(class, s.last()) {
        lemma_strip_end(s.drop_last(), class);
        let r = strip_end(s, class);
        assert(r =~= s.take(r.len() as int));
    } else {
        assert(s.take(s.len() as int) =~= s);
    }
}

/// A text without the white space around it has no more to trim.
pub proof fn trimming_twice_is_trimming_once(s: Seq<char>)
    ensures
        trimmed(trimmed(s)) == trimmed(s),
{
    let class = Class::WhiteSpace;
    let front = strip_start(s, class);
    lemma_strip_start(s, class);
    lemma_strip_end(front, class);
    let t = trimmed(s);
    if t.len() > 0 {
        assert(t[0] == front[0]);
    }
    assert(strip_start(t, class) == t);
    assert(strip_end(t, class) == t);
}

proof fn lemma_words_without_end(s: Seq<char>)
    ensures
        words(strip_end(s, Class::WhiteSpace)) == words(s),
    decreases s.len(),
{
    if s.len() > 0 && in_class(Class::WhiteSpace, s.last()) {
        lemma_words_without_end(s.drop_last());
        let before = pieces(s.drop_last(), Class::WhiteSpace);
        assert(before.push(Seq::empty()).drop_last() =~= before);
    }
}

proof fn lemma_pieces_after_first(s: Seq<char>)
    requires
        s.len() > 0,
        in_class(Class::WhiteSpace, s[0]),
    ensures
        pieces(s, Class::WhiteSpace) == seq![Seq::<char>::empty()] + pieces(
            s.drop_first(),
            Class::WhiteSpace,
        ),
    decreases s.len(),
{
    let class = Class::WhiteSpace;
    let rest = s.drop_first();
    let nothing = seq![Seq::<char>::empty()];
    if s.len() == 1 {
        assert(s.drop_last() =~= Seq::empty());
        assert(rest =~= Seq::empty());
        assert(pieces(s, class) =~= nothing + pieces(rest, class));
    } else {
        lemma_pieces_after_first(s.drop_last());
        assert(s.drop_last().drop_first() =~= rest.drop_last());
        lemma_pieces_some(rest.drop_last(), class);
        let before = pieces(rest.drop_last(), class);
        assert((nothing + before).drop_last() =~= nothing + before.drop_last());
        assert(pieces(s, class) =~= nothing + pieces(rest, class));
    }
}

proof fn lemma_non_empty_after_first(parts: Seq<Seq<char>>)
    ensures
        non_empty(seq![Seq::<char>::empty()] + parts) == non_empty(parts),
    decreases parts.len(),
{
    let all = seq![Seq::<char>::empty()] + parts;
    if parts.len() == 0 {
        assert(all.drop_last() =~= parts);
        assert(all.last().len() == 0);
    } else {
        assert(all.drop_last() =~= seq![Seq::<char>::empty()] + parts.drop_last());
        assert(all.last() == parts.last());
        lemma_non_empty_after_first(parts.drop_last());
    }
}

proof fn lemma_words_without_start(s: Seq<char>)
    ensures
        words(strip_start(s, Class::WhiteSpace)) == words(s),
    decreases s.len(),
{
    if s.len() > 0 && in_class(Class::WhiteSpace, s[0]) {
        lemma_pieces_after_first(s);
        lemma_non_empty_after_first(pieces(s.drop_first(), Class::WhiteSpace));
        lemma_words_without_start(s.drop_first());
    }
}

/// A text has the same words with and without white space around it.
pub proof fn trimming_keeps_the_words(s: Seq<char>)
    ensures
        words(trimmed(s)) == words(s),
        spaced(trimmed(s)) == spaced(s),
{
    lemma_words_without_start(s);
    lemma_words_without_end(strip_start(s, Class::WhiteSpace));
}

/// White space around a name or a company does not change the key of a search.
pub proof fn key_ignores_space_around(name: Seq<char>, company: Seq<char>)
    ensures
        key_of(trimmed(name), trimmed(company)) == key_of(name, company),
{
    trimming_keeps_the_words(name);
    trimming_keeps_the_words(company);
}

proof fn lemma_lowered_class(c: char, class: Class)
    ensures
        in_class(class, ascii_lower(c)) == in_class(class, c),
        ascii_lower(ascii_lower(c)) == ascii_lower(c),
{
}

proof fn lemma_lowered_strip(s: Seq<char>, class: Class)
    ensures
        strip(ascii_lowered(s), class) == ascii_lowered(strip(s, class)),
{
    lemma_lowered_strip_start(s, class);
    lemma_lowered_strip_end(strip_start(s, class), class);
}

proof fn lemma_lowered_strip_start(s: Seq<char>, class: Class)
    ensures
        strip_start(ascii_lowered(s), class) == ascii_lowered(strip_start(s, class)),
    decreases s.len(),
{
    if s.len() > 0 {
        lemma_lowered_class(s[0], class);
        assert(ascii_lowered(s).drop_first() =~= ascii_lowered(s.drop_first()));
        lemma_lowered_strip_start(s.drop_first(), class);
    }
}

proof fn lemma_lowered_strip_end(s: Seq<char>, class: Class)
    ensures
        strip_end(ascii_lowered(s), class) == ascii_lowered(strip_end(s, class)),
    decreases s.len(),
{
    if s.len() > 0 {
        lemma_lowered_class(s.last(), class);
        assert(ascii_lowered(s).drop_last() =~= ascii_lowered(s.drop_last()));
        lemma_lowered_strip_end(s.drop_last(), class);
    }
}

proof fn lemma_same_is_same_lowered(a: Seq<char>, b: Seq<char>)
    ensures
        same_ignoring_ascii_case(a, b) <==> ascii_lowered(a) == ascii_lowered(b),
{
    if same_ignoring_ascii_case(a, b) {
        assert(ascii_lowered(a) =~= ascii_lowered(b));
    }
    if ascii_lowered(a) == ascii_lowered(b) {
        assert(a.len() == ascii_lowered(a).len());
        assert(b.len() == ascii_lowered(b).len());
        assert forall|i: int| 0 <= i < a.len() implies #[trigger] ascii_lower(a[i]) == ascii_lower(
            b[i],
        ) by {
            assert(ascii_lowered(a)[i] == ascii_lower(a[i]));
            assert(ascii_lowered(b)[i] == ascii_lower(b[i]));
        }
    }
}

/// Texts that differ in ASCII case only are the same in lower case, whatever
/// other characters they hold.
pub proof fn lower_case_ignores_ascii_case(a: Seq<char>, b: Seq<char>)
    requires
        same_ignoring_ascii_case(a, b),
    ensures
        lowercase(a) == lowercase(b),
{
    lemma_same_is_same_lowered(a, b);
    lemma_lowered_twice(a);
    lemma_lowered_twice(b);
}

proof fn lemma_pieces_of_lowered(s: Seq<char>, class: Class)
    ensures
        pieces(s, class).len() > 0,
        pieces(ascii_lowered(s), class).len() == pieces(s, class).len(),
        forall|i: int|
            0 <= i < pieces(s, class).len() ==> #[trigger] pieces(ascii_lowered(s), class)[i]
                == ascii_lowered(pieces(s, class)[i]),
    decreases s.len(),
{
    if s.len() == 0 {
        assert(ascii_lowered(s) =~= s);
        assert(ascii_lowered(Seq::<char>::empty()) =~= Seq::empty());
    } else {
        let low = ascii_lowered(s);
        lemma_lowered_class(s.last(), class);
        assert(low.drop_last() =~= ascii_lowered(s.drop_last()));
        lemma_pieces_of_lowered(s.drop_last(), class);
        let before = pieces(s.drop_last(), class);
        let before_low = pieces(low.drop_last(), class);
        if in_class(class, s.last()) {
            assert(ascii_lowered(Seq::<char>::empty()) =~= Seq::empty());
        } else {
            assert(before_low.last() == ascii_lowered(before.last()));
            assert(before_low.last().push(low.last()) =~= ascii_lowered(
                before.last().push(s.last()),
            ));
        }
    }
}

proof fn lemma_non_empty_of_lowered(parts: Seq<Seq<char>>, lowered: Seq<Seq<char>>)
    requires
        parts.len() == lowered.len(),
        forall|i: int|
            0 <= i < parts.len() ==> #[trigger] lowered[i] == ascii_lowered(parts[i]),
    ensures
        non_empty(lowered).len() == non_empty(parts).len(),
        forall|i: int|
            0 <= i < non_empty(parts).len() ==> #[trigger] non_empty(lowered)[i] == ascii_lowered(
                non_empty(parts)[i],
            ),
    decreases parts.len(),
{
    if parts.len() > 0 {
        let last = parts.len() - 1;
        assert forall|i: int| 0 <= i < last implies #[trigger] lowered.drop_last()[i]
            == ascii_lowered(parts.drop_last()[i]) by {
            assert(lowered[i] == ascii_lowered(parts[i]));
        }
        lemma_non_empty_of_lowered(parts.drop_last(), lowered.drop_last());
        assert(lowered[last] == ascii_lowered(parts[last]));
    }
}

proof fn lemma_joined_of_lowered(
    parts: Seq<Seq<char>>,
    lowered: Seq<Seq<char>>,
    separator: Seq<char>,
)
    requires
        parts.len() == lowered.len(),
        forall|i: int|
            0 <= i < parts.len() ==> #[trigger] lowered[i] == ascii_lowered(parts[i]),
        ascii_lowered(separator) == separator,
    ensures
        joined(lowered, separator) == ascii_lowered(joined(parts, separator)),
    decreases parts.len(),
{
    if parts.len() == 0 {
        assert(ascii_lowered(Seq::<char>::empty()) =~= Seq::empty());
    } else if parts.len() == 1 {
        assert(lowered[0] == ascii_lowered(parts[0]));
    } else {
        let last = parts.len() - 1;
        assert forall|i: int| 0 <= i < last implies #[trigger] lowered.drop_last()[i]
            == ascii_lowered(parts.drop_last()[i]) by {
            assert(lowered[i] == ascii_lowered(parts[i]));
        }
        lemma_joined_of_lowered(parts.drop_last(), lowered.drop_last(), separator);
        assert(lowered[last] == ascii_lowered(parts[last]));
        let before = joined(parts.drop_last(), separator);
        assert(ascii_lowered(before + separator + parts[last]) =~= ascii_lowered(before)
            + ascii_lowered(separator) + ascii_lowered(parts[last]));
    }
}

proof fn lemma_spaced_of_lowered(s: Seq<char>)
    ensures
        spaced(ascii_lowered(s)) == ascii_lowered(spaced(s)),
{
    let class = Class::WhiteSpace;
    lemma_pieces_of_lowered(s, class);
    lemma_non_empty_of_lowered(pieces(s, class), pieces(ascii_lowered(s), class));
    reveal_strlit(" ");
    assert(ascii_lowered(" "@) =~= " "@);
    lemma_joined_of_lowered(words(s), words(ascii_lowered(s)), " "@);
}

/// Names and companies whose words differ in ASCII case only have one key, so
/// one stored search, whatever white space stands around and between the words.
pub proof fn key_ignores_case_and_spacing(
    name: Seq<char>,
    other_name: Seq<char>,
    company: Seq<char>,
    other_company: Seq<char>,
)
    requires
        same_ignoring_ascii_case(spaced(name), spaced(other_name)),
        same_ignoring_ascii_case(spaced(company), spaced(other_company)),
    ensures
        key_of(name, company) == key_of(other_name, other_company),
{
    lower_case_ignores_ascii_case(spaced(name), spaced(other_name));
    lower_case_ignores_ascii_case(spaced(company), spaced(other_company));
}

proof fn lemma_spaced_ignores_ascii_case(a: Seq<char>, b: Seq<char>)
    requires
        same_ignoring_ascii_case(a, b),
    ensures
        same_ignoring_ascii_case(spaced(a), spaced(b)),
{
    lemma_same_is_same_lowered(a, b);
    lemma_spaced_of_lowered(a);
    lemma_spaced_of_lowered(b);
    lemma_same_is_same_lowered(spaced(a), spaced(b));
}

/// Names and companies that differ in ASCII case only have one key.
pub proof fn key_ignores_ascii_case(
    name: Seq<char>,
    other_name: Seq<char>,
    company: Seq<char>,
    other_company: Seq<char>,
)
    requires
        same_ignoring_ascii_case(name, other_name),
        same_ignoring_ascii_case(company, other_company),
    ensures
        key_of(name, company) == key_of(other_name, other_company),
{
    lemma_spaced_ignores_ascii_case(name, other_name);
    lemma_spaced_ignores_ascii_case(company, other_company);
    key_ignores_case_and_spacing(name, other_name, company, other_company);
}

/// Whether a text holds no character of a class.
pub open spec fn free_of(s: Seq<char>, class: Class) -> bool {
    forall|i: int| 0 <= i < s.len() ==> !in_class(class, #[trigger] s[i])
}

proof fn lemma_pieces_are_free(s: Seq<char>, class: Class)
    ensures
        pieces(s, class).len() > 0,
        forall|i: int|
            0 <= i < pieces(s, class).len() ==> free_of(#[trigger] pieces(s, class)[i], class),
    decreases s.len(),
{
    if s.len() > 0 {
        lemma_pieces_are_free(s.drop_last(), class);
        let before = pieces(s.drop_last(), class);
        assert(free_of(before[before.len() - 1], class));
    }
}

proof fn lemma_non_empty_are_free(parts: Seq<Seq<char>>, class: Class)
    requires
        forall|i: int| 0 <= i < parts.len() ==> free_of(#[trigger] parts[i], class),
    ensures
        forall|i: int|
            0 <= i < non_empty(parts).len() ==> free_of(#[trigger] non_empty(parts)[i], class)
                && non_empty(parts)[i].len() > 0,
    decreases parts.len(),
{
    if parts.len() > 0 {
        assert forall|i: int| 0 <= i < parts.drop_last().len() implies free_of(
            #[trigger] parts.drop_last()[i],
            class,
        ) by {
            assert(free_of(parts[i], class));
        }
        lemma_non_empty_are_free(parts.drop_last(), class);
        assert(free_of(parts[parts.len() - 1], class));
        let before = non_empty(parts.drop_last());
        assert forall|i: int| 0 <= i < non_empty(parts).len() implies free_of(
            #[trigger] non_empty(parts)[i],
            class,
        ) && non_empty(parts)[i].len() > 0 by {
            if i < before.len() {
                assert(non_empty(parts)[i] == before[i]);
            }
        }
    }
}

proof fn lemma_words_are_words(s: Seq<char>)
    ensures
        forall|i: int|
            0 <= i < words(s).len() ==> free_of(#[trigger] words(s)[i], Class::WhiteSpace)
                && words(s)[i].len() > 0,
{
    lemma_pieces_are_free(s, Class::WhiteSpace);
    lemma_non_empty_are_free(pieces(s, Class::WhiteSpace), Class::WhiteSpace);
}

proof fn lemma_joined_has_no_line_feed(parts: Seq<Seq<char>>)
    requires
        forall|i: int| 0 <= i < parts.len() ==> free_of(#[trigger] parts[i], Class::WhiteSpace),
    ensures
        !joined(parts, " "@).contains('\n'),
    decreases parts.len(),
{
    reveal_strlit(" ");
    if parts.len() == 1 {
        assert(free_of(parts[0], Class::WhiteSpace));
        if parts[0].contains('\n') {
            let i = choose|i: int| 0 <= i < parts[0].len() && parts[0][i] == '\n';
            assert(in_class(Class::WhiteSpace, parts[0][i]));
        }
    } else if parts.len() > 1 {
        let less = parts.drop_last();
        assert forall|i: int| 0 <= i < less.len() implies free_of(
            #[trigger] less[i],
            Class::WhiteSpace,
        ) by {
            assert(free_of(parts[i], Class::WhiteSpace));
        }
        lemma_joined_has_no_line_feed(less);
        let before = joined(less, " "@);
        let last = parts[parts.len() - 1];
        assert(free_of(last, Class::WhiteSpace));
        let all = joined(parts, " "@);
        if all.contains('\n') {
            let i = choose|i: int| 0 <= i < all.len() && all[i] == '\n';
            if i < before.len() {
                assert(before[i] == '\n');
            } else if i > before.len() {
                assert(last[i - before.len() - 1] == '\n');
                assert(in_class(Class::WhiteSpace, last[i - before.len() - 1]));
            }
        }
    }
}

proof fn lemma_norm_has_no_line_feed(s: Seq<char>)
    ensures
        !norm(s).contains('\n'),
{
    lemma_words_are_words(lowercase(spaced(s)));
    lemma_joined_has_no_line_feed(words(lowercase(spaced(s))));
}

/// Two people at their companies have one key if and only if both their names
/// and their companies are the same but for case and white space: nobody is
/// answered from somebody else's search.
pub proof fn key_tells_people_apart(
    name: Seq<char>,
    other_name: Seq<char>,
    company: Seq<char>,
    other_company: Seq<char>,
)
    ensures
        key_of(name, company) == key_of(other_name, other_company) <==> norm(name) == norm(
            other_name,
        ) && norm(company) == norm(other_company),
{
    reveal_strlit("\n");
    lemma_norm_has_no_line_feed(name);
    lemma_norm_has_no_line_feed(other_name);
    let key = key_of(name, company);
    let a = norm(name);
    let b = norm(other_name);
    if key == key_of(other_name, other_company) {
        assert(key[a.len() as int] == '\n');
        assert(key[b.len() as int] == '\n');
        if a.len() < b.len() {
            assert(b[a.len() as int] == '\n');
        }
        if b.len() < a.len() {
            assert(a[b.len() as int] == '\n');
        }
        assert(a =~= key.take(a.len() as int));
        assert(b =~= key.take(a.len() as int));
        assert(norm(company) =~= key.skip(a.len() as int + 1));
        assert(norm(other_company) =~= key.skip(a.len() as int + 1));
    }
}

proof fn lemma_words_of_joined(parts: Seq<Seq<char>>)
    requires
        forall|i: int|
            0 <= i < parts.len() ==> free_of(#[trigger] parts[i], Class::WhiteSpace)
                && parts[i].len() > 0,
    ensures
        words(joined(parts, " "@)) == parts,
    decreases parts.len(),
{
    let class = Class::WhiteSpace;
    reveal_strlit(" ");
    if parts.len() == 0 {
        let nothing = pieces(Seq::<char>::empty(), class);
        assert(nothing =~= seq![Seq::<char>::empty()] + parts);
        lemma_non_empty_after_first(parts);
        assert(non_empty(parts) =~= parts);
    } else {
        let less = parts.drop_last();
        let last = parts[parts.len() - 1];
        assert(free_of(last, class) && last.len() > 0);
        assert forall|i: int| 0 <= i < less.len() implies free_of(#[trigger] less[i], class)
            && less[i].len() > 0 by {
            assert(free_of(parts[i], class));
        }
        lemma_words_of_joined(less);
        if parts.len() == 1 {
            lemma_pieces_of_more(Seq::empty(), last, class);
            assert(Seq::<char>::empty() + last =~= last);
            let all = pieces(last, class);
            assert(all =~= seq![last]);
            assert(all.drop_last() =~= less);
            assert(non_empty(less) =~= less);
            assert(words(last) =~= parts);
        } else {
            let before = joined(less, " "@);
            let open = before + " "@;
            assert(open.drop_last() =~= before);
            assert(open.last() == ' ');
            lemma_pieces_of_more(open, last, class);
            assert(Seq::<char>::empty() + last =~= last);
            let all = pieces(open + last, class);
            assert(all =~= pieces(before, class).push(last));
            assert(all.drop_last() =~= pieces(before, class));
            assert(words(open + last) =~= less.push(last));
            assert(less.push(last) =~= parts);
        }
    }
}

/// An ASCII name without what does not matter in it is its words in lower case
/// with single spaces between.
pub proof fn norm_of_ascii_names(s: Seq<char>)
    requires
        is_ascii_chars(s),
    ensures
        norm(s) == joined(words(lowercase(s)), " "@),
{
    let low = ascii_lowered(s);
    lemma_spaced_of_lowered(s);
    lemma_words_are_words(low);
    lemma_words_of_joined(words(low));
    lemma_spaced_ascii(s);
}

/// Whether two names have the same words, ASCII case aside.
pub open spec fn same_words(a: Seq<char>, b: Seq<char>) -> bool {
    &&& words(a).len() == words(b).len()
    &&& forall|i: int|
        0 <= i < words(a).len() ==> same_ignoring_ascii_case(#[trigger] words(a)[i], words(b)[i])
}

/// Two ASCII names are the same but for case and white space just when they have
/// the same words, one by one, case aside.
pub proof fn ascii_names_go_by_their_words(a: Seq<char>, b: Seq<char>)
    requires
        is_ascii_chars(a),
        is_ascii_chars(b),
    ensures
        norm(a) == norm(b) <==> same_words(a, b),
{
    norm_of_ascii_names(a);
    norm_of_ascii_names(b);
    lemma_words_of_lowered(a);
    lemma_words_of_lowered(b);
    let x = words(ascii_lowered(a));
    let y = words(ascii_lowered(b));
    lemma_words_are_words(ascii_lowered(a));
    lemma_words_are_words(ascii_lowered(b));
    lemma_words_of_joined(x);
    lemma_words_of_joined(y);
    if same_words(a, b) {
        assert forall|i: int| 0 <= i < x.len() implies x[i] == y[i] by {
            assert(same_ignoring_ascii_case(words(a)[i], words(b)[i]));
            lemma_same_is_same_lowered(words(a)[i], words(b)[i]);
        }
        assert(x =~= y);
    }
    if norm(a) == norm(b) {
        assert(x == y);
        assert forall|i: int| 0 <= i < words(a).len() implies same_ignoring_ascii_case(
            #[trigger] words(a)[i],
            words(b)[i],
        ) by {
            assert(x[i] == ascii_lowered(words(a)[i]));
            assert(y[i] == ascii_lowered(words(b)[i]));
            lemma_same_is_same_lowered(words(a)[i], words(b)[i]);
        }
    }
}

proof fn lemma_words_of_lowered(s: Seq<char>)
    ensures
        words(ascii_lowered(s)).len() == words(s).len(),
        forall|i: int|
            0 <= i < words(s).len() ==> #[trigger] words(ascii_lowered(s))[i] == ascii_lowered(
                words(s)[i],
            ),
{
    let class = Class::WhiteSpace;
    lemma_pieces_of_lowered(s, class);
    lemma_non_empty_of_lowered(pieces(s, class), pieces(ascii_lowered(s), class));
}

/// Any name without what does not matter in it has the words of the name in
/// lower case, with its words one space apart.
pub proof fn norm_of_any_name(s: Seq<char>)
    ensures
        words(norm(s)) == words(lowercase(joined(words(s), seq![' ']))),
        norm(s) == joined(words(norm(s)), seq![' ']),
{
    reveal_strlit(" ");
    assert(" "@ =~= seq![' ']);
    let low = lowercase(spaced(s));
    lemma_words_are_words(low);
    lemma_words_of_joined(words(low));
}

/// A key is the name and then the company, a line feed between, both without what
/// does not matter in them.
pub proof fn keys_put_the_name_first(name: Seq<char>, company: Seq<char>)
    ensures
        key_of(name, company) == norm(name).push('\n') + norm(company),
{
    reveal_strlit("\n");
    assert(key_of(name, company) =~= norm(name).push('\n') + norm(company));
}

/// The words of a text, joined by spaces, are its words again.
pub proof fn spacing_out_keeps_the_words(s: Seq<char>)
    ensures
        words(spaced(s)) == words(s),
        spaced(spaced(s)) == spaced(s),
{
    lemma_words_are_words(s);
    lemma_words_of_joined(words(s));
}

proof fn lemma_spaced_ascii(s: Seq<char>)
    requires
        is_ascii_chars(s),
    ensures
        is_ascii_chars(spaced(s)),
{
    lemma_pieces_ascii(s, Class::WhiteSpace);
    lemma_non_empty_ascii(pieces(s, Class::WhiteSpace));
    lemma_joined_ascii(words(s));
}

proof fn lemma_non_empty_ascii(parts: Seq<Seq<char>>)
    requires
        forall|i: int| 0 <= i < parts.len() ==> is_ascii_chars(#[trigger] parts[i]),
    ensures
        forall|i: int|
            0 <= i < non_empty(parts).len() ==> is_ascii_chars(#[trigger] non_empty(parts)[i]),
    decreases parts.len(),
{
    if parts.len() > 0 {
        assert forall|i: int| 0 <= i < parts.drop_last().len() implies is_ascii_chars(
            #[trigger] parts.drop_last()[i],
        ) by {
            assert(is_ascii_chars(parts[i]));
        }
        lemma_non_empty_ascii(parts.drop_last());
        assert(is_ascii_chars(parts[parts.len() - 1]));
        let before = non_empty(parts.drop_last());
        assert forall|i: int| 0 <= i < non_empty(parts).len() implies is_ascii_chars(
            #[trigger] non_empty(parts)[i],
        ) by {
            if i < before.len() {
                assert(non_empty(parts)[i] == before[i]);
            }
        }
    }
}

proof fn lemma_joined_ascii(parts: Seq<Seq<char>>)
    requires
        forall|i: int| 0 <= i < parts.len() ==> is_ascii_chars(#[trigger] parts[i]),
    ensures
        is_ascii_chars(joined(parts, " "@)),
    decreases parts.len(),
{
    reveal_strlit(" ");
    if parts.len() == 1 {
        assert(is_ascii_chars(parts[0]));
    } else if parts.len() > 1 {
        assert forall|i: int| 0 <= i < parts.drop_last().len() implies is_ascii_chars(
            #[trigger] parts.drop_last()[i],
        ) by {
            assert(is_ascii_chars(parts[i]));
        }
        lemma_joined_ascii(parts.drop_last());
        assert(is_ascii_chars(parts[parts.len() - 1]));
    }
}

proof fn lemma_pieces_ascii(s: Seq<char>, class: Class)
    requires
        is_ascii_chars(s),
    ensures
        pieces(s, class).len() > 0,
        forall|i: int|
            0 <= i < pieces(s, class).len() ==> is_ascii_chars(#[trigger] pieces(s, class)[i]),
    decreases s.len(),
{
    if s.len() > 0 {
        lemma_pieces_ascii(s.drop_last(), class);
        let before = pieces(s.drop_last(), class);
        assert(is_ascii_chars(before.last()));
        assert(is_ascii_chars(before.last().push(s.last())));
    }
}

proof fn lemma_kept_tokens_alike(parts: Seq<Seq<char>>, others: Seq<Seq<char>>)
    requires
        parts.len() == others.len(),
        forall|i: int|
            0 <= i < parts.len() ==> clean_token(#[trigger] parts[i]) == clean_token(others[i]),
    ensures
        kept_tokens(parts) == kept_tokens(others),
    decreases parts.len(),
{
    if parts.len() > 0 {
        assert forall|i: int| 0 <= i < parts.drop_last().len() implies clean_token(
            #[trigger] parts.drop_last()[i],
        ) == clean_token(others.drop_last()[i]) by {
            assert(clean_token(parts[i]) == clean_token(others[i]));
        }
        lemma_kept_tokens_alike(parts.drop_last(), others.drop_last());
        assert(clean_token(parts[parts.len() - 1]) == clean_token(others[parts.len() - 1]));
    }
}

proof fn lemma_tokens_of_lowered(s: Seq<char>)
    ensures
        tokens_of(ascii_lowered(s)) == tokens_of(s),
{
    let class = Class::NameSeparator;
    lemma_pieces_of_lowered(s, class);
    let parts = pieces(s, class);
    let lowered = pieces(ascii_lowered(s), class);
    assert forall|i: int| 0 <= i < lowered.len() implies clean_token(#[trigger] lowered[i])
        == clean_token(parts[i]) by {
        let stripped = strip(parts[i], Class::NotAlphanumeric);
        lemma_lowered_strip(parts[i], Class::NotAlphanumeric);
        lemma_lowered_twice(stripped);
        lemma_same_is_same_lowered(stripped, ascii_lowered(stripped));
        lower_case_ignores_ascii_case(stripped, ascii_lowered(stripped));
    }
    lemma_kept_tokens_alike(lowered, parts);
}

/// Whether a span refers to a person does not hang on the ASCII case of either.
pub proof fn reference_ignores_ascii_case(
    person: Seq<char>,
    other_person: Seq<char>,
    name: Seq<char>,
    other_name: Seq<char>,
)
    requires
        same_ignoring_ascii_case(person, other_person),
        same_ignoring_ascii_case(name, other_name),
    ensures
        refers(person, name) == refers(other_person, other_name),
{
    lemma_same_is_same_lowered(person, other_person);
    lemma_same_is_same_lowered(name, other_name);
    lemma_tokens_of_lowered(person);
    lemma_tokens_of_lowered(other_person);
    lemma_tokens_of_lowered(name);
    lemma_tokens_of_lowered(other_name);
}

/// A name refers to the person that it names, when it has a word that says who
/// is meant; and a name without one refers to nobody.
pub proof fn name_refers_to_itself(name: Seq<char>)
    ensures
        refers(name, name) <==> tokens_of(name).len() > 0,
{
    let found = tokens_of(name);
    assert forall|i: int| 0 <= i < found.len() implies found.contains(#[trigger] found[i]) by {}
}

} // verus!
