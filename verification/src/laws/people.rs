//! Who is meant by a name, where they are mentioned, and who is nearest.
use vstd::prelude::*;

use crate::laws::names::free_of;
use crate::laws::texts::a_text_is_split_at_each_separator;
use crate::laws::texts::a_text_without_separators_is_whole;
use crate::laws::texts::made_of;
use crate::laws::texts::stripping_leaves_the_middle;
use crate::models::Attribution;
use crate::ner::all_attributions;
use crate::ner::attribution_of;
use crate::ner::clean_token;
use crate::ner::distance;
use crate::ner::honorific;
use crate::ner::kept_tokens;
use crate::ner::nearest;
use crate::ner::other_ranges;
use crate::ner::overlap;
use crate::ner::overlaps_any;
use crate::ner::people_in;
use crate::ner::referring_ranges;
use crate::ner::refers;
use crate::ner::searched_ranges;
use crate::ner::span_attribution;
use crate::ner::stands_at;
use crate::ner::tokens_of;
use crate::ner::whole_word;
use crate::ner::word_ranges;
use crate::ner::CandidateView;
use crate::ner::SpanKind;
use crate::text::alphanumeric;
use crate::text::ascii_lower;
use crate::text::lowercase;
use crate::text::pieces;
use crate::text::same_ignoring_ascii_case;
use crate::text::trimmed;
use crate::text::white_space;
use crate::text::words;
use crate::text::Class;

verus! {

/// The honorifics are these eight words in lower case, and no others.
pub proof fn the_honorifics_are_eight(token: Seq<char>)
    ensures
        honorific(token) <==> seq![
            "mr"@,
            "mrs"@,
            "ms"@,
            "miss"@,
            "dr"@,
            "prof"@,
            "sir"@,
            "dame"@,
        ].contains(token),
{
    let all = seq!["mr"@, "mrs"@, "ms"@, "miss"@, "dr"@, "prof"@, "sir"@, "dame"@];
    assert(all[0] == "mr"@);
    assert(all[1] == "mrs"@);
    assert(all[2] == "ms"@);
    assert(all[3] == "miss"@);
    assert(all[4] == "dr"@);
    assert(all[5] == "prof"@);
    assert(all[6] == "sir"@);
    assert(all[7] == "dame"@);
    if all.contains(token) {
        let i = choose|i: int| 0 <= i < all.len() && all[i] == token;
        assert(honorific(all[i]));
    }
}

/// Punctuation around a word of a name does not matter, and neither does its
/// case: what is left is the whole word in lower case.
pub proof fn punctuation_around_words_does_not_matter(a: Seq<char>, word: Seq<char>, b: Seq<char>)
    requires
        made_of(a, Class::NotAlphanumeric),
        made_of(b, Class::NotAlphanumeric),
        word.len() > 0 ==> alphanumeric(word[0]) && alphanumeric(word.last()),
    ensures
        clean_token(a + word + b) == lowercase(word),
{
    stripping_leaves_the_middle(a, word, b, Class::NotAlphanumeric);
}

proof fn lemma_kept_tokens_of_both(a: Seq<Seq<char>>, b: Seq<Seq<char>>)
    ensures
        kept_tokens(a + b) == kept_tokens(a) + kept_tokens(b),
    decreases b.len(),
{
    if b.len() == 0 {
        assert(a + b =~= a);
        assert(kept_tokens(a) + kept_tokens(b) =~= kept_tokens(a));
    } else {
        assert((a + b).drop_last() =~= a + b.drop_last());
        assert((a + b).last() == b.last());
        lemma_kept_tokens_of_both(a, b.drop_last());
        assert(kept_tokens(a + b) =~= kept_tokens(a) + kept_tokens(b));
    }
}

/// White space and commas part the words of a name; and a part without any is
/// one word of it, unless nothing is left of it or it is an honorific.
pub proof fn names_are_read_word_by_word(a: Seq<char>, c: char, b: Seq<char>)
    ensures
        white_space(c) || c == ',' ==> tokens_of(a + seq![c] + b) == tokens_of(a) + tokens_of(b),
        (forall|i: int| 0 <= i < a.len() ==> !white_space(#[trigger] a[i]) && a[i] != ',')
            ==> tokens_of(a) == if clean_token(a).len() == 0 || honorific(clean_token(a)) {
            Seq::<Seq<char>>::empty()
        } else {
            seq![clean_token(a)]
        },
{
    let class = Class::NameSeparator;
    if white_space(c) || c == ',' {
        a_text_is_split_at_each_separator(a, c, b, class);
        lemma_kept_tokens_of_both(pieces(a, class), pieces(b, class));
    }
    if forall|i: int| 0 <= i < a.len() ==> !white_space(#[trigger] a[i]) && a[i] != ',' {
        assert(free_of(a, class));
        a_text_without_separators_is_whole(a, class);
        let one = seq![a];
        assert(one.drop_last() =~= Seq::empty());
        assert(kept_tokens(one.drop_last()) =~= Seq::empty());
        assert(one.last() == a);
        assert(kept_tokens(one) =~= if clean_token(a).len() == 0 || honorific(clean_token(a)) {
            Seq::<Seq<char>>::empty()
        } else {
            seq![clean_token(a)]
        });
    }
}

/// A span refers to the searched person just when it has a word that says who is
/// meant, and every one of its words is a word of the searched name: a span made
/// of two does when both do, or the one that has words.
pub proof fn every_word_must_be_of_the_name(a: Seq<char>, c: char, b: Seq<char>, name: Seq<char>)
    requires
        white_space(c) || c == ',',
    ensures
        tokens_of(a).len() == 0 ==> !refers(a, name),
        tokens_of(a).len() == 1 ==> (refers(a, name) <==> tokens_of(name).contains(
            tokens_of(a)[0],
        )),
        ({
            let both = a + seq![c] + b;
            &&& tokens_of(a).len() > 0 && tokens_of(b).len() > 0 ==> (refers(both, name) <==> refers(
                a,
                name,
            ) && refers(b, name))
            &&& tokens_of(a).len() == 0 ==> refers(both, name) == refers(b, name)
            &&& tokens_of(b).len() == 0 ==> refers(both, name) == refers(a, name)
        }),
{
    names_are_read_word_by_word(a, c, b);
    let x = tokens_of(a);
    let y = tokens_of(b);
    let both = a + seq![c] + b;
    let all = tokens_of(both);
    let wanted = tokens_of(name);
    assert(all == x + y);
    if x.len() == 1 && refers(a, name) {
        assert(wanted.contains(x[0]));
    }
    if x.len() == 0 {
        assert(all =~= y);
    }
    if y.len() == 0 {
        assert(all =~= x);
    }
    if x.len() > 0 && y.len() > 0 {
        if refers(both, name) {
            assert forall|i: int| 0 <= i < x.len() implies wanted.contains(#[trigger] x[i]) by {
                assert(all[i] == x[i]);
            }
            assert forall|i: int| 0 <= i < y.len() implies wanted.contains(#[trigger] y[i]) by {
                assert(all[x.len() + i] == y[i]);
            }
        }
        if refers(a, name) && refers(b, name) {
            assert forall|i: int| 0 <= i < all.len() implies wanted.contains(
                #[trigger] all[i],
            ) by {
                if i < x.len() {
                    assert(all[i] == x[i]);
                } else {
                    assert(all[i] == y[i - x.len()]);
                }
            }
        }
    }
}

/// A needle stands at a position just when the text there is the needle, ASCII
/// case aside.
pub proof fn standing_is_being_the_text_there(haystack: Seq<char>, needle: Seq<char>, at: int)
    ensures
        stands_at(haystack, needle, at) <==> 0 <= at && at + needle.len() <= haystack.len()
            && same_ignoring_ascii_case(haystack.subrange(at, at + needle.len()), needle),
{
    if 0 <= at && at + needle.len() <= haystack.len() {
        let there = haystack.subrange(at, at + needle.len());
        assert forall|k: int| 0 <= k < needle.len() implies there[k] == #[trigger] haystack[at
            + k] by {}
        if stands_at(haystack, needle, at) {
            assert forall|k: int| 0 <= k < there.len() implies #[trigger] ascii_lower(there[k])
                == ascii_lower(needle[k]) by {
                assert(there[k] == haystack[at + k]);
            }
        }
        if same_ignoring_ascii_case(there, needle) {
            assert forall|k: int| 0 <= k < needle.len() implies ascii_lower(
                #[trigger] haystack[at + k],
            ) == ascii_lower(needle[k]) by {
                assert(ascii_lower(there[k]) == ascii_lower(needle[k]));
            }
        }
    }
}

/// A part of a text is a word of it just when no letter and no number stands
/// right before or right after it.
pub proof fn words_end_where_letters_do(a: Seq<char>, word: Seq<char>, b: Seq<char>)
    ensures
        whole_word(a + word + b, a.len() as int, (a.len() + word.len()) as int) <==> (a.len() == 0
            || !alphanumeric(a.last())) && (b.len() == 0 || !alphanumeric(b[0])),
{
    let text = a + word + b;
    let from = a.len() as int;
    let to = (a.len() + word.len()) as int;
    if a.len() > 0 {
        assert(text[from - 1] == a.last());
    }
    if b.len() > 0 {
        assert(text[to] == b[0]);
    }
}

/// Nothing is looked for in vain: no occurrence is found of an empty needle.
pub proof fn empty_needles_are_not_found(haystack: Seq<char>)
    ensures
        word_ranges(haystack, Seq::empty(), 0).len() == 0,
{
}

/// Whether a span is a person of a hit.
pub open spec fn person_of_hit(span: CandidateView, sequence: int) -> bool {
    span.sequence == sequence && span.kind == SpanKind::Person
}

proof fn lemma_people(candidates: Seq<CandidateView>, sequence: int)
    ensures
        people_in(candidates, sequence) == candidates.filter(
            |span: CandidateView| person_of_hit(span, sequence),
        ),
    decreases candidates.len(),
{
    reveal(Seq::filter);
    if candidates.len() > 0 {
        lemma_people(candidates.drop_last(), sequence);
    } else {
        assert(people_in(candidates, sequence) =~= candidates);
    }
}

/// The people of a hit are all the person spans found in it, in order, and no
/// other spans.
pub proof fn people_of_a_hit_are_its_person_spans(candidates: Seq<CandidateView>, sequence: int)
    ensures
        people_in(candidates, sequence) == candidates.filter(
            |span: CandidateView| span.sequence == sequence && span.kind == SpanKind::Person,
        ),
{
    lemma_people(candidates, sequence);
    assert((|span: CandidateView| person_of_hit(span, sequence)) =~= (|span: CandidateView|
        span.sequence == sequence && span.kind == SpanKind::Person));
}

proof fn lemma_referring(people: Seq<CandidateView>, name: Seq<char>)
    ensures
        referring_ranges(people, name) == people.filter(
            |person: CandidateView| refers(person.text, name),
        ).map_values(|person: CandidateView| (person.start, person.end)),
    decreases people.len(),
{
    reveal(Seq::filter);
    let keep = |person: CandidateView| refers(person.text, name);
    let range = |person: CandidateView| (person.start, person.end);
    if people.len() > 0 {
        let less = people.drop_last();
        lemma_referring(less, name);
        let before = less.filter(keep);
        if keep(people.last()) {
            assert(before.push(people.last()).map_values(range) =~= before.map_values(range).push(
                range(people.last()),
            ));
        }
    } else {
        assert(people.filter(keep).map_values(range) =~= Seq::empty());
    }
}

/// The searched person is mentioned where a person span refers to them, where
/// their name stands as a whole, and, when the name has more than one word,
/// where the last of these stands; nowhere else.
pub proof fn mentions_are_spans_and_names(
    text: Seq<char>,
    people: Seq<CandidateView>,
    name: Seq<char>,
)
    ensures
        ({
            let spans = people.filter(
                |person: CandidateView| refers(person.text, name),
            ).map_values(|person: CandidateView| (person.start, person.end));
            let full = word_ranges(text, trimmed(name), 0);
            &&& words(name).len() <= 1 ==> searched_ranges(text, people, name) == spans + full
            &&& words(name).len() > 1 ==> searched_ranges(text, people, name) == spans + full
                + word_ranges(text, words(name)[words(name).len() - 1], 0)
        }),
{
    lemma_referring(people, name);
}

/// Two ranges that are not empty overlap just when some byte is in both.
pub proof fn overlapping_is_sharing_a_byte(a: (usize, usize), b: (usize, usize))
    ensures
        a.0 < a.1 && b.0 < b.1 ==> (overlap(a, b) <==> exists|byte: int| #[trigger]
            in_range(byte, a) && in_range(byte, b)),
        overlap(a, b) <==> a.0 < b.1 && b.0 < a.1,
{
    if a.0 < a.1 && b.0 < b.1 && overlap(a, b) {
        let byte: int = if a.0 <= b.0 {
            b.0 as int
        } else {
            a.0 as int
        };
        assert(in_range(byte, a) && in_range(byte, b));
    }
}

/// Whether a byte is in a range.
pub open spec fn in_range(byte: int, range: (usize, usize)) -> bool {
    range.0 <= byte < range.1
}

/// The people other than the searched person are those whose span overlaps no
/// mention of them, each at its own place and in order.
pub proof fn others_overlap_no_mention(
    people: Seq<CandidateView>,
    searched: Seq<(usize, usize)>,
)
    ensures
        other_ranges(people, searched) == people.filter(
            |person: CandidateView| clear_of((person.start, person.end), searched),
        ).map_values(|person: CandidateView| (person.start, person.end)),
    decreases people.len(),
{
    reveal(Seq::filter);
    let keep = |person: CandidateView| clear_of((person.start, person.end), searched);
    let range = |person: CandidateView| (person.start, person.end);
    if people.len() > 0 {
        let less = people.drop_last();
        let last = people.last();
        others_overlap_no_mention(less, searched);
        let before = less.filter(keep);
        lemma_clear((last.start, last.end), searched);
        if keep(last) {
            assert(before.push(last).map_values(range) =~= before.map_values(range).push(
                range(last),
            ));
        }
    } else {
        assert(people.filter(keep).map_values(range) =~= Seq::empty());
    }
}

/// Whether a range lies before or after each range of a list.
pub open spec fn clear_of(range: (usize, usize), ranges: Seq<(usize, usize)>) -> bool {
    forall|i: int|
        0 <= i < ranges.len() ==> range.1 <= (#[trigger] ranges[i]).0 || ranges[i].1 <= range.0
}

proof fn lemma_clear(range: (usize, usize), ranges: Seq<(usize, usize)>)
    ensures
        clear_of(range, ranges) <==> !overlaps_any(range, ranges),
{
    if clear_of(range, ranges) {
        assert forall|i: int| 0 <= i < ranges.len() implies !overlap(
            range,
            #[trigger] ranges[i],
        ) by {}
    }
    if !overlaps_any(range, ranges) {
        assert forall|i: int| 0 <= i < ranges.len() implies range.1 <= (#[trigger] ranges[i]).0
            || ranges[i].1 <= range.0 by {
            assert(!overlap(range, ranges[i]));
        }
    }
}

/// The distance of two ranges, one after the other, is the number of bytes from
/// the end of the first to the start of the second, however many these are; and
/// it is none where they touch or overlap. It is the same both ways.
pub proof fn distances_are_bytes_between(a: (usize, usize), b: (usize, usize))
    requires
        a.0 <= a.1,
        b.0 <= b.1,
    ensures
        a.1 < b.0 ==> distance(a, b) == b.0 - a.1 && distance(b, a) == b.0 - a.1,
        b.1 < a.0 ==> distance(a, b) == a.0 - b.1 && distance(b, a) == a.0 - b.1,
        a.0 <= b.1 && b.0 <= a.1 ==> distance(a, b) == 0 && distance(b, a) == 0,
{
}

/// Of any two ranges, whichever way they run, the distance is the larger of the
/// two gaps between an end and a start, and never below zero.
pub proof fn distances_are_the_larger_gap(a: (usize, usize), b: (usize, usize))
    ensures
        distance(a, b) >= b.0 - a.1,
        distance(a, b) >= a.0 - b.1,
        distance(a, b) >= 0,
        distance(a, b) == b.0 - a.1 || distance(a, b) == a.0 - b.1 || distance(a, b) == 0,
{
}

/// Whether a range is so many bytes from a title, or more.
pub open spec fn at_least_away(title: (usize, usize), range: (usize, usize), bytes: int) -> bool {
    range.0 - title.1 >= bytes || title.0 - range.1 >= bytes
}

/// Whether a range is fewer bytes from a title than that many.
pub open spec fn less_away(title: (usize, usize), range: (usize, usize), bytes: int) -> bool {
    range.0 - title.1 < bytes && title.0 - range.1 < bytes
}

/// A title that is nearer in bytes to another person than to every mention of
/// the searched one is someone else's, at any distance; and one that a mention is
/// no further from than each other person is the searched person's.
pub proof fn titles_go_by_bytes(
    title: (usize, usize),
    searched: Seq<(usize, usize)>,
    others: Seq<(usize, usize)>,
    bytes: int,
    at: int,
)
    requires
        bytes > 0,
    ensures
        0 <= at < others.len() && less_away(title, others[at], bytes) && (forall|i: int|
            0 <= i < searched.len() ==> at_least_away(title, #[trigger] searched[i], bytes))
            ==> attribution_of(title, searched, others) == Attribution::SomeoneElse,
        0 <= at < searched.len() && less_away(title, searched[at], bytes + 1) && (forall|j: int|
            0 <= j < others.len() ==> at_least_away(title, #[trigger] others[j], bytes))
            ==> attribution_of(title, searched, others) == Attribution::SearchedPerson,
        0 <= at < searched.len() && less_away(title, searched[at], 1) ==> attribution_of(
            title,
            searched,
            others,
        ) == Attribution::SearchedPerson,
        attribution_of(title, searched, others) == Attribution::Nobody <==> searched.len() == 0
            && others.len() == 0,
{
    if 0 <= at < others.len() && less_away(title, others[at], bytes) && (forall|i: int|
        0 <= i < searched.len() ==> at_least_away(title, #[trigger] searched[i], bytes)) {
        assert forall|i: int| 0 <= i < searched.len() implies !nearest(
            title,
            #[trigger] searched[i],
            others,
        ) by {
            assert(at_least_away(title, searched[i], bytes));
            assert(distance(title, searched[i]) > distance(title, others[at]));
        }
    }
    if 0 <= at < searched.len() && less_away(title, searched[at], bytes + 1) && (forall|j: int|
        0 <= j < others.len() ==> at_least_away(title, #[trigger] others[j], bytes)) {
        assert forall|j: int| 0 <= j < others.len() implies distance(title, searched[at])
            <= distance(title, #[trigger] others[j]) by {
            assert(at_least_away(title, others[j], bytes));
        }
        assert(nearest(title, searched[at], others));
    }
    if 0 <= at < searched.len() && less_away(title, searched[at], 1) {
        assert(distance(title, searched[at]) == 0);
        assert(nearest(title, searched[at], others));
    }
}

/// Whether a mention of the searched person is no further from a title than
/// every other person, by the bytes between.
pub open spec fn no_further(
    title: (usize, usize),
    mention: (usize, usize),
    others: Seq<(usize, usize)>,
) -> bool {
    forall|j: int|
        0 <= j < others.len() ==> distance(title, mention) <= distance(title, #[trigger] others[j])
}

/// A title is the searched person's just when some mention of theirs is no
/// further away than every other person.
pub proof fn own_titles_have_a_nearest_mention(
    title: (usize, usize),
    searched: Seq<(usize, usize)>,
    others: Seq<(usize, usize)>,
)
    ensures
        attribution_of(title, searched, others) == Attribution::SearchedPerson <==> exists|i: int|
            0 <= i < searched.len() && no_further(title, #[trigger] searched[i], others),
{
    if exists|i: int| 0 <= i < searched.len() && no_further(title, #[trigger] searched[i], others) {
        let i = choose|i: int|
            0 <= i < searched.len() && no_further(title, #[trigger] searched[i], others);
        assert(nearest(title, searched[i], others));
    }
    if attribution_of(title, searched, others) == Attribution::SearchedPerson {
        let i = choose|i: int|
            0 <= i < searched.len() && nearest(title, #[trigger] searched[i], others);
        assert(no_further(title, searched[i], others));
    }
}

/// A title is attributed by the people found in its own hit and by the text of
/// that hit; people are attributed to nobody, and neither is a span of no hit.
pub proof fn titles_are_judged_in_their_own_hit(
    candidates: Seq<CandidateView>,
    sequences: Seq<Seq<char>>,
    name: Seq<char>,
    index: int,
)
    requires
        0 <= index < candidates.len(),
    ensures
        ({
            let span = candidates[index];
            let hit = span.sequence as int;
            let people = candidates.filter(|other: CandidateView| person_of_hit(other, hit));
            let searched = searched_ranges(sequences[hit], people, name);
            let others = people.filter(
                |person: CandidateView| clear_of((person.start, person.end), searched),
            ).map_values(|person: CandidateView| (person.start, person.end));
            &&& span.kind == SpanKind::Person || hit >= sequences.len() ==> span_attribution(
                candidates,
                sequences,
                name,
                index,
            ) is None
            &&& span.kind == SpanKind::Title && hit < sequences.len() ==> span_attribution(
                candidates,
                sequences,
                name,
                index,
            ) == Some(attribution_of((span.start, span.end), searched, others))
        }),
{
    let hit = candidates[index].sequence as int;
    let people = people_in(candidates, hit);
    lemma_people(candidates, hit);
    others_overlap_no_mention(people, searched_ranges(sequences[hit], people, name));
}

/// Every span is attributed, each by itself and in its own place.
pub proof fn every_span_is_attributed(
    candidates: Seq<CandidateView>,
    sequences: Seq<Seq<char>>,
    name: Seq<char>,
    index: int,
)
    ensures
        all_attributions(candidates, sequences, name).len() == candidates.len(),
        0 <= index < candidates.len() ==> all_attributions(candidates, sequences, name)[index]
            == span_attribution(candidates, sequences, name, index),
{
}

} // verus!
