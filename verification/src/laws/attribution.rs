//! Whose title is picked, and why.
use vstd::prelude::*;
use vstd::utf8::encode_utf8;

use crate::models::Attribution;
use crate::models::HitView;
use crate::ner::all_attributions;
use crate::ner::attribution_of;
use crate::ner::best_of_tier;
use crate::ner::candidates_of;
use crate::ner::distance;
use crate::ner::hit_sequence;
use crate::ner::in_tier;
use crate::ner::nearest;
use crate::ner::output_of;
use crate::ner::overlap;
use crate::ner::paired;
use crate::ner::people_in;
use crate::ner::picked_index;
use crate::ner::sequences_of;
use crate::ner::span_attribution;
use crate::ner::stands_at;
use crate::ner::whole_word;
use crate::ner::word_ranges;
use crate::ner::CandidateView;
use crate::ner::FoundSpanView;
use crate::ner::SpanKind;
use crate::ner::TITLE_LABEL;
use crate::text::byte_offset;
use crate::text::joined;
use crate::text::lemma_byte_offset_monotone;
use crate::text::non_empty;
use crate::text::trimmed;
use crate::verify::hit_block;
use crate::verify::text_of_hits;

verus! {

/// The best title of a tier is one of that tier, and there is none just when the
/// tier is empty.
pub proof fn lemma_best(
    candidates: Seq<CandidateView>,
    attributions: Seq<Option<Attribution>>,
    tier: int,
    count: int,
)
    ensures
        match best_of_tier(candidates, attributions, tier, count) {
            Some(best) => 0 <= best < count && in_tier(candidates, attributions, tier, best),
            None => forall|k: int|
                0 <= k < count ==> !#[trigger] in_tier(candidates, attributions, tier, k),
        },
    decreases count,
{
    if count > 0 {
        lemma_best(candidates, attributions, tier, count - 1);
    }
}

proof fn lemma_best_is_most_probable(
    candidates: Seq<CandidateView>,
    attributions: Seq<Option<Attribution>>,
    tier: int,
    count: int,
)
    requires
        forall|k: int|
            0 <= k < count && #[trigger] in_tier(candidates, attributions, tier, k)
                ==> !candidates[k].probability.nan(),
    ensures
        best_of_tier(candidates, attributions, tier, count) matches Some(best) ==> forall|k: int|
            0 <= k < count && #[trigger] in_tier(candidates, attributions, tier, k) ==> {
                &&& candidates[k].probability.rank() <= candidates[best].probability.rank()
                &&& k < best ==> candidates[k].probability.rank()
                    < candidates[best].probability.rank()
            },
    decreases count,
{
    if count > 0 {
        lemma_best(candidates, attributions, tier, count - 1);
        lemma_best_is_most_probable(candidates, attributions, tier, count - 1);
    }
}

/// A picked title is a title of the searched person, or one from a hit that
/// mentions nobody, and it has text in it. A title nearer someone else is never
/// picked, and neither is a person.
pub proof fn titles_of_others_are_never_picked(
    candidates: Seq<CandidateView>,
    attributions: Seq<Option<Attribution>>,
)
    ensures
        picked_index(candidates, attributions) matches Some(index) ==> {
            &&& 0 <= index < candidates.len()
            &&& index < attributions.len()
            &&& attributions[index] == Some(Attribution::SearchedPerson) || attributions[index]
                == Some(Attribution::Nobody)
            &&& trimmed(candidates[index].text).len() > 0
        },
{
    let count = paired(candidates, attributions);
    lemma_best(candidates, attributions, 0, count);
    lemma_best(candidates, attributions, 1, count);
}

/// A title is picked just when there is one to pick; and one of the searched
/// person's, if there is any.
pub proof fn own_titles_come_first(
    candidates: Seq<CandidateView>,
    attributions: Seq<Option<Attribution>>,
)
    ensures
        picked_index(candidates, attributions) is Some <==> exists|k: int|
            0 <= k < paired(candidates, attributions) && (#[trigger] in_tier(
                candidates,
                attributions,
                0,
                k,
            ) || in_tier(candidates, attributions, 1, k)),
        (exists|k: int|
            0 <= k < paired(candidates, attributions) && #[trigger] in_tier(
                candidates,
                attributions,
                0,
                k,
            )) ==> in_tier(candidates, attributions, 0, picked_index(candidates, attributions)->0),
{
    let count = paired(candidates, attributions);
    lemma_best(candidates, attributions, 0, count);
    lemma_best(candidates, attributions, 1, count);
    match picked_index(candidates, attributions) {
        Some(index) => {
            assert(in_tier(candidates, attributions, 0, index) || in_tier(
                candidates,
                attributions,
                1,
                index,
            ));
        },
        None => {
            assert forall|k: int| 0 <= k < count implies !#[trigger] in_tier(
                candidates,
                attributions,
                0,
                k,
            ) && !in_tier(candidates, attributions, 1, k) by {}
        },
    }
}

/// Where every probability is a number, the picked title is the most confident
/// of its kind, and the earliest of those that are as confident.
pub proof fn most_confident_title_wins(
    candidates: Seq<CandidateView>,
    attributions: Seq<Option<Attribution>>,
    tier: int,
    other: int,
)
    requires
        forall|k: int| 0 <= k < candidates.len() ==> !(#[trigger] candidates[k]).probability.nan(),
        picked_index(candidates, attributions) is Some,
        tier == 0 || tier == 1,
        in_tier(candidates, attributions, tier, picked_index(candidates, attributions)->0),
        0 <= other < paired(candidates, attributions),
        in_tier(candidates, attributions, tier, other),
    ensures
        ({
            let picked = picked_index(candidates, attributions)->0;
            &&& !candidates[other].probability.gt(candidates[picked].probability)
            &&& other < picked ==> candidates[picked].probability.gt(candidates[other].probability)
        }),
{
    let count = paired(candidates, attributions);
    lemma_best(candidates, attributions, 0, count);
    lemma_best(candidates, attributions, 1, count);
    lemma_best_is_most_probable(candidates, attributions, tier, count);
}

/// Whether a range is nearer to a title than every range of a list.
pub open spec fn nearer(
    title: (usize, usize),
    range: (usize, usize),
    ranges: Seq<(usize, usize)>,
) -> bool {
    forall|j: int|
        0 <= j < ranges.len() ==> distance(title, range) < distance(title, #[trigger] ranges[j])
}

proof fn lemma_some_range_is_nearest(title: (usize, usize), ranges: Seq<(usize, usize)>) -> (at: int)
    requires
        ranges.len() > 0,
    ensures
        0 <= at < ranges.len(),
        nearest(title, ranges[at], ranges),
    decreases ranges.len(),
{
    if ranges.len() == 1 {
        0
    } else {
        let less = ranges.drop_last();
        let before = lemma_some_range_is_nearest(title, less);
        let last = ranges.len() - 1;
        assert forall|j: int| 0 <= j < last implies distance(title, less[before]) <= distance(
            title,
            #[trigger] ranges[j],
        ) by {
            assert(less[j] == ranges[j]);
        }
        if distance(title, ranges[last]) < distance(title, ranges[before]) {
            last
        } else {
            before
        }
    }
}

/// A title goes to the searched person when a mention of theirs is no further
/// away than anybody else, a tie among them; to someone else when one of those
/// is nearer than every mention; and to nobody when nobody is mentioned.
pub proof fn nearest_person_gets_the_title(
    title: (usize, usize),
    searched: Seq<(usize, usize)>,
    others: Seq<(usize, usize)>,
)
    ensures
        match attribution_of(title, searched, others) {
            Attribution::Nobody => searched.len() == 0 && others.len() == 0,
            Attribution::SearchedPerson => exists|i: int|
                0 <= i < searched.len() && nearest(title, #[trigger] searched[i], others),
            Attribution::SomeoneElse => exists|j: int|
                0 <= j < others.len() && nearer(title, #[trigger] others[j], searched),
        },
{
    if attribution_of(title, searched, others) == Attribution::SomeoneElse {
        if others.len() == 0 {
            assert(nearest(title, searched[0], others));
        }
        let best = lemma_some_range_is_nearest(title, others);
        assert forall|i: int| 0 <= i < searched.len() implies distance(title, others[best])
            < distance(title, #[trigger] searched[i]) by {
            assert(!nearest(title, searched[i], others));
        }
        assert(nearer(title, others[best], searched));
    }
}

/// A title is attributed by its own hit alone: the people found there and the
/// text of it. What stands in other hits does not matter.
pub proof fn other_hits_do_not_matter(
    candidates: Seq<CandidateView>,
    sequences: Seq<Seq<char>>,
    index: int,
    others: Seq<CandidateView>,
    other_sequences: Seq<Seq<char>>,
    other_index: int,
    name: Seq<char>,
)
    requires
        0 <= index < candidates.len(),
        0 <= other_index < others.len(),
        candidates[index] == others[other_index],
        candidates[index].sequence < sequences.len(),
        candidates[index].sequence < other_sequences.len(),
        sequences[candidates[index].sequence as int]
            == other_sequences[candidates[index].sequence as int],
        people_in(candidates, candidates[index].sequence as int) == people_in(
            others,
            candidates[index].sequence as int,
        ),
    ensures
        span_attribution(candidates, sequences, name, index) == span_attribution(
            others,
            other_sequences,
            name,
            other_index,
        ),
{
}

/// Two ranges are no bytes apart just when they touch or overlap; the distance
/// is the same both ways; and so is overlapping.
pub proof fn touching_ranges_are_no_bytes_apart(a: (usize, usize), b: (usize, usize))
    requires
        a.0 <= a.1,
        b.0 <= b.1,
    ensures
        distance(a, b) == 0 <==> a.0 <= b.1 && b.0 <= a.1,
        distance(a, b) == distance(b, a),
        overlap(a, b) == overlap(b, a),
        overlap(a, b) ==> distance(a, b) == 0,
{
}

/// Whether a range is where a needle stands in a text as a word of its own, at a
/// given position or after it.
pub open spec fn is_word_from(
    haystack: Seq<char>,
    needle: Seq<char>,
    range: (usize, usize),
    from: int,
) -> bool {
    exists|at: int|
        from <= at && #[trigger] stands_at(haystack, needle, at) && whole_word(
            haystack,
            at,
            at + needle.len(),
        ) && range.0 == byte_offset(haystack, at) && range.1 == byte_offset(
            haystack,
            at + needle.len(),
        )
}

proof fn lemma_word_ranges(haystack: Seq<char>, needle: Seq<char>, from: int)
    requires
        0 <= from,
        needle.len() > 0,
        encode_utf8(haystack).len() <= usize::MAX,
    ensures
        forall|i: int|
            0 <= i < word_ranges(haystack, needle, from).len() ==> is_word_from(
                haystack,
                needle,
                #[trigger] word_ranges(haystack, needle, from)[i],
                from,
            ),
        forall|i: int|
            0 <= i < word_ranges(haystack, needle, from).len() && from <= haystack.len() ==> {
                let range = #[trigger] word_ranges(haystack, needle, from)[i];
                byte_offset(haystack, from) <= range.0 < range.1 <= encode_utf8(haystack).len()
            },
        forall|i: int, j: int|
            0 <= i < j < word_ranges(haystack, needle, from).len() ==> (#[trigger] word_ranges(
                haystack,
                needle,
                from,
            )[i]).1 <= (#[trigger] word_ranges(haystack, needle, from)[j]).0,
    decreases haystack.len() - from,
{
    let all = word_ranges(haystack, needle, from);
    if from + needle.len() <= haystack.len() {
        let to: int = from + needle.len();
        assert(haystack.take(haystack.len() as int) =~= haystack);
        lemma_byte_offset_monotone(haystack, from, to);
        lemma_byte_offset_monotone(haystack, to, haystack.len() as int);
        lemma_byte_offset_monotone(haystack, from, from + 1);
        if stands_at(haystack, needle, from) && whole_word(haystack, from, to) {
            lemma_word_ranges(haystack, needle, to);
            let rest = word_ranges(haystack, needle, to);
            assert forall|range: (usize, usize)|
                is_word_from(haystack, needle, range, to) implies #[trigger] is_word_from(
                haystack,
                needle,
                range,
                from,
            ) by {}
            let range = (
                byte_offset(haystack, from) as usize,
                byte_offset(haystack, to) as usize,
            );
            assert(all =~= seq![range] + rest);
            assert(is_word_from(haystack, needle, range, from));
            assert forall|i: int| 0 <= i < all.len() implies is_word_from(
                haystack,
                needle,
                #[trigger] all[i],
                from,
            ) by {
                if i > 0 {
                    assert(all[i] == rest[i - 1]);
                }
            }
            assert forall|i: int| 0 <= i < all.len() implies byte_offset(haystack, from)
                <= (#[trigger] all[i]).0 && all[i].0 < all[i].1 && all[i].1 <= encode_utf8(
                haystack,
            ).len() by {
                if i > 0 {
                    assert(all[i] == rest[i - 1]);
                }
            }
            assert forall|i: int, j: int| 0 <= i < j < all.len() implies (#[trigger] all[i]).1
                <= (#[trigger] all[j]).0 by {
                assert(all[j] == rest[j - 1]);
                if i > 0 {
                    assert(all[i] == rest[i - 1]);
                }
            }
        } else {
            lemma_word_ranges(haystack, needle, from + 1);
            assert(all == word_ranges(haystack, needle, from + 1));
            assert forall|range: (usize, usize)|
                is_word_from(haystack, needle, range, from + 1) implies #[trigger] is_word_from(
                haystack,
                needle,
                range,
                from,
            ) by {}
        }
    }
}

/// The occurrences of a needle lie in the text, in order and apart from each
/// other, and at each of them the needle is a word of the text.
pub proof fn occurrences_are_words_in_order(haystack: Seq<char>, needle: Seq<char>)
    requires
        needle.len() > 0,
        encode_utf8(haystack).len() <= usize::MAX,
    ensures
        ({
            let ranges = word_ranges(haystack, needle, 0);
            &&& forall|i: int|
                0 <= i < ranges.len() ==> (#[trigger] ranges[i]).0 < ranges[i].1 && ranges[i].1
                    <= encode_utf8(haystack).len()
            &&& forall|i: int, j: int|
                0 <= i < j < ranges.len() ==> (#[trigger] ranges[i]).1 <= (#[trigger] ranges[j]).0
            &&& forall|i: int|
                0 <= i < ranges.len() ==> is_word_from(haystack, needle, #[trigger] ranges[i], 0)
        }),
{
    lemma_word_ranges(haystack, needle, 0);
}

/// The byte range of what stands between two positions of a text.
pub open spec fn range_of(haystack: Seq<char>, from: int, to: int) -> (usize, usize) {
    (byte_offset(haystack, from) as usize, byte_offset(haystack, to) as usize)
}

/// Whether a range overlaps one of a list that starts before it.
pub open spec fn overlaps_earlier(range: (usize, usize), ranges: Seq<(usize, usize)>) -> bool {
    exists|i: int|
        0 <= i < ranges.len() && (#[trigger] ranges[i]).0 < range.0 && overlap(range, ranges[i])
}

proof fn lemma_word_is_found(haystack: Seq<char>, needle: Seq<char>, at: int, from: int)
    requires
        0 <= from <= at,
        needle.len() > 0,
        encode_utf8(haystack).len() <= usize::MAX,
        stands_at(haystack, needle, at),
        whole_word(haystack, at, at + needle.len()),
    ensures
        ({
            let ranges = word_ranges(haystack, needle, from);
            let range = range_of(haystack, at, at + needle.len());
            ranges.contains(range) || overlaps_earlier(range, ranges)
        }),
    decreases at - from,
{
    let all = word_ranges(haystack, needle, from);
    let end: int = at + needle.len();
    let range = range_of(haystack, at, end);
    let to: int = from + needle.len();
    assert(haystack.take(haystack.len() as int) =~= haystack);
    lemma_byte_offset_monotone(haystack, from, at);
    lemma_byte_offset_monotone(haystack, at, end);
    lemma_byte_offset_monotone(haystack, end, haystack.len() as int);
    lemma_byte_offset_monotone(haystack, to, end);
    if from == at {
        assert(all[0] == range);
    } else if stands_at(haystack, needle, from) && whole_word(haystack, from, to) {
        let rest = word_ranges(haystack, needle, to);
        let first = range_of(haystack, from, to);
        assert(all =~= seq![first] + rest);
        if at < to {
            lemma_byte_offset_monotone(haystack, at, to);
            assert(all[0] == first);
            assert(overlap(range, first));
        } else {
            lemma_word_is_found(haystack, needle, at, to);
            if rest.contains(range) {
                let i = choose|i: int| 0 <= i < rest.len() && rest[i] == range;
                assert(all[i + 1] == range);
            } else {
                let i = choose|i: int|
                    0 <= i < rest.len() && (#[trigger] rest[i]).0 < range.0 && overlap(
                        range,
                        rest[i],
                    );
                assert(all[i + 1] == rest[i]);
            }
        }
    } else {
        lemma_word_is_found(haystack, needle, at, from + 1);
    }
}

/// Every place at which a needle is a word of a text is found, unless one that
/// is found before reaches into it.
pub proof fn words_are_found(haystack: Seq<char>, needle: Seq<char>, at: int)
    requires
        needle.len() > 0,
        encode_utf8(haystack).len() <= usize::MAX,
        stands_at(haystack, needle, at),
        whole_word(haystack, at, at + needle.len()),
    ensures
        ({
            let ranges = word_ranges(haystack, needle, 0);
            let range = range_of(haystack, at, at + needle.len());
            ranges.contains(range) || overlaps_earlier(range, ranges)
        }),
{
    lemma_word_is_found(haystack, needle, at, 0);
}

/// What is kept of a list of texts has text in it, and nothing is kept just when
/// every text is empty.
pub proof fn lemma_non_empty(parts: Seq<Seq<char>>)
    ensures
        forall|i: int| 0 <= i < non_empty(parts).len() ==> (#[trigger] non_empty(parts)[i]).len() > 0,
        non_empty(parts).len() <= parts.len(),
        non_empty(parts).len() == 0 <==> forall|i: int|
            0 <= i < parts.len() ==> (#[trigger] parts[i]).len() == 0,
    decreases parts.len(),
{
    if parts.len() > 0 {
        let less = parts.drop_last();
        lemma_non_empty(less);
        if non_empty(parts).len() == 0 {
            assert forall|i: int| 0 <= i < parts.len() implies (#[trigger] parts[i]).len() == 0 by {
                if i < less.len() {
                    assert(less[i].len() == 0);
                }
            }
        }
        if forall|i: int| 0 <= i < parts.len() ==> (#[trigger] parts[i]).len() == 0 {
            assert forall|i: int| 0 <= i < less.len() implies (#[trigger] less[i]).len() == 0 by {
                assert(parts[i].len() == 0);
            }
            assert(parts[parts.len() - 1].len() == 0);
        }
    }
}

/// Texts that are not empty are joined to a text that is not, unless there are
/// none.
pub proof fn lemma_joined_empty(parts: Seq<Seq<char>>, separator: Seq<char>)
    requires
        forall|i: int| 0 <= i < parts.len() ==> (#[trigger] parts[i]).len() > 0,
    ensures
        joined(parts, separator).len() == 0 <==> parts.len() == 0,
{
    if parts.len() > 0 {
        assert(parts[parts.len() - 1].len() > 0);
    }
}

/// The extractor is never given an empty text, nor more texts than hits; and it
/// is given none just when every hit has neither a title nor a snippet.
pub proof fn every_input_has_text(hits: Seq<HitView>)
    ensures
        forall|i: int| 0 <= i < sequences_of(hits).len() ==> (#[trigger] sequences_of(hits)[i]).len() > 0,
        sequences_of(hits).len() <= hits.len(),
        sequences_of(hits).len() == 0 <==> forall|i: int|
            0 <= i < hits.len() ==> (#[trigger] hits[i]).title.len() == 0 && hits[i].snippet.len() == 0,
{
    let texts = hits.map_values(|hit: HitView| hit_sequence(hit));
    lemma_non_empty(texts);
    assert forall|i: int| 0 <= i < hits.len() implies ((#[trigger] texts[i]).len() == 0
        <==> hits[i].title.len() == 0 && hits[i].snippet.len() == 0) by {
        let parts = seq![hits[i].title, hits[i].snippet];
        lemma_non_empty(parts);
        lemma_joined_empty(non_empty(parts), "\n"@);
        assert(parts[0] == hits[i].title);
        assert(parts[1] == hits[i].snippet);
    }
    if sequences_of(hits).len() == 0 {
        assert forall|i: int| 0 <= i < hits.len() implies (#[trigger] hits[i]).title.len() == 0
            && hits[i].snippet.len() == 0 by {
            assert(texts[i].len() == 0);
        }
    }
    if forall|i: int|
        0 <= i < hits.len() ==> (#[trigger] hits[i]).title.len() == 0 && hits[i].snippet.len() == 0 {
        assert forall|i: int| 0 <= i < texts.len() implies (#[trigger] texts[i]).len() == 0 by {
            assert(hits[i].title.len() == 0);
        }
    }
}

/// There is no text to check just when every hit is empty.
pub proof fn only_empty_hits_go_unchecked(hits: Seq<HitView>)
    ensures
        text_of_hits(hits).len() == 0 <==> forall|i: int|
            0 <= i < hits.len() ==> (#[trigger] hits[i]).title.len() == 0 && hits[i].link.len() == 0
                && hits[i].snippet.len() == 0,
{
    let blocks = hits.map_values(|hit: HitView| hit_block(hit));
    lemma_non_empty(blocks);
    lemma_joined_empty(non_empty(blocks), "\n\n"@);
    assert forall|i: int| 0 <= i < hits.len() implies ((#[trigger] blocks[i]).len() == 0
        <==> hits[i].title.len() == 0 && hits[i].link.len() == 0 && hits[i].snippet.len() == 0) by {
        let parts = seq![hits[i].title, hits[i].link, hits[i].snippet];
        lemma_non_empty(parts);
        lemma_joined_empty(non_empty(parts), "\n"@);
        assert(parts[0] == hits[i].title);
        assert(parts[1] == hits[i].link);
        assert(parts[2] == hits[i].snippet);
    }
    if text_of_hits(hits).len() == 0 {
        assert forall|i: int| 0 <= i < hits.len() implies (#[trigger] hits[i]).title.len() == 0
            && hits[i].link.len() == 0 && hits[i].snippet.len() == 0 by {
            assert(blocks[i].len() == 0);
        }
    }
    if forall|i: int|
        0 <= i < hits.len() ==> (#[trigger] hits[i]).title.len() == 0 && hits[i].link.len() == 0
            && hits[i].snippet.len() == 0 {
        assert forall|i: int| 0 <= i < blocks.len() implies (#[trigger] blocks[i]).len() == 0 by {
            assert(hits[i].title.len() == 0);
        }
    }
}

/// The extractor never reads a link: hits that differ in their links alone give
/// it the same texts.
pub proof fn links_are_not_read(hits: Seq<HitView>, others: Seq<HitView>)
    requires
        hits.len() == others.len(),
        forall|i: int|
            0 <= i < hits.len() ==> (#[trigger] hits[i]).title == others[i].title && hits[i].snippet
                == others[i].snippet,
    ensures
        sequences_of(hits) == sequences_of(others),
{
    let a = hits.map_values(|hit: HitView| hit_sequence(hit));
    let b = others.map_values(|hit: HitView| hit_sequence(hit));
    assert forall|i: int| 0 <= i < hits.len() implies a[i] == b[i] by {
        assert(hits[i].title == others[i].title);
    }
    assert(a =~= b);
}

/// Every title and person that the model reports is saved, in order and with
/// whose title it is; and the title that is chosen is the trimmed text of one
/// of the titles saved, with its probability.
pub proof fn chosen_title_is_among_the_saved(
    spans: Seq<FoundSpanView>,
    inputs: Seq<Seq<char>>,
    name: Seq<char>,
)
    ensures
        ({
            let output = output_of(spans, inputs, name);
            &&& output.spans.len() == candidates_of(spans).len() <= spans.len()
            &&& output.chosen matches Some(title) ==> exists|i: int|
                0 <= i < output.spans.len() && title.text == trimmed(
                    (#[trigger] output.spans[i]).text,
                ) && title.probability == output.spans[i].probability && output.spans[i].label
                    == TITLE_LABEL@ && output.spans[i].attribution
                    != Some(Attribution::SomeoneElse)
        }),
{
    let candidates = candidates_of(spans);
    let attributions = all_attributions(candidates, inputs, name);
    lemma_candidates_len(spans);
    titles_of_others_are_never_picked(candidates, attributions);
    match picked_index(candidates, attributions) {
        Some(index) => {
            assert(candidates[index].kind == SpanKind::Title);
            assert(output_of(spans, inputs, name).spans[index].text == candidates[index].text);
        },
        None => {},
    }
}

proof fn lemma_candidates_len(spans: Seq<FoundSpanView>)
    ensures
        candidates_of(spans).len() <= spans.len(),
    decreases spans.len(),
{
    if spans.len() > 0 {
        lemma_candidates_len(spans.drop_last());
    }
}

} // verus!
