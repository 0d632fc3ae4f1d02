//! Whose job title is it: the spans that an extractor found in search hits,
//! told apart by the person each title stands nearest to.
use vstd::prelude::*;
use vstd::string::StringExecFns;

use crate::ids::clock_time;
use crate::ids::new_id;
use crate::ids::now;
use crate::ids::random_id;
use crate::models::result_view;
pub use crate::models::Attribution;
pub use crate::models::ExtractedTitle;
use crate::models::ExtractedTitleView;
use crate::models::GlinerRequest;
use crate::models::GlinerRequestView;
use crate::models::GlinerSpan;
use crate::models::GlinerSpanView;
use crate::models::HitView;
use crate::models::SearchHit;
use crate::models::Timestamp;
use crate::score::Probability;
use crate::text::alphanumeric;
use crate::text::ascii_lower;
use crate::text::byte_length;
use crate::text::byte_offset;
use crate::text::join;
use crate::text::joined;
use crate::text::keep_non_empty;
use crate::text::lemma_byte_offset_monotone;
use crate::text::lemma_byte_offset_step;
use crate::text::letter_or_number;
use crate::text::lower;
use crate::text::lowercase;
use crate::text::non_empty;
use crate::text::pieces;
use crate::text::same_text;
use crate::text::split;
use crate::text::split_words;
use crate::text::strip;
use crate::text::strip_of;
use crate::text::to_ascii_lower;
use crate::text::to_chars;
use crate::text::trim;
use crate::text::trimmed;
use crate::text::width_of;
use crate::text::words;
use crate::text::Class;

verus! {

/// A search's hits are mined for a title only when the check's score is above
/// this: the bits of 0.70.
pub const MIN_VERIFICATION_SCORE: u64 = 0x3fe6_6666_6666_6666;

/// The label a job title is found under.
pub const TITLE_LABEL: &'static str = "job title";

/// The label a person is found under.
pub const PERSON_LABEL: &'static str = "person";

/// The extractor's minimum span probability: the bits of one half.
pub const THRESHOLD: u32 = 0x3f00_0000;

/// What a span stands for.
#[derive(Debug, Clone, Copy, PartialEq, Eq, Structural)]
pub enum SpanKind {
    Title,
    Person,
}

/// A span the extractor found, reduced to what attribution needs.
#[derive(Debug)]
pub struct Candidate {
    /// Which hit it came from.
    pub sequence: usize,
    /// Byte offsets within that hit's text.
    pub start: usize,
    pub end: usize,
    pub text: String,
    pub kind: SpanKind,
    pub probability: Probability,
}

/// What a `Candidate` says.
pub struct CandidateView {
    pub sequence: usize,
    pub start: usize,
    pub end: usize,
    pub text: Seq<char>,
    pub kind: SpanKind,
    pub probability: Probability,
}

impl DeepView for Candidate {
    type V = CandidateView;

    open spec fn deep_view(&self) -> CandidateView {
        CandidateView {
            sequence: self.sequence,
            start: self.start,
            end: self.end,
            text: self.text@,
            kind: self.kind,
            probability: self.probability,
        }
    }
}

impl Clone for Candidate {
    fn clone(&self) -> (r: Self)
        ensures
            r.deep_view() == self.deep_view(),
    {
        Candidate {
            sequence: self.sequence,
            start: self.start,
            end: self.end,
            text: self.text.clone(),
            kind: self.kind,
            probability: self.probability,
        }
    }
}

/// Whether a word is an honorific, which says nothing of who is meant.
pub open spec fn honorific(token: Seq<char>) -> bool {
    ||| token == "mr"@
    ||| token == "mrs"@
    ||| token == "ms"@
    ||| token == "miss"@
    ||| token == "dr"@
    ||| token == "prof"@
    ||| token == "sir"@
    ||| token == "dame"@
}

/// A word of a name in lower case, without punctuation around it.
pub open spec fn clean_token(piece: Seq<char>) -> Seq<char> {
    lowercase(strip(piece, Class::NotAlphanumeric))
}

/// The cleaned words of a list that are neither empty nor honorifics.
pub open spec fn kept_tokens(parts: Seq<Seq<char>>) -> Seq<Seq<char>>
    decreases parts.len(),
{
    if parts.len() == 0 {
        Seq::empty()
    } else {
        let before = kept_tokens(parts.drop_last());
        let token = clean_token(parts.last());
        if token.len() == 0 || honorific(token) {
            before
        } else {
            before.push(token)
        }
    }
}

/// The words of a name that say who is meant.
pub open spec fn tokens_of(text: Seq<char>) -> Seq<Seq<char>> {
    kept_tokens(pieces(text, Class::NameSeparator))
}

/// Whether a person span refers to the searched person: it has words, and each
/// of them is a word of the searched name.
pub open spec fn refers(person: Seq<char>, name: Seq<char>) -> bool {
    let found = tokens_of(person);
    &&& found.len() > 0
    &&& forall|i: int| 0 <= i < found.len() ==> tokens_of(name).contains(#[trigger] found[i])
}

/// Whether `needle` stands in `haystack` at a position, ASCII case aside.
pub open spec fn stands_at(haystack: Seq<char>, needle: Seq<char>, at: int) -> bool {
    &&& 0 <= at
    &&& at + needle.len() <= haystack.len()
    &&& forall|k: int|
        0 <= k < needle.len() ==> ascii_lower(#[trigger] haystack[at + k]) == ascii_lower(
            needle[k],
        )
}

/// Whether what stands between two positions has no letter or number right
/// before or after it.
pub open spec fn whole_word(haystack: Seq<char>, from: int, to: int) -> bool {
    &&& from == 0 || !alphanumeric(haystack[from - 1])
    &&& to == haystack.len() || !alphanumeric(haystack[to])
}

/// The byte ranges at which `needle` is a word of `haystack`, from a position
/// on: from left to right, those that do not overlap one found before.
pub open spec fn word_ranges(haystack: Seq<char>, needle: Seq<char>, from: int) -> Seq<
    (usize, usize),
>
    decreases haystack.len() - from,
{
    if needle.len() == 0 || from < 0 || from + needle.len() > haystack.len() {
        Seq::empty()
    } else if stands_at(haystack, needle, from) && whole_word(
        haystack,
        from,
        from + needle.len(),
    ) {
        let to = from + needle.len();
        let range = (byte_offset(haystack, from) as usize, byte_offset(haystack, to) as usize);
        seq![range] + word_ranges(haystack, needle, to)
    } else {
        word_ranges(haystack, needle, from + 1)
    }
}

/// The person spans of a hit.
pub open spec fn people_in(candidates: Seq<CandidateView>, sequence: int) -> Seq<CandidateView>
    decreases candidates.len(),
{
    if candidates.len() == 0 {
        Seq::empty()
    } else {
        let before = people_in(candidates.drop_last(), sequence);
        let last = candidates.last();
        if last.sequence == sequence && last.kind == SpanKind::Person {
            before.push(last)
        } else {
            before
        }
    }
}

/// The ranges of the people that refer to the searched person.
pub open spec fn referring_ranges(people: Seq<CandidateView>, name: Seq<char>) -> Seq<
    (usize, usize),
>
    decreases people.len(),
{
    if people.len() == 0 {
        Seq::empty()
    } else {
        let before = referring_ranges(people.drop_last(), name);
        let last = people.last();
        if refers(last.text, name) {
            before.push((last.start, last.end))
        } else {
            before
        }
    }
}

/// Whether a name has a surname to look for: its last word, when that is not
/// the only one.
pub open spec fn has_surname(name: Seq<char>) -> bool {
    words(name).len() > 1
}

/// Where the searched person is mentioned in a hit: the person spans that refer
/// to them, and the literal occurrences of the full name and of the surname.
pub open spec fn searched_ranges(
    text: Seq<char>,
    people: Seq<CandidateView>,
    name: Seq<char>,
) -> Seq<(usize, usize)> {
    let named = referring_ranges(people, name) + word_ranges(text, trimmed(name), 0);
    if has_surname(name) {
        named + word_ranges(text, words(name).last(), 0)
    } else {
        named
    }
}

/// Whether two ranges share a byte.
pub open spec fn overlap(a: (usize, usize), b: (usize, usize)) -> bool {
    a.0 < b.1 && b.0 < a.1
}

/// Whether a range overlaps one of a list.
pub open spec fn overlaps_any(range: (usize, usize), ranges: Seq<(usize, usize)>) -> bool {
    exists|i: int| 0 <= i < ranges.len() && overlap(range, #[trigger] ranges[i])
}

/// The ranges of the people that overlap no mention of the searched person.
pub open spec fn other_ranges(
    people: Seq<CandidateView>,
    searched: Seq<(usize, usize)>,
) -> Seq<(usize, usize)>
    decreases people.len(),
{
    if people.len() == 0 {
        Seq::empty()
    } else {
        let before = other_ranges(people.drop_last(), searched);
        let range = (people.last().start, people.last().end);
        if overlaps_any(range, searched) {
            before
        } else {
            before.push(range)
        }
    }
}

/// The bytes between two ranges; 0 when they touch or overlap.
pub open spec fn distance(a: (usize, usize), b: (usize, usize)) -> int {
    let after = if b.0 > a.1 {
        b.0 - a.1
    } else {
        0
    };
    let before = if a.0 > b.1 {
        a.0 - b.1
    } else {
        0
    };
    if after >= before {
        after
    } else {
        before
    }
}

/// Whether a range is no further from a title than any range of a list.
pub open spec fn nearest(
    title: (usize, usize),
    range: (usize, usize),
    ranges: Seq<(usize, usize)>,
) -> bool {
    forall|j: int|
        0 <= j < ranges.len() ==> distance(title, range) <= distance(title, #[trigger] ranges[j])
}

/// Whose title a title is: that of the searched person when one of their
/// mentions is no further away than anybody else's.
pub open spec fn attribution_of(
    title: (usize, usize),
    searched: Seq<(usize, usize)>,
    others: Seq<(usize, usize)>,
) -> Attribution {
    if searched.len() == 0 && others.len() == 0 {
        Attribution::Nobody
    } else if exists|i: int| 0 <= i < searched.len() && nearest(title, #[trigger] searched[i], others) {
        Attribution::SearchedPerson
    } else {
        Attribution::SomeoneElse
    }
}

/// Whose title a span is, judged by the people of its own hit; nothing for a
/// person, or for a span of no hit.
pub open spec fn span_attribution(
    candidates: Seq<CandidateView>,
    sequences: Seq<Seq<char>>,
    name: Seq<char>,
    index: int,
) -> Option<Attribution> {
    let span = candidates[index];
    if span.kind == SpanKind::Title && span.sequence < sequences.len() {
        let people = people_in(candidates, span.sequence as int);
        let searched = searched_ranges(sequences[span.sequence as int], people, name);
        Some(attribution_of((span.start, span.end), searched, other_ranges(people, searched)))
    } else {
        None
    }
}

/// The order in which titles are used: the searched person's before those of
/// hits that mention nobody. Titles of others are not used.
pub open spec fn tier_of(attribution: Option<Attribution>) -> Option<int> {
    match attribution {
        Some(Attribution::SearchedPerson) => Some(0),
        Some(Attribution::Nobody) => Some(1),
        Some(Attribution::SomeoneElse) => None,
        None => None,
    }
}

/// Whether a span is a title of a tier, with text in it.
pub open spec fn in_tier(
    candidates: Seq<CandidateView>,
    attributions: Seq<Option<Attribution>>,
    tier: int,
    index: int,
) -> bool {
    &&& trimmed(candidates[index].text).len() > 0
    &&& tier_of(attributions[index]) == Some(tier)
}

/// The title of a tier that is left among the first `count` spans, when each
/// gives way to the next only if that one is more probable.
pub open spec fn best_of_tier(
    candidates: Seq<CandidateView>,
    attributions: Seq<Option<Attribution>>,
    tier: int,
    count: int,
) -> Option<int>
    decreases count,
{
    if count <= 0 {
        None
    } else {
        let before = best_of_tier(candidates, attributions, tier, count - 1);
        if !in_tier(candidates, attributions, tier, count - 1) {
            before
        } else {
            match before {
                None => Some(count - 1),
                Some(best) => if candidates[count - 1].probability.gt(
                    candidates[best].probability,
                ) {
                    Some(count - 1)
                } else {
                    before
                },
            }
        }
    }
}

/// How many spans have an attribution beside them.
pub open spec fn paired(
    candidates: Seq<CandidateView>,
    attributions: Seq<Option<Attribution>>,
) -> int {
    if candidates.len() <= attributions.len() {
        candidates.len() as int
    } else {
        attributions.len() as int
    }
}

/// The span whose text is the title: the best of the searched person's, or else
/// the best of those that belong to nobody.
pub open spec fn picked_index(
    candidates: Seq<CandidateView>,
    attributions: Seq<Option<Attribution>>,
) -> Option<int> {
    let count = paired(candidates, attributions);
    match best_of_tier(candidates, attributions, 0, count) {
        Some(index) => Some(index),
        None => best_of_tier(candidates, attributions, 1, count),
    }
}

/// The title that is picked, without white space around it.
pub open spec fn picked_title(
    candidates: Seq<CandidateView>,
    attributions: Seq<Option<Attribution>>,
) -> Option<ExtractedTitleView> {
    match picked_index(candidates, attributions) {
        Some(index) => Some(
            ExtractedTitleView {
                text: trimmed(candidates[index].text),
                probability: candidates[index].probability,
            },
        ),
        None => None,
    }
}

/// Whose title each span is.
pub open spec fn all_attributions(
    candidates: Seq<CandidateView>,
    sequences: Seq<Seq<char>>,
    name: Seq<char>,
) -> Seq<Option<Attribution>> {
    Seq::new(candidates.len(), |i: int| span_attribution(candidates, sequences, name, i))
}

/// What one hit gives the extractor to read.
pub open spec fn hit_sequence(hit: HitView) -> Seq<char> {
    joined(non_empty(seq![hit.title, hit.snippet]), "\n"@)
}

/// What the hits give the extractor to read, in hit order.
pub open spec fn sequences_of(hits: Seq<HitView>) -> Seq<Seq<char>> {
    non_empty(hits.map_values(|hit: HitView| hit_sequence(hit)))
}

/// The words of a name that say who is meant.
pub fn name_tokens(text: &str) -> (r: Vec<String>)
    ensures
        r.deep_view() == tokens_of(text@),
{
    let parts = split(text, Class::NameSeparator);
    let mut out: Vec<String> = Vec::new();
    let mut i: usize = 0;
    assert(out.deep_view() =~= kept_tokens(parts.deep_view().take(0)));
    while i < parts.len()
        invariant
            i <= parts.len(),
            parts.deep_view() == pieces(text@, Class::NameSeparator),
            out.deep_view() == kept_tokens(parts.deep_view().take(i as int)),
        decreases parts.len() - i,
    {
        assert(parts.deep_view().take(i + 1).drop_last() =~= parts.deep_view().take(i as int));
        let token = lower(strip_of(parts[i], Class::NotAlphanumeric));
        if !token.as_str().is_empty() && !is_honorific(token.as_str()) {
            let ghost shown = out.deep_view();
            let ghost said = token@;
            out.push(token);
            assert(out.deep_view() =~= shown.push(said));
        }
        i += 1;
    }
    assert(parts.deep_view().take(i as int) =~= parts.deep_view());
    out
}

fn is_honorific(token: &str) -> (r: bool)
    ensures
        r == honorific(token@),
{
    same_text(token, "mr") || same_text(token, "mrs") || same_text(token, "ms") || same_text(
        token,
        "miss",
    ) || same_text(token, "dr") || same_text(token, "prof") || same_text(token, "sir") || same_text(
        token,
        "dame",
    )
}

fn has_token(tokens: &Vec<String>, token: &str) -> (r: bool)
    ensures
        r == tokens.deep_view().contains(token@),
{
    let mut i: usize = 0;
    while i < tokens.len()
        invariant
            i <= tokens.len(),
            forall|k: int| 0 <= k < i ==> tokens.deep_view()[k] != token@,
        decreases tokens.len() - i,
    {
        if same_text(tokens[i].as_str(), token) {
            assert(tokens.deep_view()[i as int] == token@);
            return true;
        }
        i += 1;
    }
    false
}

/// Whether a person span refers to the searched person.
pub fn refers_to(person: &str, name: &str) -> (r: bool)
    ensures
        r == refers(person@, name@),
{
    let wanted = name_tokens(name);
    let found = name_tokens(person);
    if found.len() == 0 {
        return false;
    }
    let mut i: usize = 0;
    while i < found.len()
        invariant
            i <= found.len(),
            wanted.deep_view() == tokens_of(name@),
            found.deep_view() == tokens_of(person@),
            forall|k: int| 0 <= k < i ==> tokens_of(name@).contains(#[trigger] found.deep_view()[k]),
        decreases found.len() - i,
    {
        if !has_token(&wanted, found[i].as_str()) {
            assert(!tokens_of(name@).contains(found.deep_view()[i as int]));
            return false;
        }
        i += 1;
    }
    true
}

fn stands_here(haystack: &Vec<char>, needle: &Vec<char>, at: usize) -> (r: bool)
    requires
        at + needle.len() <= haystack.len(),
    ensures
        r == stands_at(haystack@, needle@, at as int),
{
    let mut k: usize = 0;
    while k < needle.len()
        invariant
            k <= needle.len(),
            at + needle.len() <= haystack.len(),
            forall|j: int|
                0 <= j < k ==> ascii_lower(#[trigger] haystack@[at + j]) == ascii_lower(needle@[j]),
        decreases needle.len() - k,
    {
        if to_ascii_lower(haystack[at + k]) != to_ascii_lower(needle[k]) {
            return false;
        }
        k += 1;
    }
    true
}

fn width_between(chars: &Vec<char>, from: usize, to: usize, start: usize, total: usize) -> (r: usize)
    requires
        from <= to <= chars.len(),
        start == byte_offset(chars@, from as int),
        total == byte_offset(chars@, chars@.len() as int),
    ensures
        r == byte_offset(chars@, to as int),
{
    let mut at: usize = from;
    let mut offset: usize = start;
    while at < to
        invariant
            from <= at <= to <= chars.len(),
            offset == byte_offset(chars@, at as int),
            total == byte_offset(chars@, chars@.len() as int),
        decreases to - at,
    {
        proof {
            lemma_byte_offset_step(chars@, at as int);
            lemma_byte_offset_monotone(chars@, at + 1, chars@.len() as int);
        }
        offset += width_of(chars[at]);
        at += 1;
    }
    offset
}

/// Byte ranges where `needle` appears in `haystack` as whole words, ignoring
/// ASCII case.
pub fn word_occurrences(haystack: &str, needle: &str) -> (r: Vec<(usize, usize)>)
    ensures
        r@ == word_ranges(haystack@, needle@, 0),
{
    let chars = to_chars(haystack);
    let wanted = to_chars(needle);
    let mut found: Vec<(usize, usize)> = Vec::new();
    if wanted.len() == 0 {
        return found;
    }
    let total: usize = byte_length(haystack);
    let mut at: usize = 0;
    let mut offset: usize = 0;
    proof {
        assert(chars@.take(chars@.len() as int) =~= chars@);
        assert(chars@.take(0) =~= Seq::<char>::empty());
        assert(found@ + word_ranges(chars@, wanted@, 0) =~= word_ranges(chars@, wanted@, 0));
    }
    while wanted.len() <= chars.len() && at <= chars.len() - wanted.len()
        invariant
            0 < wanted.len(),
            at <= chars.len(),
            offset == byte_offset(chars@, at as int),
            total == byte_offset(chars@, chars@.len() as int),
            found@ + word_ranges(chars@, wanted@, at as int) == word_ranges(chars@, wanted@, 0),
        decreases chars.len() - at,
    {
        let end: usize = at + wanted.len();
        if stands_here(&chars, &wanted, at) && (at == 0 || !letter_or_number(chars[at - 1])) && (end
            == chars.len() || !letter_or_number(chars[end])) {
            let end_offset: usize = width_between(&chars, at, end, offset, total);
            let ghost shown = found@;
            found.push((offset, end_offset));
            assert(found@ + word_ranges(chars@, wanted@, end as int) =~= shown + (seq![
                (offset, end_offset),
            ] + word_ranges(chars@, wanted@, end as int)));
            at = end;
            offset = end_offset;
        } else {
            offset = width_between(&chars, at, at + 1, offset, total);
            at += 1;
        }
    }
    assert(found@ + word_ranges(chars@, wanted@, at as int) =~= found@);
    found
}

/// Places the searched person is mentioned in a hit.
pub fn searched_mentions(text: &str, people: &Vec<&Candidate>, name: &str) -> (r: Vec<
    (usize, usize),
>)
    ensures
        r@ == searched_ranges(text@, people.deep_view(), name@),
{
    let mut mentions: Vec<(usize, usize)> = Vec::new();
    let mut i: usize = 0;
    assert(mentions@ =~= referring_ranges(people.deep_view().take(0), name@));
    while i < people.len()
        invariant
            i <= people.len(),
            mentions@ == referring_ranges(people.deep_view().take(i as int), name@),
        decreases people.len() - i,
    {
        assert(people.deep_view().take(i + 1).drop_last() =~= people.deep_view().take(i as int));
        let person = people[i];
        if refers_to(person.text.as_str(), name) {
            mentions.push((person.start, person.end));
        }
        i += 1;
    }
    assert(people.deep_view().take(i as int) =~= people.deep_view());

    let mut full = word_occurrences(text, trim(name));
    mentions.append(&mut full);

    let tokens = split_words(name);
    if tokens.len() > 1 {
        let surname = tokens[tokens.len() - 1];
        assert(tokens.deep_view().last() == surname@);
        let mut last = word_occurrences(text, surname);
        mentions.append(&mut last);
    }
    mentions
}

/// Gap in bytes between two ranges; 0 when they touch or overlap.
pub fn gap(a: (usize, usize), b: (usize, usize)) -> (r: usize)
    ensures
        r == distance(a, b),
{
    let after: usize = b.0.saturating_sub(a.1);
    let before: usize = a.0.saturating_sub(b.1);
    if after >= before {
        after
    } else {
        before
    }
}

/// Whether two ranges share a byte.
pub fn overlaps(a: (usize, usize), b: (usize, usize)) -> (r: bool)
    ensures
        r == overlap(a, b),
{
    a.0 < b.1 && b.0 < a.1
}

fn overlaps_one_of(range: (usize, usize), ranges: &Vec<(usize, usize)>) -> (r: bool)
    ensures
        r == overlaps_any(range, ranges@),
{
    let mut i: usize = 0;
    while i < ranges.len()
        invariant
            i <= ranges.len(),
            forall|k: int| 0 <= k < i ==> !overlap(range, #[trigger] ranges@[k]),
        decreases ranges.len() - i,
    {
        if overlaps(range, ranges[i]) {
            assert(overlap(range, ranges@[i as int]));
            return true;
        }
        i += 1;
    }
    false
}

/// The smallest gap between a title and the ranges of a list, and where it is.
fn smallest_gap(title: (usize, usize), ranges: &[(usize, usize)]) -> (r: Option<(usize, usize)>)
    ensures
        r is None <==> ranges@.len() == 0,
        r matches Some(best) ==> {
            &&& best.0 < ranges@.len()
            &&& best.1 == distance(title, ranges@[best.0 as int])
            &&& nearest(title, ranges@[best.0 as int], ranges@)
        },
{
    if ranges.len() == 0 {
        return None;
    }
    let mut best: usize = 0;
    let mut smallest: usize = gap(title, ranges[0]);
    let mut i: usize = 1;
    while i < ranges.len()
        invariant
            1 <= i <= ranges@.len(),
            best < i,
            smallest == distance(title, ranges@[best as int]),
            forall|k: int| 0 <= k < i ==> smallest <= distance(title, #[trigger] ranges@[k]),
        decreases ranges.len() - i,
    {
        let here: usize = gap(title, ranges[i]);
        if here < smallest {
            smallest = here;
            best = i;
        }
        i += 1;
    }
    Some((best, smallest))
}

/// Attributes a title to the nearest person mentioned in the same hit. Ties go
/// to the searched person.
pub fn attribute(
    title: (usize, usize),
    searched: &[(usize, usize)],
    others: &[(usize, usize)],
) -> (r: Attribution)
    ensures
        r == attribution_of(title, searched@, others@),
{
    match (smallest_gap(title, searched), smallest_gap(title, others)) {
        (None, None) => Attribution::Nobody,
        (Some(own), None) => {
            assert(nearest(title, searched@[own.0 as int], others@));
            Attribution::SearchedPerson
        },
        (None, Some(_)) => Attribution::SomeoneElse,
        (Some(own), Some(other)) => {
            if own.1 <= other.1 {
                assert(nearest(title, searched@[own.0 as int], others@));
                Attribution::SearchedPerson
            } else {
                assert forall|i: int| 0 <= i < searched@.len() implies !nearest(
                    title,
                    #[trigger] searched@[i],
                    others@,
                ) by {
                    assert(distance(title, searched@[own.0 as int]) <= distance(
                        title,
                        searched@[i],
                    ));
                    assert(distance(title, searched@[i]) > distance(
                        title,
                        others@[other.0 as int],
                    ));
                }
                Attribution::SomeoneElse
            }
        },
    }
}

fn people_of<'a>(candidates: &'a [Candidate], sequence: usize) -> (r: Vec<&'a Candidate>)
    ensures
        r.deep_view() == people_in(candidates.deep_view(), sequence as int),
{
    let mut people: Vec<&'a Candidate> = Vec::new();
    let mut i: usize = 0;
    assert(people.deep_view() =~= people_in(candidates.deep_view().take(0), sequence as int));
    while i < candidates.len()
        invariant
            i <= candidates@.len(),
            people.deep_view() == people_in(
                candidates.deep_view().take(i as int),
                sequence as int,
            ),
        decreases candidates.len() - i,
    {
        assert(candidates.deep_view().take(i + 1).drop_last() =~= candidates.deep_view().take(
            i as int,
        ));
        let candidate = &candidates[i];
        if candidate.sequence == sequence && candidate.kind == SpanKind::Person {
            let ghost shown = people.deep_view();
            people.push(candidate);
            assert(people.deep_view() =~= shown.push(candidate.deep_view()));
        }
        i += 1;
    }
    assert(candidates.deep_view().take(i as int) =~= candidates.deep_view());
    people
}

fn others_of(people: &Vec<&Candidate>, searched: &Vec<(usize, usize)>) -> (r: Vec<(usize, usize)>)
    ensures
        r@ == other_ranges(people.deep_view(), searched@),
{
    let mut others: Vec<(usize, usize)> = Vec::new();
    let mut i: usize = 0;
    assert(others@ =~= other_ranges(people.deep_view().take(0), searched@));
    while i < people.len()
        invariant
            i <= people.len(),
            others@ == other_ranges(people.deep_view().take(i as int), searched@),
        decreases people.len() - i,
    {
        assert(people.deep_view().take(i + 1).drop_last() =~= people.deep_view().take(i as int));
        let person = people[i];
        let range: (usize, usize) = (person.start, person.end);
        if !overlaps_one_of(range, searched) {
            others.push(range);
        }
        i += 1;
    }
    assert(people.deep_view().take(i as int) =~= people.deep_view());
    others
}

/// Attributes every title span to a person; `None` for person spans. The
/// result lines up index-for-index with `candidates`.
pub fn attribute_all(candidates: &[Candidate], sequences: &[String], name: &str) -> (r: Vec<
    Option<Attribution>,
>)
    ensures
        r@.len() == candidates@.len(),
        forall|i: int|
            0 <= i < r@.len() ==> #[trigger] r@[i] == span_attribution(
                candidates.deep_view(),
                sequences.deep_view(),
                name@,
                i,
            ),
{
    let mut attributions: Vec<Option<Attribution>> = Vec::new();
    let mut filled: usize = 0;
    while filled < candidates.len()
        invariant
            filled <= candidates@.len(),
            attributions@.len() == filled,
            forall|i: int| 0 <= i < filled ==> #[trigger] attributions@[i] is None,
        decreases candidates.len() - filled,
    {
        attributions.push(None);
        filled += 1;
    }

    let mut sequence: usize = 0;
    while sequence < sequences.len()
        invariant
            sequence <= sequences@.len(),
            attributions@.len() == candidates@.len(),
            forall|i: int|
                0 <= i < attributions@.len() ==> #[trigger] attributions@[i] == (if candidates@[i].sequence
                    < sequence {
                    span_attribution(candidates.deep_view(), sequences.deep_view(), name@, i)
                } else {
                    None
                }),
        decreases sequences.len() - sequence,
    {
        let text = sequences[sequence].as_str();
        let people = people_of(candidates, sequence);
        let searched = searched_mentions(text, &people, name);
        let others = others_of(&people, &searched);
        let mut index: usize = 0;
        while index < candidates.len()
            invariant
                index <= candidates@.len(),
                sequence < sequences@.len(),
                attributions@.len() == candidates@.len(),
                text@ == sequences@[sequence as int]@,
                people.deep_view() == people_in(candidates.deep_view(), sequence as int),
                searched@ == searched_ranges(text@, people.deep_view(), name@),
                others@ == other_ranges(people.deep_view(), searched@),
                forall|i: int|
                    0 <= i < attributions@.len() ==> #[trigger] attributions@[i] == (if candidates@[i].sequence
                        < sequence || (candidates@[i].sequence == sequence && i < index) {
                        span_attribution(candidates.deep_view(), sequences.deep_view(), name@, i)
                    } else {
                        None
                    }),
            decreases candidates.len() - index,
        {
            let title = &candidates[index];
            if title.sequence == sequence && title.kind == SpanKind::Title {
                let whose = attribute(
                    (title.start, title.end),
                    searched.as_slice(),
                    others.as_slice(),
                );
                attributions.set(index, Some(whose));
            }
            index += 1;
        }
        sequence += 1;
    }
    attributions
}

/// The most confident title belonging to the searched person.
///
/// Titles nearest the searched person win. If none are, titles from hits that
/// mention nobody are used as a fallback. Titles nearer someone else are never
/// used. Within a tier the highest probability wins; ties go to the earlier
/// candidate. Candidates come in hit order, then by position.
pub fn pick_for_person(candidates: &[Candidate], sequences: &[String], name: &str) -> (r: Option<
    ExtractedTitle,
>)
    ensures
        r.deep_view() == picked_title(
            candidates.deep_view(),
            all_attributions(candidates.deep_view(), sequences.deep_view(), name@),
        ),
{
    let attributions = attribute_all(candidates, sequences, name);
    assert(attributions@ =~= all_attributions(
        candidates.deep_view(),
        sequences.deep_view(),
        name@,
    ));
    pick_attributed(candidates, attributions.as_slice())
}

fn better(candidates: &[Candidate], best: Option<usize>, index: usize) -> (r: bool)
    requires
        index < candidates@.len(),
        best matches Some(at) ==> at < candidates@.len(),
    ensures
        r == (best matches Some(at) ==> candidates@[index as int].probability.gt(
            candidates@[at as int].probability,
        )),
{
    match best {
        None => true,
        Some(at) => candidates[index].probability.exceeds(&candidates[at].probability),
    }
}

/// The title to use when it is known whose each span is.
pub fn pick_attributed(candidates: &[Candidate], attributions: &[Option<Attribution>]) -> (r: Option<
    ExtractedTitle,
>)
    ensures
        r.deep_view() == picked_title(candidates.deep_view(), attributions@),
{
    let mut own: Option<usize> = None;
    let mut unowned: Option<usize> = None;
    let mut index: usize = 0;
    while index < candidates.len() && index < attributions.len()
        invariant
            index <= candidates@.len(),
            index <= attributions@.len(),
            own matches Some(at) ==> at < index,
            unowned matches Some(at) ==> at < index,
            best_of_tier(candidates.deep_view(), attributions@, 0, index as int) == (match own {
                Some(at) => Some(at as int),
                None => None,
            }),
            best_of_tier(candidates.deep_view(), attributions@, 1, index as int) == (match unowned {
                Some(at) => Some(at as int),
                None => None,
            }),
        decreases candidates.len() - index,
    {
        if !trim(candidates[index].text.as_str()).is_empty() {
            match attributions[index] {
                Some(Attribution::SearchedPerson) => {
                    if better(candidates, own, index) {
                        own = Some(index);
                    }
                },
                Some(Attribution::Nobody) => {
                    if better(candidates, unowned, index) {
                        unowned = Some(index);
                    }
                },
                Some(Attribution::SomeoneElse) => {},
                None => {},
            }
        }
        index += 1;
    }
    let picked: Option<usize> = match own {
        Some(at) => Some(at),
        None => unowned,
    };
    match picked {
        Some(at) => Some(
            ExtractedTitle {
                text: trim(candidates[at].text.as_str()).to_owned(),
                probability: candidates[at].probability,
            },
        ),
        None => None,
    }
}

/// One text per hit, in hit order. Kept per-hit rather than joined so that a
/// title is only ever attributed to a person in the same hit. The link is left
/// out: it never contains a title.
pub fn hits_to_sequences(hits: &[SearchHit]) -> (r: Vec<String>)
    ensures
        r.deep_view() == sequences_of(hits.deep_view()),
{
    let ghost blocks = hits.deep_view().map_values(|hit: HitView| hit_sequence(hit));
    let mut texts: Vec<String> = Vec::new();
    let mut i: usize = 0;
    assert(texts.deep_view() =~= blocks.take(0));
    while i < hits.len()
        invariant
            i <= hits@.len(),
            blocks == hits.deep_view().map_values(|hit: HitView| hit_sequence(hit)),
            texts.deep_view() == blocks.take(i as int),
        decreases hits.len() - i,
    {
        let parts: Vec<String> = vec![hits[i].title.clone(), hits[i].snippet.clone()];
        assert(parts.deep_view() =~= seq![hits@[i as int].title@, hits@[i as int].snippet@]);
        let kept = keep_non_empty(parts);
        let text = join(&kept, "\n");
        let ghost shown = texts.deep_view();
        let ghost said = text@;
        texts.push(text);
        assert(texts.deep_view() =~= shown.push(said));
        assert(blocks[i as int] == hit_sequence(hits.deep_view()[i as int]));
        assert(blocks.take(i + 1) =~= blocks.take(i as int).push(blocks[i as int]));
        i += 1;
    }
    assert(blocks.take(i as int) =~= blocks);
    keep_non_empty(texts)
}

/// Why an extraction gave nothing.
#[derive(Debug)]
pub struct ExtractError(pub String);

impl DeepView for ExtractError {
    type V = Seq<char>;

    open spec fn deep_view(&self) -> Seq<char> {
        self.0@
    }
}

/// An extraction error in words.
pub open spec fn extract_error_text(message: Seq<char>) -> Seq<char> {
    "GLiNER extraction failed: "@ + message
}

impl ExtractError {
    /// The error in words.
    pub fn to_string(&self) -> (r: String)
        ensures
            r@ == extract_error_text(self.deep_view()),
    {
        let mut out = "GLiNER extraction failed: ".to_owned();
        out.append(self.0.as_str());
        out
    }
}

/// What an extraction found.
#[derive(Debug)]
pub struct ExtractionOutput {
    /// Every span found, titles and people, with title attributions.
    pub spans: Vec<GlinerSpan>,
    /// The searched person's most confident title, if any.
    pub chosen: Option<ExtractedTitle>,
}

/// What an `ExtractionOutput` says.
pub struct OutputView {
    pub spans: Seq<GlinerSpanView>,
    pub chosen: Option<ExtractedTitleView>,
}

impl DeepView for ExtractionOutput {
    type V = OutputView;

    open spec fn deep_view(&self) -> OutputView {
        OutputView { spans: self.spans.deep_view(), chosen: self.chosen.deep_view() }
    }
}

/// One extraction: what it was given and what came back. The request is kept
/// even on failure so it can always be saved.
#[derive(Debug)]
pub struct ExtractionAttempt {
    pub request: GlinerRequest,
    pub duration_ms: u64,
    pub result: Result<ExtractionOutput, ExtractError>,
}

/// What an `ExtractionAttempt` says.
pub struct ExtractionAttemptView {
    pub request: GlinerRequestView,
    pub duration_ms: u64,
    pub result: Result<OutputView, Seq<char>>,
}

impl DeepView for ExtractionAttempt {
    type V = ExtractionAttemptView;

    open spec fn deep_view(&self) -> ExtractionAttemptView {
        ExtractionAttemptView {
            request: self.request.deep_view(),
            duration_ms: self.duration_ms,
            result: result_view(self.result),
        }
    }
}

/// A span as the model reports it, under the label it was found by.
#[derive(Debug)]
pub struct FoundSpan {
    pub sequence: usize,
    pub start: usize,
    pub end: usize,
    pub text: String,
    pub class: String,
    pub probability: Probability,
}

/// What a `FoundSpan` says.
pub struct FoundSpanView {
    pub sequence: usize,
    pub start: usize,
    pub end: usize,
    pub text: Seq<char>,
    pub class: Seq<char>,
    pub probability: Probability,
}

impl DeepView for FoundSpan {
    type V = FoundSpanView;

    open spec fn deep_view(&self) -> FoundSpanView {
        FoundSpanView {
            sequence: self.sequence,
            start: self.start,
            end: self.end,
            text: self.text@,
            class: self.class@,
            probability: self.probability,
        }
    }
}

/// What a label stands for.
pub open spec fn kind_of(class: Seq<char>) -> Option<SpanKind> {
    if class == TITLE_LABEL@ {
        Some(SpanKind::Title)
    } else if class == PERSON_LABEL@ {
        Some(SpanKind::Person)
    } else {
        None
    }
}

/// The label of a kind of span.
pub open spec fn label_of(kind: SpanKind) -> Seq<char> {
    match kind {
        SpanKind::Title => TITLE_LABEL@,
        SpanKind::Person => PERSON_LABEL@,
    }
}

/// The titles and the people among the spans that a model reports, in order.
pub open spec fn candidates_of(spans: Seq<FoundSpanView>) -> Seq<CandidateView>
    decreases spans.len(),
{
    if spans.len() == 0 {
        Seq::empty()
    } else {
        let before = candidates_of(spans.drop_last());
        let last = spans.last();
        match kind_of(last.class) {
            Some(kind) => before.push(
                CandidateView {
                    sequence: last.sequence,
                    start: last.start,
                    end: last.end,
                    text: last.text,
                    kind,
                    probability: last.probability,
                },
            ),
            None => before,
        }
    }
}

/// A candidate as it is saved, with whose title it is.
pub open spec fn saved_span(candidate: CandidateView, attribution: Option<Attribution>) -> GlinerSpanView {
    GlinerSpanView {
        input: candidate.sequence,
        start: candidate.start,
        end: candidate.end,
        text: candidate.text,
        label: label_of(candidate.kind),
        probability: candidate.probability,
        attribution,
    }
}

/// What the spans found in some inputs amount to for the searched person.
pub open spec fn output_of(
    spans: Seq<FoundSpanView>,
    inputs: Seq<Seq<char>>,
    name: Seq<char>,
) -> OutputView {
    let candidates = candidates_of(spans);
    let attributions = all_attributions(candidates, inputs, name);
    OutputView {
        spans: Seq::new(candidates.len(), |i: int| saved_span(candidates[i], attributions[i])),
        chosen: picked_title(candidates, attributions),
    }
}

/// What came back when the model was run.
#[derive(Debug)]
pub enum ModelReply {
    /// The spans that the model reports.
    Spans(Vec<FoundSpan>),
    /// The model refused its input or failed on it.
    Failed { error: String },
    /// The model never finished.
    Panicked { error: String },
}

/// What a `ModelReply` says.
pub enum ModelReplyView {
    Spans(Seq<FoundSpanView>),
    Failed { error: Seq<char> },
    Panicked { error: Seq<char> },
}

impl DeepView for ModelReply {
    type V = ModelReplyView;

    open spec fn deep_view(&self) -> ModelReplyView {
        match self {
            ModelReply::Spans(spans) => ModelReplyView::Spans(spans.deep_view()),
            ModelReply::Failed { error } => ModelReplyView::Failed { error: error@ },
            ModelReply::Panicked { error } => ModelReplyView::Panicked { error: error@ },
        }
    }
}

/// The result of an extraction: nothing for no inputs, and else what the model
/// found, or why it found nothing.
pub open spec fn extraction_result(
    request: GlinerRequestView,
    reply: ModelReplyView,
) -> Result<OutputView, Seq<char>> {
    if request.inputs.len() == 0 {
        Ok(OutputView { spans: Seq::empty(), chosen: None })
    } else {
        match reply {
            ModelReplyView::Spans(spans) => Ok(
                output_of(spans, request.inputs, request.searched_name),
            ),
            ModelReplyView::Failed { error } => Err(error),
            ModelReplyView::Panicked { error } => Err("inference task panicked: "@ + error),
        }
    }
}

/// The request that has a person's title extracted from hits.
pub open spec fn gliner_request(
    model: Seq<char>,
    hits: Seq<HitView>,
    name: Seq<char>,
    id: u128,
    started_at: Timestamp,
) -> GlinerRequestView {
    GlinerRequestView {
        id,
        model,
        labels: seq![TITLE_LABEL@, PERSON_LABEL@],
        threshold: Probability { bits: THRESHOLD },
        searched_name: name,
        inputs: sequences_of(hits),
        started_at,
    }
}

fn to_candidates(spans: Vec<FoundSpan>) -> (r: Vec<Candidate>)
    ensures
        r.deep_view() == candidates_of(spans.deep_view()),
{
    let mut out: Vec<Candidate> = Vec::new();
    let mut i: usize = 0;
    assert(out.deep_view() =~= candidates_of(spans.deep_view().take(0)));
    while i < spans.len()
        invariant
            i <= spans.len(),
            out.deep_view() == candidates_of(spans.deep_view().take(i as int)),
        decreases spans.len() - i,
    {
        assert(spans.deep_view().take(i + 1).drop_last() =~= spans.deep_view().take(i as int));
        let span = &spans[i];
        let kind: Option<SpanKind> = if same_text(span.class.as_str(), TITLE_LABEL) {
            Some(SpanKind::Title)
        } else if same_text(span.class.as_str(), PERSON_LABEL) {
            Some(SpanKind::Person)
        } else {
            None
        };
        match kind {
            Some(kind) => {
                let candidate = Candidate {
                    sequence: span.sequence,
                    start: span.start,
                    end: span.end,
                    text: span.text.clone(),
                    kind,
                    probability: span.probability,
                };
                let ghost shown = out.deep_view();
                let ghost said = candidate.deep_view();
                out.push(candidate);
                assert(out.deep_view() =~= shown.push(said));
            },
            None => {},
        }
        i += 1;
    }
    assert(spans.deep_view().take(i as int) =~= spans.deep_view());
    out
}

/// What the spans found in some inputs amount to for the searched person.
pub fn extraction_output(spans: Vec<FoundSpan>, inputs: &[String], name: &str) -> (r: ExtractionOutput)
    ensures
        r.deep_view() == output_of(spans.deep_view(), inputs.deep_view(), name@),
{
    let candidates = to_candidates(spans);
    let ghost views = candidates.deep_view();
    let listed = candidates.as_slice();
    assert(listed.deep_view() =~= views);
    let attributions = attribute_all(listed, inputs, name);
    assert(attributions@ =~= all_attributions(views, inputs.deep_view(), name@));
    let chosen = pick_attributed(listed, attributions.as_slice());
    let mut saved: Vec<GlinerSpan> = Vec::new();
    let mut i: usize = 0;
    while i < candidates.len()
        invariant
            i <= candidates.len(),
            candidates.len() == attributions.len(),
            views == candidates.deep_view(),
            saved.len() == i,
            forall|k: int|
                0 <= k < i ==> #[trigger] saved.deep_view()[k] == saved_span(
                    views[k],
                    attributions@[k],
                ),
        decreases candidates.len() - i,
    {
        let candidate = &candidates[i];
        let label = match candidate.kind {
            SpanKind::Title => TITLE_LABEL,
            SpanKind::Person => PERSON_LABEL,
        };
        let span = GlinerSpan {
            input: candidate.sequence,
            start: candidate.start,
            end: candidate.end,
            text: candidate.text.clone(),
            label: label.to_owned(),
            probability: candidate.probability,
            attribution: attributions[i],
        };
        let ghost shown = saved.deep_view();
        let ghost said = span.deep_view();
        saved.push(span);
        assert(saved.deep_view() =~= shown.push(said));
        i += 1;
    }
    let output = ExtractionOutput { spans: saved, chosen };
    assert(output.deep_view().spans =~= output_of(
        spans.deep_view(),
        inputs.deep_view(),
        name@,
    ).spans);
    output
}

/// What the extractor is set up with.
#[derive(Debug)]
pub struct GlinerExtractor {
    /// The model's name, saved with each extraction.
    pub model_name: String,
}

impl GlinerExtractor {
    /// The request that has a person's title extracted from hits, with the
    /// identifier and the time given.
    pub fn request_at(&self, hits: &[SearchHit], name: &str, id: u128, started_at: Timestamp) -> (r:
        GlinerRequest)
        ensures
            r.deep_view() == gliner_request(
                self.model_name@,
                hits.deep_view(),
                name@,
                id,
                started_at,
            ),
    {
        let labels: Vec<String> = vec![TITLE_LABEL.to_owned(), PERSON_LABEL.to_owned()];
        assert(labels.deep_view() =~= seq![TITLE_LABEL@, PERSON_LABEL@]);
        GlinerRequest {
            id,
            model: self.model_name.clone(),
            labels,
            threshold: Probability { bits: THRESHOLD },
            searched_name: name.to_owned(),
            inputs: hits_to_sequences(hits),
            started_at,
        }
    }

    /// The request that has a person's title extracted from hits, with an
    /// identifier of its own and the time that it is.
    pub fn request(&self, hits: &[SearchHit], name: &str) -> (r: GlinerRequest)
        ensures
            r.deep_view() == gliner_request(
                self.model_name@,
                hits.deep_view(),
                name@,
                r.id,
                r.started_at,
            ),
            random_id(r.id),
            clock_time(r.started_at),
    {
        self.request_at(hits, name, new_id(), now())
    }

    /// Whether an extraction needs the model at all.
    pub fn needs_model(request: &GlinerRequest) -> (r: bool)
        ensures
            r == (request.deep_view().inputs.len() > 0),
    {
        request.inputs.len() > 0
    }

    /// The result of an extraction, from what came back when the model was run.
    pub fn run(request: &GlinerRequest, reply: ModelReply) -> (r: Result<
        ExtractionOutput,
        ExtractError,
    >)
        ensures
            result_view(r) == extraction_result(request.deep_view(), reply.deep_view()),
    {
        if request.inputs.len() == 0 {
            let output = ExtractionOutput { spans: Vec::new(), chosen: None };
            assert(output.deep_view().spans =~= Seq::empty());
            return Ok(output);
        }
        match reply {
            ModelReply::Spans(spans) => {
                let inputs = request.inputs.as_slice();
                assert(inputs.deep_view() =~= request.inputs.deep_view());
                Ok(extraction_output(spans, inputs, request.searched_name.as_str()))
            },
            ModelReply::Failed { error } => Err(ExtractError(error)),
            ModelReply::Panicked { error } => {
                let mut message = "inference task panicked: ".to_owned();
                message.append(error.as_str());
                Err(ExtractError(message))
            },
        }
    }

    /// The attempt that a request and the run of the model for it make.
    pub fn attempt(request: GlinerRequest, duration_ms: u64, reply: ModelReply) -> (r:
        ExtractionAttempt)
        ensures
            r.deep_view() == (ExtractionAttemptView {
                request: request.deep_view(),
                duration_ms,
                result: extraction_result(request.deep_view(), reply.deep_view()),
            }),
    {
        let result = Self::run(&request, reply);
        ExtractionAttempt { request, duration_ms, result }
    }
}

/// The name of the model in a directory: the directory's own name where it has
/// one, and else its path as shown.
pub fn model_name(file_name: Option<String>, shown: &str) -> (r: String)
    ensures
        r@ == (match file_name {
            Some(name) => name@,
            None => shown@,
        }),
{
    match file_name {
        Some(name) => name,
        None => shown.to_owned(),
    }
}

/// The error for a missing model file.
pub open spec fn missing_file_text(path: Seq<char>) -> Seq<char> {
    path + " not found \u{2014} run ./scripts/download-gliner.sh"@
}

/// Refuses a model when one of its files is missing, and names the first that
/// is. Each file is given by its path and whether it is there.
pub fn check_model_files(files: &[(String, bool)]) -> (r: Result<(), ExtractError>)
    ensures
        r is Ok <==> forall|i: int| 0 <= i < files@.len() ==> #[trigger] files@[i].1,
        r matches Err(error) ==> exists|i: int|
            0 <= i < files@.len() && !(#[trigger] files@[i].1) && (forall|k: int|
                0 <= k < i ==> #[trigger] files@[k].1) && error.deep_view() == missing_file_text(
                files@[i].0@,
            ),
{
    let mut i: usize = 0;
    while i < files.len()
        invariant
            i <= files@.len(),
            forall|k: int| 0 <= k < i ==> #[trigger] files@[k].1,
        decreases files.len() - i,
    {
        if !files[i].1 {
            let mut message = files[i].0.clone();
            message.append(" not found \u{2014} run ./scripts/download-gliner.sh");
            assert(!files@[i as int].1);
            return Err(ExtractError(message));
        }
        i += 1;
    }
    Ok(())
}

/// A path as text, where it is text. `shown` is the path for people to read.
pub fn path_str<'a>(path: Option<&'a str>, shown: &str) -> (r: Result<&'a str, ExtractError>)
    ensures
        match path {
            Some(text) => r matches Ok(value) && value@ == text@,
            None => r matches Err(error) && error.deep_view() == "path is not UTF-8: "@ + shown@,
        },
{
    match path {
        Some(text) => Ok(text),
        None => {
            let mut message = "path is not UTF-8: ".to_owned();
            message.append(shown);
            Err(ExtractError(message))
        },
    }
}

} // verus!
