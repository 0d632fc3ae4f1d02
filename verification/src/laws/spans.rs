//! From the spans that a model reports to the title that is picked.
use vstd::prelude::*;

use crate::laws::attribution::lemma_best;
use crate::laws::hits::each_hit_with_text_is_one_input;
use crate::laws::hits::has_title_or_snippet;
use crate::models::Attribution;
use crate::models::ExtractedTitleView;
use crate::models::GlinerRequestView;
use crate::models::HitView;
use crate::models::Timestamp;
use crate::ner::all_attributions;
use crate::ner::best_of_tier;
use crate::ner::candidates_of;
use crate::ner::extract_error_text;
use crate::ner::extraction_result;
use crate::ner::gliner_request;
use crate::ner::in_tier;
use crate::ner::kind_of;
use crate::ner::label_of;
use crate::ner::missing_file_text;
use crate::ner::output_of;
use crate::ner::picked_index;
use crate::ner::picked_title;
use crate::ner::sequences_of;
use crate::ner::span_attribution;
use crate::ner::CandidateView;
use crate::ner::FoundSpanView;
use crate::ner::ModelReplyView;
use crate::ner::OutputView;
use crate::ner::SpanKind;
use crate::text::trimmed;

verus! {

/// Whether a span is a title with text in it that belongs as given.
pub open spec fn belongs_to(
    candidates: Seq<CandidateView>,
    attributions: Seq<Option<Attribution>>,
    index: int,
    whose: Attribution,
) -> bool {
    &&& 0 <= index < candidates.len()
    &&& index < attributions.len()
    &&& attributions[index] == Some(whose)
    &&& trimmed(candidates[index].text).len() > 0
}

/// Whether there is a title with text in it that belongs as given.
pub open spec fn any_belongs_to(
    candidates: Seq<CandidateView>,
    attributions: Seq<Option<Attribution>>,
    whose: Attribution,
) -> bool {
    exists|index: int| #[trigger] belongs_to(candidates, attributions, index, whose)
}

/// The title that a span gives: its text without the white space around it, and
/// its probability.
pub open spec fn title_from(span: CandidateView) -> ExtractedTitleView {
    ExtractedTitleView { text: trimmed(span.text), probability: span.probability }
}

proof fn lemma_best_of_more(
    candidates: Seq<CandidateView>,
    attributions: Seq<Option<Attribution>>,
    span: CandidateView,
    whose: Option<Attribution>,
    tier: int,
    count: int,
)
    requires
        count <= candidates.len(),
        count <= attributions.len(),
    ensures
        best_of_tier(candidates.push(span), attributions.push(whose), tier, count) == best_of_tier(
            candidates,
            attributions,
            tier,
            count,
        ),
        best_of_tier(candidates, attributions, tier, count) matches Some(best) ==> 0 <= best
            < count,
    decreases count,
{
    if count > 0 {
        lemma_best_of_more(candidates, attributions, span, whose, tier, count - 1);
    }
}

proof fn lemma_any(candidates: Seq<CandidateView>, attributions: Seq<Option<Attribution>>)
    requires
        candidates.len() == attributions.len(),
    ensures
        any_belongs_to(candidates, attributions, Attribution::SearchedPerson) <==> best_of_tier(
            candidates,
            attributions,
            0,
            candidates.len() as int,
        ) is Some,
        any_belongs_to(candidates, attributions, Attribution::Nobody) <==> best_of_tier(
            candidates,
            attributions,
            1,
            candidates.len() as int,
        ) is Some,
{
    let count = candidates.len() as int;
    lemma_best(candidates, attributions, 0, count);
    lemma_best(candidates, attributions, 1, count);
    let own = Attribution::SearchedPerson;
    let unowned = Attribution::Nobody;
    match best_of_tier(candidates, attributions, 0, count) {
        Some(best) => {
            assert(belongs_to(candidates, attributions, best, own));
        },
        None => {
            assert forall|k: int| !#[trigger] belongs_to(candidates, attributions, k, own) by {
                if 0 <= k < count {
                    assert(!in_tier(candidates, attributions, 0, k));
                }
            }
        },
    }
    match best_of_tier(candidates, attributions, 1, count) {
        Some(best) => {
            assert(belongs_to(candidates, attributions, best, unowned));
        },
        None => {
            assert forall|k: int| !#[trigger] belongs_to(candidates, attributions, k, unowned) by {
                if 0 <= k < count {
                    assert(!in_tier(candidates, attributions, 1, k));
                }
            }
        },
    }
}

/// One span more changes the title that is picked only if it has text in it and
/// either belongs to the searched person, and none before it does or it is more
/// probable than the one picked; or belongs to nobody, while none before it is
/// the searched person's, and none is picked or it is more probable than that.
/// Then it is the title picked, without the white space around it.
pub proof fn one_span_more(
    candidates: Seq<CandidateView>,
    attributions: Seq<Option<Attribution>>,
    span: CandidateView,
    whose: Option<Attribution>,
)
    requires
        candidates.len() == attributions.len(),
    ensures
        ({
            let before = picked_title(candidates, attributions);
            let after = picked_title(candidates.push(span), attributions.push(whose));
            let own = any_belongs_to(candidates, attributions, Attribution::SearchedPerson);
            let blank = trimmed(span.text).len() == 0;
            let surer = before matches Some(title) ==> span.probability.gt(title.probability);
            &&& blank || whose is None || whose == Some(Attribution::SomeoneElse) ==> after
                == before
            &&& !blank && whose == Some(Attribution::SearchedPerson) ==> after == (if !own
                || surer {
                Some(title_from(span))
            } else {
                before
            })
            &&& !blank && whose == Some(Attribution::Nobody) ==> after == (if !own && surer {
                Some(title_from(span))
            } else {
                before
            })
        }),
{
    let count = candidates.len() as int;
    let more = candidates.push(span);
    let all = attributions.push(whose);
    lemma_best_of_more(candidates, attributions, span, whose, 0, count);
    lemma_best_of_more(candidates, attributions, span, whose, 1, count);
    lemma_any(candidates, attributions);
    assert(more[count] == span);
    assert(all[count] == whose);
}

/// No title is picked without a span, nor without an attribution beside it.
pub proof fn nothing_is_picked_from_nothing(
    candidates: Seq<CandidateView>,
    attributions: Seq<Option<Attribution>>,
)
    ensures
        picked_title(Seq::empty(), attributions) is None,
        picked_title(candidates, Seq::empty()) is None,
{
}

proof fn lemma_best_of_prefix(
    candidates: Seq<CandidateView>,
    attributions: Seq<Option<Attribution>>,
    tier: int,
    length: int,
    count: int,
)
    requires
        count <= length <= candidates.len(),
        length <= attributions.len(),
    ensures
        best_of_tier(candidates.take(length), attributions.take(length), tier, count)
            == best_of_tier(candidates, attributions, tier, count),
        best_of_tier(candidates, attributions, tier, count) matches Some(best) ==> 0 <= best
            < count,
    decreases count,
{
    if count > 0 {
        lemma_best_of_prefix(candidates, attributions, tier, length, count - 1);
    }
}

/// Spans without an attribution beside them do not matter, and neither do
/// attributions without a span.
pub proof fn only_attributed_spans_matter(
    candidates: Seq<CandidateView>,
    attributions: Seq<Option<Attribution>>,
    more: Seq<CandidateView>,
    others: Seq<Option<Attribution>>,
)
    requires
        candidates.len() == attributions.len(),
    ensures
        picked_title(candidates + more, attributions) == picked_title(candidates, attributions),
        picked_title(candidates, attributions + others) == picked_title(candidates, attributions),
{
    let count = candidates.len() as int;
    let longer = candidates + more;
    let wider = attributions + others;
    assert(longer.take(count) =~= candidates);
    assert(attributions.take(count) =~= attributions);
    assert(candidates.take(count) =~= candidates);
    assert(wider.take(count) =~= attributions);
    lemma_best_of_prefix(longer, attributions, 0, count, count);
    lemma_best_of_prefix(longer, attributions, 1, count, count);
    lemma_best_of_prefix(candidates, wider, 0, count, count);
    lemma_best_of_prefix(candidates, wider, 1, count, count);
}

/// A title is picked just when one with text in it belongs to the searched
/// person or to nobody. It is the text and the probability of one of these, and
/// of the searched person's where there is any.
pub proof fn the_picked_title_is_one_of_the_spans(
    candidates: Seq<CandidateView>,
    attributions: Seq<Option<Attribution>>,
)
    requires
        candidates.len() == attributions.len(),
    ensures
        ({
            let picked = picked_title(candidates, attributions);
            let own = any_belongs_to(candidates, attributions, Attribution::SearchedPerson);
            let unowned = any_belongs_to(candidates, attributions, Attribution::Nobody);
            &&& picked is Some <==> own || unowned
            &&& own ==> exists|k: int| #[trigger]
                belongs_to(candidates, attributions, k, Attribution::SearchedPerson) && picked
                    == Some(title_from(candidates[k]))
            &&& !own && unowned ==> exists|k: int| #[trigger]
                belongs_to(candidates, attributions, k, Attribution::Nobody) && picked == Some(
                    title_from(candidates[k]),
                )
        }),
{
    let count = candidates.len() as int;
    lemma_any(candidates, attributions);
    lemma_best(candidates, attributions, 0, count);
    lemma_best(candidates, attributions, 1, count);
    match picked_index(candidates, attributions) {
        Some(index) => {
            if best_of_tier(candidates, attributions, 0, count) is Some {
                assert(belongs_to(candidates, attributions, index, Attribution::SearchedPerson));
            } else {
                assert(belongs_to(candidates, attributions, index, Attribution::Nobody));
            }
        },
        None => {},
    }
}

/// Where every probability is a number, no title that belongs as the picked one
/// does is more probable.
pub proof fn no_title_of_the_same_kind_is_surer(
    candidates: Seq<CandidateView>,
    attributions: Seq<Option<Attribution>>,
    other: int,
)
    requires
        candidates.len() == attributions.len(),
        forall|k: int| 0 <= k < candidates.len() ==> !(#[trigger] candidates[k]).probability.nan(),
    ensures
        belongs_to(candidates, attributions, other, Attribution::SearchedPerson) ==> picked_title(
            candidates,
            attributions,
        ) is Some && !candidates[other].probability.gt(
            picked_title(candidates, attributions)->0.probability,
        ),
        belongs_to(candidates, attributions, other, Attribution::Nobody) && !any_belongs_to(
            candidates,
            attributions,
            Attribution::SearchedPerson,
        ) ==> picked_title(candidates, attributions) is Some && !candidates[other].probability.gt(
            picked_title(candidates, attributions)->0.probability,
        ),
{
    let count = candidates.len() as int;
    lemma_any(candidates, attributions);
    lemma_none_is_surer(candidates, attributions, 0, count, other);
    lemma_none_is_surer(candidates, attributions, 1, count, other);
    if belongs_to(candidates, attributions, other, Attribution::SearchedPerson) {
        assert(in_tier(candidates, attributions, 0, other));
        assert(any_belongs_to(candidates, attributions, Attribution::SearchedPerson));
    }
    if belongs_to(candidates, attributions, other, Attribution::Nobody) {
        assert(in_tier(candidates, attributions, 1, other));
        assert(any_belongs_to(candidates, attributions, Attribution::Nobody));
    }
}

proof fn lemma_none_is_surer(
    candidates: Seq<CandidateView>,
    attributions: Seq<Option<Attribution>>,
    tier: int,
    count: int,
    other: int,
)
    requires
        count <= candidates.len(),
        forall|k: int| 0 <= k < candidates.len() ==> !(#[trigger] candidates[k]).probability.nan(),
    ensures
        best_of_tier(candidates, attributions, tier, count) matches Some(best) ==> 0 <= best < count
            && (0 <= other < count && in_tier(candidates, attributions, tier, other)
            ==> !candidates[other].probability.gt(candidates[best].probability)),
        best_of_tier(candidates, attributions, tier, count) is None && 0 <= other < count
            ==> !in_tier(candidates, attributions, tier, other),
    decreases count,
{
    if count > 0 {
        lemma_none_is_surer(candidates, attributions, tier, count - 1, other);
        assert(!candidates[count - 1].probability.nan());
    }
}

/// A span is a title under the label of titles, a person under the label of
/// people, and under any other label it is dropped; the label is the one it is
/// saved under.
pub proof fn labels_and_kinds_go_together(class: Seq<char>, kind: SpanKind)
    ensures
        kind_of(class) == Some(SpanKind::Title) <==> class == "job title"@,
        kind_of(class) == Some(SpanKind::Person) <==> class == "person"@,
        kind_of(class) is None <==> class != "job title"@ && class != "person"@,
        label_of(kind) == if kind == SpanKind::Title {
            "job title"@
        } else {
            "person"@
        },
{
    reveal_strlit("job title");
    reveal_strlit("person");
    assert("job title"@.len() == 9);
    assert("person"@.len() == 6);
}

/// Whether a candidate says all that a reported span says.
pub open spec fn says_the_same(candidate: CandidateView, span: FoundSpanView) -> bool {
    &&& candidate.sequence == span.sequence
    &&& candidate.start == span.start
    &&& candidate.end == span.end
    &&& candidate.text == span.text
    &&& candidate.probability == span.probability
    &&& span.class == if candidate.kind == SpanKind::Title {
        "job title"@
    } else {
        "person"@
    }
}

/// Whether a reported span is a title or a person.
pub open spec fn title_or_person(span: FoundSpanView) -> bool {
    span.class == "job title"@ || span.class == "person"@
}

/// Every title and every person that a model reports is a candidate, in order
/// and as it is reported; and no other span is.
pub proof fn every_title_and_person_is_a_candidate(spans: Seq<FoundSpanView>)
    ensures
        ({
            let wanted = spans.filter(|span: FoundSpanView| title_or_person(span));
            &&& candidates_of(spans).len() == wanted.len()
            &&& forall|k: int|
                0 <= k < wanted.len() ==> says_the_same(
                    #[trigger] candidates_of(spans)[k],
                    wanted[k],
                )
        }),
    decreases spans.len(),
{
    reveal(Seq::filter);
    let keep = |span: FoundSpanView| title_or_person(span);
    if spans.len() > 0 {
        let less = spans.drop_last();
        every_title_and_person_is_a_candidate(less);
        labels_and_kinds_go_together(spans.last().class, SpanKind::Title);
        let before = less.filter(keep);
        let wanted = spans.filter(keep);
        let out = candidates_of(spans);
        assert forall|k: int| 0 <= k < wanted.len() implies says_the_same(
            #[trigger] out[k],
            wanted[k],
        ) by {
            if k < before.len() {
                assert(out[k] == candidates_of(less)[k]);
                assert(wanted[k] == before[k]);
            }
        }
    }
}

/// What an extraction finds is every candidate, in order and as it is, with
/// whose title it is; and the title picked among them.
pub proof fn every_candidate_is_saved(
    spans: Seq<FoundSpanView>,
    inputs: Seq<Seq<char>>,
    name: Seq<char>,
    at: int,
)
    ensures
        ({
            let candidates = candidates_of(spans);
            let output = output_of(spans, inputs, name);
            let attributions = Seq::new(
                candidates.len(),
                |i: int| span_attribution(candidates, inputs, name, i),
            );
            &&& output.spans.len() == candidates.len()
            &&& 0 <= at < candidates.len() ==> {
                &&& output.spans[at].input == candidates[at].sequence
                &&& output.spans[at].start == candidates[at].start
                &&& output.spans[at].end == candidates[at].end
                &&& output.spans[at].text == candidates[at].text
                &&& output.spans[at].label == label_of(candidates[at].kind)
                &&& output.spans[at].probability == candidates[at].probability
                &&& output.spans[at].attribution == span_attribution(candidates, inputs, name, at)
            }
            &&& output.chosen == picked_title(candidates, attributions)
        }),
{
    let candidates = candidates_of(spans);
    assert(all_attributions(candidates, inputs, name) =~= Seq::new(
        candidates.len(),
        |i: int| span_attribution(candidates, inputs, name, i),
    ));
}

/// An extraction without inputs finds nothing and does not fail; one with inputs
/// gives what the model reports, or says why there is nothing.
pub proof fn extractions_end_as_the_model_does(
    request: GlinerRequestView,
    reply: ModelReplyView,
)
    ensures
        request.inputs.len() == 0 ==> {
            &&& extraction_result(request, reply) matches Ok(output)
            &&& output.spans.len() == 0
            &&& output.chosen is None
        },
        request.inputs.len() > 0 ==> match reply {
            ModelReplyView::Spans(spans) => extraction_result(request, reply) == Ok::<
                OutputView,
                Seq<char>,
            >(output_of(spans, request.inputs, request.searched_name)),
            ModelReplyView::Failed { error } => extraction_result(request, reply) == Err::<
                OutputView,
                Seq<char>,
            >(error),
            ModelReplyView::Panicked { error } => extraction_result(request, reply) == Err::<
                OutputView,
                Seq<char>,
            >("inference task panicked: "@ + error),
        },
{
}

/// An extraction is asked for the titles and the people in the texts of all the
/// hits, from one half of probability on, for the whole name.
pub proof fn extractions_read_all_the_hits(
    model: Seq<char>,
    hits: Seq<HitView>,
    name: Seq<char>,
    id: u128,
    started_at: Timestamp,
)
    ensures
        ({
            let request = gliner_request(model, hits, name, id, started_at);
            &&& request.id == id
            &&& request.model == model
            &&& request.labels == seq!["job title"@, "person"@]
            &&& request.threshold.bits == 0x3f00_0000
            &&& request.searched_name == name
            &&& request.inputs == sequences_of(hits)
            &&& request.inputs.len() == hits.filter(
                |hit: HitView| hit.title.len() > 0 || hit.snippet.len() > 0,
            ).len()
            &&& request.started_at == started_at
        }),
{
    each_hit_with_text_is_one_input(hits);
    assert((|hit: HitView| has_title_or_snippet(hit)) =~= (|hit: HitView|
        hit.title.len() > 0 || hit.snippet.len() > 0));
}

/// A failed extraction in words ends with the whole of its message, and a
/// missing file is named first.
pub proof fn extraction_errors_say_what_failed(message: Seq<char>)
    ensures
        extract_error_text(message) == "GLiNER extraction failed: "@ + message,
        missing_file_text(message) == message
            + " not found \u{2014} run ./scripts/download-gliner.sh"@,
{
}

} // verus!
