//! What a lookup answers, field by field, and what it leaves in the store.
use vstd::prelude::*;
use vstd::utf8::is_ascii_chars;

use crate::error::ApiErrorView;
use crate::handlers::after_check;
use crate::handlers::after_extraction;
use crate::handlers::after_search;
use crate::handlers::begins;
use crate::handlers::blank_title;
use crate::handlers::directory_lookup;
use crate::handlers::has_blank;
use crate::handlers::in_directory;
use crate::handlers::record_for;
use crate::handlers::verification_of;
use crate::handlers::StepView;
use crate::laws::attribution::only_empty_hits_go_unchecked;
use crate::laws::names::lower_case_ignores_ascii_case;
use crate::models::HitView;
use crate::models::LookupView;
use crate::models::NewTitle;
use crate::models::RecordView;
use crate::models::SerpRequestView;
use crate::models::Source;
use crate::models::Timestamp;
use crate::models::TitleQuery;
use crate::models::TitleSource;
use crate::models::VerificationView;
use crate::ner::ExtractionAttemptView;
use crate::score::Probability;
use crate::search::SearchAttemptView;
use crate::store::empty_store;
use crate::store::is_title_of;
use crate::store::key_of;
use crate::store::seeded_store;
use crate::store::StoreView;
use crate::store::StoredSearchView;
use crate::text::ascii_lower;
use crate::text::ascii_lowered;
use crate::text::lowercase;
use crate::text::same_ignoring_ascii_case;
use crate::text::trimmed;
use crate::verify::text_of_hits;
use crate::verify::JevAttemptView;

verus! {

/// A title, or why there is none.
pub struct Outcome {
    pub title: Option<Seq<char>>,
    pub confidence: Option<Probability>,
    pub source: TitleSource,
}

/// Whether an answer is made of a request, its hits, their verification and what
/// came of them, at a time.
pub open spec fn answers_with(
    answer: LookupView,
    name: Seq<char>,
    company: Seq<char>,
    request: SerpRequestView,
    hits: Seq<HitView>,
    verification: VerificationView,
    outcome: Outcome,
    at: Timestamp,
) -> bool {
    &&& answer.name == name
    &&& answer.company == company
    &&& answer.title == outcome.title
    &&& answer.title_confidence == outcome.confidence
    &&& answer.title_source == outcome.source
    &&& answer.query == Some(request.query)
    &&& answer.hits == hits
    &&& answer.verification == Some(verification)
    &&& answer.retrieved_at == at
}

/// Whether a stored search is made of the same.
pub open spec fn stores_all(
    stored: StoredSearchView,
    request: SerpRequestView,
    hits: Seq<HitView>,
    verification: VerificationView,
    outcome: Outcome,
    at: Timestamp,
) -> bool {
    &&& stored.request == request
    &&& stored.title == outcome.title
    &&& stored.title_confidence == outcome.confidence
    &&& stored.title_source == outcome.source
    &&& stored.hits == hits
    &&& stored.verification == verification
    &&& stored.retrieved_at == at
}

/// Whether a store holds a search for a person at a company, and else the same
/// searches and curated titles as before.
pub open spec fn keeps_only(
    before: StoreView,
    after: StoreView,
    name: Seq<char>,
    company: Seq<char>,
) -> bool {
    &&& after.searches.contains_key(key_of(name, company))
    &&& forall|key: Seq<char>|
        key != key_of(name, company) ==> after.searches.contains_key(key)
            == #[trigger] before.searches.contains_key(key)
    &&& forall|key: Seq<char>|
        key != key_of(name, company) && #[trigger] before.searches.contains_key(key)
            ==> after.searches[key] == before.searches[key]
    &&& after.records == before.records
    &&& after.request_log == before.request_log
}

/// Whether a lookup ends with an answer, and keeps the same as a stored search.
pub open spec fn ends_with(
    before: StoreView,
    after: (StoreView, StepView),
    name: Seq<char>,
    company: Seq<char>,
    request: SerpRequestView,
    hits: Seq<HitView>,
    verification: VerificationView,
    outcome: Outcome,
    at: Timestamp,
) -> bool {
    &&& after.1 matches StepView::Done(Ok(answer))
    &&& answers_with(answer, name, company, request, hits, verification, outcome, at)
    &&& answer.source == Source::SerpApi
    &&& keeps_only(before, after.0, name, company)
    &&& stores_all(
        after.0.searches[key_of(name, company)],
        request,
        hits,
        verification,
        outcome,
        at,
    )
}

/// When an extraction succeeds with a chosen title, the answer and the stored
/// search have exactly the text of that title as their title, and its
/// probability as their confidence. Without a chosen title, or when it fails,
/// they have no title and say which it was. All else is as it was given.
pub proof fn the_chosen_title_is_the_answer(
    store: StoreView,
    name: Seq<char>,
    company: Seq<char>,
    request: SerpRequestView,
    hits: Seq<HitView>,
    verification: VerificationView,
    attempt: ExtractionAttemptView,
    at: Timestamp,
)
    ensures
        ({
            let after = after_extraction(
                store,
                name,
                company,
                request,
                hits,
                verification,
                attempt,
                at,
            );
            let outcome = match attempt.result {
                Ok(output) => match output.chosen {
                    Some(title) => Outcome {
                        title: Some(title.text),
                        confidence: Some(title.probability),
                        source: TitleSource::Gliner,
                    },
                    None => Outcome { title: None, confidence: None, source: TitleSource::NotFound },
                },
                Err(_) => Outcome {
                    title: None,
                    confidence: None,
                    source: TitleSource::ExtractionFailed,
                },
            };
            ends_with(store, after, name, company, request, hits, verification, outcome, at)
        }),
{
}

/// The verification that is kept of a check: its verdict as it is, or else that
/// it failed and the error in words.
pub proof fn checks_are_kept_as_they_end(attempt: JevAttemptView)
    ensures
        attempt.result matches Ok(verdict) ==> verification_of(attempt.result) == verdict,
        attempt.result matches Err(error) ==> verification_of(attempt.result)
            == (VerificationView::Failed { message: error.text() }),
{
}

/// Whether a verification is a verdict with a score above 0.70, by its bits, or
/// with one that is no number.
pub open spec fn above_the_threshold(verification: VerificationView) -> bool {
    verification matches VerificationView::Checked { score, .. } && (0x3fe6_6666_6666_6666
        < score.bits < 0x8000_0000_0000_0000 || score.bits > 0xfff0_0000_0000_0000)
}

/// Hits with a score above the threshold go on to be mined for a title, as they
/// are and with nothing kept yet; all others end the lookup unverified, without a
/// title and with what the check said.
pub proof fn only_confident_checks_are_mined(
    store: StoreView,
    name: Seq<char>,
    company: Seq<char>,
    request: SerpRequestView,
    hits: Seq<HitView>,
    attempt: JevAttemptView,
    at: Timestamp,
)
    ensures
        ({
            let after = after_check(store, name, company, request, hits, attempt, at);
            let said = match attempt.result {
                Ok(verdict) => verdict,
                Err(error) => VerificationView::Failed { message: error.text() },
            };
            let unverified = Outcome {
                title: None,
                confidence: None,
                source: TitleSource::Unverified,
            };
            &&& above_the_threshold(said) ==> {
                &&& after.1 == (StepView::Extract {
                    name,
                    company,
                    request,
                    hits,
                    verification: said,
                })
                &&& after.0.searches == store.searches
                &&& after.0.records == store.records
                &&& after.0.request_log == store.request_log
            }
            &&& !above_the_threshold(said) ==> ends_with(
                store,
                after,
                name,
                company,
                request,
                hits,
                said,
                unverified,
                at,
            )
        }),
{
}

/// Whether a hit is empty.
pub open spec fn empty_hit(hit: HitView) -> bool {
    hit.title.len() == 0 && hit.link.len() == 0 && hit.snippet.len() == 0
}

/// Hits with any text are to be checked, as they are and with nothing kept yet;
/// hits without any end the lookup unverified, with the check skipped.
pub proof fn hits_with_text_are_checked(
    store: StoreView,
    name: Seq<char>,
    company: Seq<char>,
    attempt: SearchAttemptView,
    at: Timestamp,
)
    requires
        attempt.result is Ok,
    ensures
        ({
            let after = after_search(store, name, company, attempt, at);
            let hits = attempt.result->Ok_0;
            let none = forall|i: int| 0 <= i < hits.len() ==> empty_hit(#[trigger] hits[i]);
            let unverified = Outcome {
                title: None,
                confidence: None,
                source: TitleSource::Unverified,
            };
            let skipped = VerificationView::Skipped {
                reason: "search returned no text to check"@,
            };
            &&& !none ==> {
                &&& after.1 == (StepView::Check {
                    name,
                    company,
                    request: attempt.request,
                    hits,
                    text: text_of_hits(hits),
                })
                &&& after.0.searches == store.searches
                &&& after.0.records == store.records
                &&& after.0.request_log == store.request_log
            }
            &&& none ==> ends_with(
                store,
                after,
                name,
                company,
                attempt.request,
                hits,
                skipped,
                unverified,
                at,
            )
        }),
{
    let hits = attempt.result->Ok_0;
    only_empty_hits_go_unchecked(hits);
    if forall|i: int| 0 <= i < hits.len() ==> empty_hit(#[trigger] hits[i]) {
        assert forall|i: int| 0 <= i < hits.len() implies (#[trigger] hits[i]).title.len() == 0
            && hits[i].link.len() == 0 && hits[i].snippet.len() == 0 by {
            assert(empty_hit(hits[i]));
        }
    }
    if text_of_hits(hits).len() == 0 {
        assert forall|i: int| 0 <= i < hits.len() implies empty_hit(#[trigger] hits[i]) by {
            assert(hits[i].title.len() == 0);
        }
    }
}

/// A search that fails ends the lookup with the error in words, and changes
/// neither the searches nor the curated titles.
pub proof fn failed_searches_are_answered_in_words(
    store: StoreView,
    name: Seq<char>,
    company: Seq<char>,
    attempt: SearchAttemptView,
    at: Timestamp,
)
    requires
        attempt.result is Err,
    ensures
        ({
            let after = after_search(store, name, company, attempt, at);
            &&& after.1 == StepView::Done(
                Err(ApiErrorView::Upstream(attempt.result->Err_0.text())),
            )
            &&& after.0.searches == store.searches
            &&& after.0.records == store.records
            &&& after.0.request_log == store.request_log
        }),
{
}

proof fn lemma_same_lower_case(a: Seq<char>, b: Seq<char>)
    requires
        is_ascii_chars(a),
        is_ascii_chars(b),
    ensures
        lowercase(a) == lowercase(b) <==> same_ignoring_ascii_case(a, b),
{
    if same_ignoring_ascii_case(a, b) {
        lower_case_ignores_ascii_case(a, b);
    }
    if lowercase(a) == lowercase(b) {
        assert(ascii_lowered(a).len() == a.len());
        assert(ascii_lowered(b).len() == b.len());
        assert forall|i: int| 0 <= i < a.len() implies #[trigger] ascii_lower(a[i]) == ascii_lower(
            b[i],
        ) by {
            assert(ascii_lowered(a)[i] == ascii_lower(a[i]));
            assert(ascii_lowered(b)[i] == ascii_lower(b[i]));
        }
    }
}

/// A record is that of a person at a company just when its whole name and its
/// whole company are theirs, apart from case; in ASCII, letter by letter.
pub proof fn records_are_told_apart_by_whole_names(
    record: RecordView,
    name: Seq<char>,
    company: Seq<char>,
)
    ensures
        lowercase(record.name) != lowercase(name) ==> !is_title_of(record, name, company),
        lowercase(record.company) != lowercase(company) ==> !is_title_of(record, name, company),
        lowercase(record.name) == lowercase(name) && lowercase(record.company) == lowercase(company)
            ==> is_title_of(record, name, company),
        is_ascii_chars(record.name) && is_ascii_chars(record.company) && is_ascii_chars(name)
            && is_ascii_chars(company) ==> (is_title_of(record, name, company)
            <==> same_ignoring_ascii_case(record.name, name) && same_ignoring_ascii_case(
            record.company,
            company,
        )),
{
    if is_ascii_chars(record.name) && is_ascii_chars(record.company) && is_ascii_chars(name)
        && is_ascii_chars(company) {
        lemma_same_lower_case(record.name, name);
        lemma_same_lower_case(record.company, company);
    }
}

/// Whether a record has the name and the company of a lookup, apart from case
/// and from white space around them.
pub open spec fn asked_for(record: RecordView, query: TitleQuery) -> bool {
    &&& lowercase(record.name) == lowercase(trimmed(query.name@))
    &&& lowercase(record.company) == lowercase(trimmed(query.company@))
}

/// Whether an answer is that of a record, and says nothing else.
pub open spec fn answers_from_record(answer: LookupView, record: RecordView, at: Timestamp) -> bool {
    &&& answer.name == record.name
    &&& answer.company == record.company
    &&& answer.title == Some(record.title)
    &&& answer.title_source == TitleSource::Directory
    &&& answer.title_confidence is None
    &&& answer.source == Source::Directory
    &&& answer.query is None
    &&& answer.hits.len() == 0
    &&& answer.verification is None
    &&& answer.retrieved_at == at
}

/// A lookup is answered from the directory only by a record whose whole name and
/// whole company are those asked for, apart from case, and with its title; it is
/// so answered just when there is such a record.
pub proof fn only_the_person_asked_for_answers(
    store: StoreView,
    query: TitleQuery,
    at: Timestamp,
    step: StepView,
)
    requires
        begins(store, query, at, step),
        trimmed(query.name@).len() > 0,
        trimmed(query.company@).len() > 0,
    ensures
        ({
            let kept = exists|id: u128| #[trigger]
                store.records.contains_key(id) && asked_for(store.records[id], query);
            &&& kept ==> exists|id: u128| #[trigger]
                store.records.contains_key(id) && asked_for(store.records[id], query) && (step
                    matches StepView::Done(Ok(answer)) && answers_from_record(
                    answer,
                    store.records[id],
                    at,
                ))
            &&& !kept ==> !(step matches StepView::Done(Ok(answer)) && answer.source
                == Source::Directory)
        }),
{
    let name = trimmed(query.name@);
    let company = trimmed(query.company@);
    if exists|id: u128| #[trigger]
        store.records.contains_key(id) && asked_for(store.records[id], query) {
        let id = choose|id: u128| #[trigger]
            store.records.contains_key(id) && asked_for(store.records[id], query);
        assert(is_title_of(store.records[id], name, company));
        assert(in_directory(store, name, company));
        let found = choose|id: u128| #[trigger]
            store.records.contains_key(id) && is_title_of(store.records[id], name, company) && step
                == StepView::Done(
                Ok(directory_lookup(store.records[id], at)),
            );
        assert(asked_for(store.records[found], query));
    } else {
        assert(!in_directory(store, name, company)) by {
            if in_directory(store, name, company) {
                let id = choose|id: u128| #[trigger]
                    store.records.contains_key(id) && is_title_of(
                        store.records[id],
                        name,
                        company,
                    );
                assert(asked_for(store.records[id], query));
            }
        }
    }
}

/// A lookup that no record answers is answered from the search stored for the
/// person at the company, unless a new one is asked for, with all that the search
/// holds; and else the question is searched for.
pub proof fn stored_searches_answer_as_they_are(
    store: StoreView,
    query: TitleQuery,
    at: Timestamp,
    step: StepView,
)
    requires
        begins(store, query, at, step),
        trimmed(query.name@).len() > 0,
        trimmed(query.company@).len() > 0,
        forall|id: u128| #[trigger]
            store.records.contains_key(id) ==> !asked_for(store.records[id], query),
    ensures
        ({
            let name = trimmed(query.name@);
            let company = trimmed(query.company@);
            let key = key_of(name, company);
            let stored = store.searches[key];
            let outcome = Outcome {
                title: stored.title,
                confidence: stored.title_confidence,
                source: stored.title_source,
            };
            &&& !query.refresh && store.searches.contains_key(key) ==> (step matches StepView::Done(
                Ok(answer),
            ) && answer.source == Source::SerpApiCached && answers_with(
                answer,
                name,
                company,
                stored.request,
                stored.hits,
                stored.verification,
                outcome,
                stored.retrieved_at,
            ))
            &&& query.refresh || !store.searches.contains_key(key) ==> step == (StepView::Search {
                name,
                company,
                query: "What is the job title for "@ + name + " at "@ + company + "?"@,
            })
        }),
{
    let name = trimmed(query.name@);
    let company = trimmed(query.company@);
    assert(!in_directory(store, name, company)) by {
        if in_directory(store, name, company) {
            let id = choose|id: u128| #[trigger]
                store.records.contains_key(id) && is_title_of(store.records[id], name, company);
            assert(asked_for(store.records[id], query));
        }
    }
}

/// A lookup with nothing but white space for its name or its company is refused,
/// whatever the store holds, and says what it lacks.
pub proof fn blank_lookups_say_what_is_missing(
    store: StoreView,
    query: TitleQuery,
    at: Timestamp,
    step: StepView,
)
    requires
        begins(store, query, at, step),
    ensures
        trimmed(query.name@).len() == 0 || trimmed(query.company@).len() == 0 ==> step
            == StepView::Done(
            Err(ApiErrorView::BadRequest("`name` and `company` must not be empty"@)),
        ),
        trimmed(query.name@).len() > 0 && trimmed(query.company@).len() > 0 ==> !(step
            matches StepView::Done(Err(_))),
{
}

/// A curated title is refused just when its name, its company or its title is
/// nothing but white space, and told so; else its record holds the three of them, without the
/// white space around, under the identifier given.
pub proof fn records_hold_what_was_added(payload: NewTitle, id: u128)
    ensures
        has_blank(payload) <==> trimmed(payload.name@).len() == 0 || trimmed(payload.company@).len()
            == 0 || trimmed(payload.title@).len() == 0,
        blank_title() == ApiErrorView::BadRequest(
            "`name`, `company` and `title` must not be empty"@,
        ),
        record_for(payload, id).id == id,
        record_for(payload, id).name == trimmed(payload.name@),
        record_for(payload, id).company == trimmed(payload.company@),
        record_for(payload, id).title == trimmed(payload.title@),
{
}

/// Each kind of error has its own status and name, and says the whole of its
/// message.
pub proof fn errors_say_their_message(message: Seq<char>)
    ensures
        ApiErrorView::NotFound(message).status() == 404,
        ApiErrorView::BadRequest(message).status() == 400,
        ApiErrorView::Upstream(message).status() == 502,
        ApiErrorView::NotFound(message).code() == "not_found"@,
        ApiErrorView::BadRequest(message).code() == "bad_request"@,
        ApiErrorView::Upstream(message).code() == "upstream_error"@,
        ApiErrorView::NotFound(message).message() == message,
        ApiErrorView::BadRequest(message).message() == message,
        ApiErrorView::Upstream(message).message() == message,
{
}

/// A fresh service knows two titles, each under its own identifier, and nothing
/// else; an empty store knows nothing.
pub proof fn fresh_services_know_two_titles(first: u128, second: u128, id: u128)
    requires
        first != second,
    ensures
        ({
            let store = seeded_store(first, second);
            &&& store.records.contains_key(id) <==> id == first || id == second
            &&& store.records[first].id == first
            &&& store.records[first].name == "Ada Lovelace"@
            &&& store.records[first].company == "Analytical Engine Co"@
            &&& store.records[first].title == "Lead Programmer"@
            &&& store.records[second].id == second
            &&& store.records[second].name == "Grace Hopper"@
            &&& store.records[second].company == "UNIVAC"@
            &&& store.records[second].title == "Senior Systems Engineer"@
            &&& store.searches == Map::<Seq<char>, StoredSearchView>::empty()
            &&& store.requests.len() == 0
            &&& store.request_log is None
        }),
        empty_store().records == Map::<u128, RecordView>::empty(),
        empty_store().searches == Map::<Seq<char>, StoredSearchView>::empty(),
        empty_store().requests.len() == 0,
        empty_store().request_log is None,
{
}

} // verus!
