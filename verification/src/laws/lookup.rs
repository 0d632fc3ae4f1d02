//! How a lookup is answered, whatever the services outside say.
use vstd::prelude::*;

use crate::handlers::after_check;
use crate::handlers::after_extraction;
use crate::handlers::after_search;
use crate::handlers::begins;
use crate::handlers::confident;
use crate::handlers::directory_lookup;
use crate::handlers::has_blank;
use crate::handlers::in_directory;
use crate::handlers::keeping;
use crate::handlers::record_for;
use crate::handlers::search_lookup;
use crate::handlers::StepView;
use crate::laws::names::key_ignores_ascii_case;
use crate::laws::names::key_ignores_space_around;
use crate::laws::names::key_tells_people_apart;
use crate::laws::names::lower_case_ignores_ascii_case;
use crate::laws::names::trimming_keeps_the_words;
use crate::models::HitView;
use crate::models::LookupView;
use crate::models::NewTitle;
use crate::models::SerpRequestView;
use crate::models::Source;
use crate::models::Timestamp;
use crate::models::TitleQuery;
use crate::models::TitleSource;
use crate::models::VerificationView;
use crate::ner::ExtractionAttemptView;
use crate::ner::MIN_VERIFICATION_SCORE;
use crate::score::Score;
use crate::search::query_for;
use crate::search::SearchAttemptView;
use crate::store::empty_store;
use crate::store::is_title_of;
use crate::store::key_of;
use crate::store::norm;
use crate::store::seeded_store;
use crate::store::serp_log;
use crate::store::StoreView;
use crate::store::StoredSearchView;
use crate::text::lowercase;
use crate::text::same_ignoring_ascii_case;
use crate::text::trimmed;
use crate::verify::answers;
use crate::verify::check_result;
use crate::verify::possible_score;
use crate::verify::JevAttemptView;
use crate::verify::JevErrorView;
use crate::verify::JevResponseView;

verus! {

/// Whether a lookup names a person and a company.
pub open spec fn names_somebody(query: TitleQuery) -> bool {
    trimmed(query.name@).len() > 0 && trimmed(query.company@).len() > 0
}

/// Whether a lookup is for a person whose title is curated.
pub open spec fn curated(store: StoreView, query: TitleQuery) -> bool {
    in_directory(store, trimmed(query.name@), trimmed(query.company@))
}

/// Whether a search is stored for the person that a lookup is for.
pub open spec fn searched_before(store: StoreView, query: TitleQuery) -> bool {
    store.searches.contains_key(key_of(query.name@, query.company@))
}

/// A lookup tries three sources in order: a curated title answers it whatever
/// else there is; else a stored search does, unless a new one is asked for;
/// else the question is searched for. The answer says which source it is from,
/// and no source but the last sends anything.
pub proof fn sources_are_tried_in_order(
    store: StoreView,
    query: TitleQuery,
    at: Timestamp,
    step: StepView,
)
    requires
        begins(store, query, at, step),
        names_somebody(query),
    ensures
        curated(store, query) ==> {
            &&& step matches StepView::Done(Ok(answer))
            &&& answer.source == Source::Directory
            &&& answer.title_source == TitleSource::Directory
            &&& answer.title is Some
            &&& answer.verification is None
            &&& answer.hits.len() == 0
        },
        !curated(store, query) && !query.refresh && searched_before(store, query) ==> {
            &&& step matches StepView::Done(Ok(answer))
            &&& answer.source == Source::SerpApiCached
        },
        !curated(store, query) && (query.refresh || !searched_before(store, query)) ==> {
            &&& step matches StepView::Search { query: question, .. }
            &&& question == query_for(trimmed(query.name@), trimmed(query.company@))
        },
{
    key_ignores_space_around(query.name@, query.company@);
}

/// A lookup without a name or a company is refused as a bad request, and
/// nothing is sent.
pub proof fn blank_lookups_are_refused(
    store: StoreView,
    query: TitleQuery,
    at: Timestamp,
    step: StepView,
)
    requires
        begins(store, query, at, step),
        !names_somebody(query),
    ensures
        step matches StepView::Done(Err(error)) && error.status() == 400,
{
}

/// The same question is not paid for twice: once a search is kept, a lookup for
/// the same person at the same company, in any case and with any white space
/// around, is answered from it with the same title, hits and verification,
/// unless a curated title answers it or a new search is asked for.
pub proof fn repeat_lookups_are_served_from_the_store(
    store: StoreView,
    name: Seq<char>,
    company: Seq<char>,
    stored: StoredSearchView,
    query: TitleQuery,
    at: Timestamp,
    step: StepView,
)
    requires
        begins(keeping(store, name, company, stored), query, at, step),
        names_somebody(query),
        !query.refresh,
        !curated(store, query),
        norm(query.name@) == norm(name),
        norm(query.company@) == norm(company),
    ensures
        ({
            let first = search_lookup(name, company, stored, Source::SerpApi);
            &&& step matches StepView::Done(Ok(again))
            &&& again == (LookupView {
                name: trimmed(query.name@),
                company: trimmed(query.company@),
                source: Source::SerpApiCached,
                ..first
            })
        }),
{
    key_ignores_space_around(query.name@, query.company@);
}

/// A lookup that a search has answered is answered from it again, when the next
/// one differs in ASCII case or in white space around the name and the company
/// only: with the same title, hits, verification and time, and nothing is sent.
pub proof fn case_and_space_around_do_not_matter(
    store: StoreView,
    first: TitleQuery,
    stored: StoredSearchView,
    query: TitleQuery,
    at: Timestamp,
    step: StepView,
)
    requires
        names_somebody(first),
        !curated(store, first),
        begins(
            keeping(store, trimmed(first.name@), trimmed(first.company@), stored),
            query,
            at,
            step,
        ),
        !query.refresh,
        same_ignoring_ascii_case(trimmed(query.name@), trimmed(first.name@)),
        same_ignoring_ascii_case(trimmed(query.company@), trimmed(first.company@)),
    ensures
        ({
            let answer = search_lookup(
                trimmed(first.name@),
                trimmed(first.company@),
                stored,
                Source::SerpApi,
            );
            &&& step matches StepView::Done(Ok(again))
            &&& again == (LookupView {
                name: trimmed(query.name@),
                company: trimmed(query.company@),
                source: Source::SerpApiCached,
                ..answer
            })
        }),
{
    let name = trimmed(first.name@);
    let company = trimmed(first.company@);
    let asked_name = trimmed(query.name@);
    let asked_company = trimmed(query.company@);
    key_ignores_ascii_case(asked_name, name, asked_company, company);
    lower_case_ignores_ascii_case(asked_name, name);
    lower_case_ignores_ascii_case(asked_company, company);
    assert(!in_directory(store, asked_name, asked_company)) by {
        if in_directory(store, asked_name, asked_company) {
            let id = choose|id: u128| #[trigger]
                store.records.contains_key(id) && is_title_of(
                    store.records[id],
                    asked_name,
                    asked_company,
                );
            assert(is_title_of(store.records[id], name, company));
        }
    }
    key_tells_people_apart(asked_name, name, asked_company, company);
    trimming_keeps_the_words(query.name@);
    trimming_keeps_the_words(query.company@);
    repeat_lookups_are_served_from_the_store(store, name, company, stored, query, at, step);
}

/// A search that is kept for one person answers a lookup for another only if
/// they are the same but for case and white space.
pub proof fn nobody_gets_somebody_elses_search(
    store: StoreView,
    name: Seq<char>,
    company: Seq<char>,
    stored: StoredSearchView,
    other_name: Seq<char>,
    other_company: Seq<char>,
)
    requires
        !store.searches.contains_key(key_of(other_name, other_company)),
    ensures
        keeping(store, name, company, stored).searches.contains_key(
            key_of(other_name, other_company),
        ) <==> norm(other_name) == norm(name) && norm(other_company) == norm(company),
{
    key_tells_people_apart(name, other_name, company, other_company);
}

/// A stored search stays until one under the same key replaces it.
pub proof fn stored_searches_stay(
    store: StoreView,
    key: Seq<char>,
    name: Seq<char>,
    company: Seq<char>,
    stored: StoredSearchView,
)
    requires
        store.searches.contains_key(key),
        key != key_of(name, company),
    ensures
        keeping(store, name, company, stored).searches.contains_key(key),
        keeping(store, name, company, stored).searches[key] == store.searches[key],
{
}

/// A curated title that was added answers every lookup for that person at that
/// company, in any case and with any white space around.
pub proof fn added_titles_are_found(
    store: StoreView,
    payload: NewTitle,
    id: u128,
    query: TitleQuery,
    at: Timestamp,
    step: StepView,
)
    requires
        !has_blank(payload),
        names_somebody(query),
        lowercase(trimmed(payload.name@)) == lowercase(trimmed(query.name@)),
        lowercase(trimmed(payload.company@)) == lowercase(trimmed(query.company@)),
        begins(
            StoreView { records: store.records.insert(id, record_for(payload, id)), ..store },
            query,
            at,
            step,
        ),
    ensures
        step matches StepView::Done(Ok(answer)) && answer.source == Source::Directory,
        (forall|other: u128| #[trigger]
            store.records.contains_key(other) && other != id ==> !is_title_of(
                store.records[other],
                trimmed(query.name@),
                trimmed(query.company@),
            )) ==> (step matches StepView::Done(Ok(answer)) && answer.title == Some(
            trimmed(payload.title@),
        )),
{
    let after = StoreView { records: store.records.insert(id, record_for(payload, id)), ..store };
    let name = trimmed(query.name@);
    let company = trimmed(query.company@);
    assert(after.records.contains_key(id));
    assert(is_title_of(after.records[id], name, company));
    assert(in_directory(after, name, company));
    let found = choose|other: u128| #[trigger]
        after.records.contains_key(other) && is_title_of(after.records[other], name, company)
            && step == StepView::Done(
            Ok(directory_lookup(after.records[other], at)),
        );
    if found != id {
        assert(store.records.contains_key(found));
    }
}

/// A search that fails is saved, is not kept as an answer, and is answered with
/// 502.
pub proof fn failed_searches_are_saved_but_not_kept(
    store: StoreView,
    name: Seq<char>,
    company: Seq<char>,
    attempt: SearchAttemptView,
    at: Timestamp,
)
    requires
        attempt.result is Err,
    ensures
        ({
            let after = after_search(store, name, company, attempt, at);
            &&& after.0.searches == store.searches
            &&& after.0.records == store.records
            &&& after.0.requests == store.requests.push(serp_log(attempt))
            &&& after.1 matches StepView::Done(Err(error))
            &&& error.status() == 502
            &&& error.message() == attempt.result->Err_0.text()
        }),
{
}

/// Once the search has given hits nothing fails the lookup: whatever the check
/// and the extraction say, it goes on to an answer.
pub proof fn only_the_search_can_fail_a_lookup(
    store: StoreView,
    name: Seq<char>,
    company: Seq<char>,
    search: SearchAttemptView,
    request: SerpRequestView,
    hits: Seq<HitView>,
    check: JevAttemptView,
    verification: VerificationView,
    extraction: ExtractionAttemptView,
    at: Timestamp,
)
    requires
        search.result is Ok,
    ensures
        match after_search(store, name, company, search, at).1 {
            StepView::Done(result) => result is Ok,
            StepView::Check { .. } => true,
            _ => false,
        },
        match after_check(store, name, company, request, hits, check, at).1 {
            StepView::Done(result) => result is Ok,
            StepView::Extract { .. } => true,
            _ => false,
        },
        after_extraction(store, name, company, request, hits, verification, extraction, at).1
            matches StepView::Done(Ok(_)),
{
}

/// Whether a stored search says why it has a title or has none: a title comes
/// from the extractor, with how sure it was, and only from hits that the check
/// was confident of; a search is unverified just when the check was not.
pub open spec fn says_why(stored: StoredSearchView) -> bool {
    &&& stored.title is Some <==> stored.title_source == TitleSource::Gliner
    &&& stored.title_confidence is Some <==> stored.title is Some
    &&& stored.title_source == TitleSource::Unverified <==> !confident(stored.verification)
    &&& stored.title_source != TitleSource::Directory
}

/// Whether every stored search of a store says why.
pub open spec fn all_say_why(store: StoreView) -> bool {
    forall|key: Seq<char>| #[trigger]
        store.searches.contains_key(key) ==> says_why(store.searches[key])
}

/// A fresh store holds no search that does not say why.
pub proof fn fresh_stores_say_why(first: u128, second: u128)
    ensures
        all_say_why(empty_store()),
        all_say_why(seeded_store(first, second)),
{
}

/// Every search that a lookup keeps says why it has a title or has none.
pub proof fn kept_searches_say_why(
    store: StoreView,
    name: Seq<char>,
    company: Seq<char>,
    search: SearchAttemptView,
    request: SerpRequestView,
    hits: Seq<HitView>,
    check: JevAttemptView,
    verification: VerificationView,
    extraction: ExtractionAttemptView,
    at: Timestamp,
)
    requires
        all_say_why(store),
    ensures
        all_say_why(after_search(store, name, company, search, at).0),
        all_say_why(after_check(store, name, company, request, hits, check, at).0),
        after_check(store, name, company, request, hits, check, at).1 matches StepView::Extract {
            verification: next,
            ..
        } ==> confident(next),
        confident(verification) ==> all_say_why(
            after_extraction(store, name, company, request, hits, verification, extraction, at).0,
        ),
{
}

/// What a lookup answers from a search is what it keeps.
pub proof fn answers_are_kept(
    store: StoreView,
    name: Seq<char>,
    company: Seq<char>,
    search: SearchAttemptView,
    request: SerpRequestView,
    hits: Seq<HitView>,
    check: JevAttemptView,
    verification: VerificationView,
    extraction: ExtractionAttemptView,
    at: Timestamp,
)
    ensures
        answer_is_kept(name, company, after_search(store, name, company, search, at)),
        answer_is_kept(name, company, after_check(store, name, company, request, hits, check, at)),
        answer_is_kept(
            name,
            company,
            after_extraction(store, name, company, request, hits, verification, extraction, at),
        ),
{
}

/// Whether the answer that a step ends with, if it does, is the stored one.
pub open spec fn answer_is_kept(
    name: Seq<char>,
    company: Seq<char>,
    after: (StoreView, StepView),
) -> bool {
    after.1 matches StepView::Done(Ok(answer)) ==> {
        &&& after.0.searches.contains_key(key_of(name, company))
        &&& answer == search_lookup(
            name,
            company,
            after.0.searches[key_of(name, company)],
            Source::SerpApi,
        )
    }
}

/// A check that gives a verdict gives a score between zero and one; it answers
/// the question from one half on; and its hits are mined for a title just when
/// the score is above the threshold, which is more than answering takes.
pub proof fn verdicts_are_between_zero_and_one(
    status: u16,
    body: Seq<char>,
    failure: Option<JevErrorView>,
    payload: Result<JevResponseView, Seq<char>>,
    checked_at: Timestamp,
)
    ensures
        check_result(status, body, failure, payload, checked_at) matches Ok(verification) ==> {
            &&& 200 <= status < 300
            &&& verification matches VerificationView::Checked { score, answers_question, .. }
            &&& possible_score(score)
            &&& answers_question == answers(score)
            &&& confident(verification) <==> score.rank() > (Score {
                bits: MIN_VERIFICATION_SCORE,
            }).rank()
            &&& confident(verification) ==> answers_question
        },
{
}

} // verus!
