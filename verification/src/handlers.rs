//! The endpoints. A lookup goes from stage to stage: each stage says what is to
//! be done outside, and takes back how that went.
use vstd::prelude::*;
use vstd::string::StringExecFns;

use crate::error::ApiError;
use crate::error::ApiErrorView;
use crate::ids::clock_time;
use crate::ids::id_read;
use crate::ids::id_written;
use crate::ids::new_id;
use crate::ids::now;
use crate::ids::random_id;
use crate::ids::read_id;
use crate::ids::write_id;
use crate::models::result_view;
use crate::models::Health;
use crate::models::HitView;
use crate::models::LookupView;
use crate::models::NewTitle;
use crate::models::RecordView;
use crate::models::RequestListQuery;
use crate::models::SearchHit;
use crate::models::SerpLogView;
use crate::models::SerpRequest;
use crate::models::SerpRequestLog;
use crate::models::SerpRequestView;
use crate::models::Source;
use crate::models::Timestamp;
use crate::models::TitleLookup;
use crate::models::TitleQuery;
use crate::models::TitleRecord;
use crate::models::TitleSource;
use crate::models::Verification;
use crate::models::VerificationView;
use crate::ner::ExtractError;
use crate::ner::ExtractionAttempt;
use crate::ner::ExtractionAttemptView;
use crate::ner::ExtractionOutput;
use crate::ner::OutputView;
use crate::ner::MIN_VERIFICATION_SCORE;
use crate::score::Score;
use crate::search::build_query;
use crate::search::query_for;
use crate::search::SearchAttempt;
use crate::search::SearchAttemptView;
use crate::store::gliner_log;
use crate::store::is_title_of;
use crate::store::jev_log;
use crate::store::key_of;
use crate::store::newest_first;
use crate::store::serp_log;
use crate::store::stored_as;
use crate::store::with_line_if_any;
use crate::store::ChosenTitle;
use crate::store::ChosenTitleView;
use crate::store::LogLine;
use crate::store::LogLineView;
use crate::store::Store;
use crate::store::StoreView;
use crate::store::StoredSearch;
use crate::store::StoredSearchView;
use crate::text::trim;
use crate::text::trimmed;
use crate::verify::hits_to_text;
use crate::verify::text_of_hits;
use crate::verify::JevAttempt;
use crate::verify::JevAttemptView;
use crate::verify::VerifyError;
use crate::verify::VerifyErrorView;

verus! {

/// A lookup that waits for a search.
#[derive(Debug)]
pub struct PendingSearch {
    pub name: String,
    pub company: String,
    /// The question to search for.
    pub query: String,
}

/// A lookup that waits for a check.
#[derive(Debug)]
pub struct PendingCheck {
    pub name: String,
    pub company: String,
    pub request: SerpRequest,
    pub hits: Vec<SearchHit>,
    /// The text to check.
    pub text: String,
}

/// A lookup that waits for an extraction from its hits.
#[derive(Debug)]
pub struct PendingExtraction {
    pub name: String,
    pub company: String,
    pub request: SerpRequest,
    pub hits: Vec<SearchHit>,
    pub verification: Verification,
}

/// What a lookup needs next, or how it ended.
#[derive(Debug)]
pub enum LookupStep {
    Done(Result<TitleLookup, ApiError>),
    Search(PendingSearch),
    Check(PendingCheck),
    Extract(PendingExtraction),
}

/// What a `LookupStep` says.
pub enum StepView {
    Done(Result<LookupView, ApiErrorView>),
    Search { name: Seq<char>, company: Seq<char>, query: Seq<char> },
    Check {
        name: Seq<char>,
        company: Seq<char>,
        request: SerpRequestView,
        hits: Seq<HitView>,
        text: Seq<char>,
    },
    Extract {
        name: Seq<char>,
        company: Seq<char>,
        request: SerpRequestView,
        hits: Seq<HitView>,
        verification: VerificationView,
    },
}

impl DeepView for LookupStep {
    type V = StepView;

    open spec fn deep_view(&self) -> StepView {
        match self {
            LookupStep::Done(result) => StepView::Done(result_view(*result)),
            LookupStep::Search(pending) => StepView::Search {
                name: pending.name@,
                company: pending.company@,
                query: pending.query@,
            },
            LookupStep::Check(pending) => StepView::Check {
                name: pending.name@,
                company: pending.company@,
                request: pending.request.deep_view(),
                hits: pending.hits.deep_view(),
                text: pending.text@,
            },
            LookupStep::Extract(pending) => StepView::Extract {
                name: pending.name@,
                company: pending.company@,
                request: pending.request.deep_view(),
                hits: pending.hits.deep_view(),
                verification: pending.verification.deep_view(),
            },
        }
    }
}

/// The refusal of a lookup without a name or a company.
pub open spec fn blank_lookup() -> ApiErrorView {
    ApiErrorView::BadRequest("`name` and `company` must not be empty"@)
}

/// The refusal of a curated title with a blank field.
pub open spec fn blank_title() -> ApiErrorView {
    ApiErrorView::BadRequest("`name`, `company` and `title` must not be empty"@)
}

/// Whether a curated title is kept for a person at a company.
pub open spec fn in_directory(store: StoreView, name: Seq<char>, company: Seq<char>) -> bool {
    exists|id: u128| #[trigger]
        store.records.contains_key(id) && is_title_of(store.records[id], name, company)
}

/// The answer that a curated title gives.
pub open spec fn directory_lookup(record: RecordView, at: Timestamp) -> LookupView {
    LookupView {
        name: record.name,
        company: record.company,
        title: Some(record.title),
        title_source: TitleSource::Directory,
        title_confidence: None,
        source: Source::Directory,
        query: None,
        hits: Seq::empty(),
        verification: None,
        retrieved_at: at,
    }
}

/// The answer that a stored search gives.
pub open spec fn search_lookup(
    name: Seq<char>,
    company: Seq<char>,
    stored: StoredSearchView,
    source: Source,
) -> LookupView {
    LookupView {
        name,
        company,
        title: stored.title,
        title_source: stored.title_source,
        title_confidence: stored.title_confidence,
        source,
        query: Some(stored.request.query),
        hits: stored.hits,
        verification: Some(stored.verification),
        retrieved_at: stored.retrieved_at,
    }
}

/// How a lookup begins: a blank one is refused; a curated title answers it;
/// else a stored search does, unless a new one is asked for; else a search is
/// to be made.
pub open spec fn begins(
    store: StoreView,
    query: TitleQuery,
    at: Timestamp,
    step: StepView,
) -> bool {
    let name = trimmed(query.name@);
    let company = trimmed(query.company@);
    let key = key_of(name, company);
    if name.len() == 0 || company.len() == 0 {
        step == StepView::Done(Err(blank_lookup()))
    } else if in_directory(store, name, company) {
        exists|id: u128| #[trigger]
            store.records.contains_key(id) && is_title_of(store.records[id], name, company) && step
                == StepView::Done(Ok(directory_lookup(store.records[id], at)))
    } else if !query.refresh && store.searches.contains_key(key) {
        step == StepView::Done(
            Ok(search_lookup(name, company, store.searches[key], Source::SerpApiCached)),
        )
    } else {
        step == (StepView::Search { name, company, query: query_for(name, company) })
    }
}

/// The verification of hits without any text.
pub open spec fn skipped() -> VerificationView {
    VerificationView::Skipped { reason: "search returned no text to check"@ }
}

/// The verification that a check gives.
pub open spec fn verification_of(
    result: Result<VerificationView, VerifyErrorView>,
) -> VerificationView {
    match result {
        Ok(verification) => verification,
        Err(error) => VerificationView::Failed { message: error.text() },
    }
}

/// Whether a verification lets the hits be mined for a title: there is a score,
/// and it is not at or below the threshold.
pub open spec fn confident(verification: VerificationView) -> bool {
    match verification {
        VerificationView::Checked { score, .. } => !score.le(
            Score { bits: MIN_VERIFICATION_SCORE },
        ),
        _ => false,
    }
}

/// No title, and why.
pub open spec fn no_title(source: TitleSource) -> ChosenTitleView {
    ChosenTitleView { text: None, source, confidence: None }
}

/// The title that an extraction gives.
pub open spec fn title_of(result: Result<OutputView, Seq<char>>) -> ChosenTitleView {
    match result {
        Ok(output) => match output.chosen {
            Some(title) => ChosenTitleView {
                text: Some(title.text),
                source: TitleSource::Gliner,
                confidence: Some(title.probability),
            },
            None => no_title(TitleSource::NotFound),
        },
        Err(_) => no_title(TitleSource::ExtractionFailed),
    }
}

/// The store once a search is kept for a person at a company.
pub open spec fn keeping(
    store: StoreView,
    name: Seq<char>,
    company: Seq<char>,
    stored: StoredSearchView,
) -> StoreView {
    StoreView { searches: store.searches.insert(key_of(name, company), stored), ..store }
}

/// The store once a line is added to its requests.
pub open spec fn logging(store: StoreView, line: LogLineView) -> StoreView {
    StoreView { requests: with_line_if_any(store.requests, line), ..store }
}

/// The line to write for an entry, when there is a log file.
pub open spec fn written_line(store: StoreView, line: LogLineView) -> Option<LogLineView> {
    if store.request_log is Some {
        Some(line)
    } else {
        None
    }
}

/// The store and the end of a lookup whose answer is kept.
pub open spec fn concluded(
    store: StoreView,
    name: Seq<char>,
    company: Seq<char>,
    stored: StoredSearchView,
) -> (StoreView, StepView) {
    (
        keeping(store, name, company, stored),
        StepView::Done(Ok(search_lookup(name, company, stored, Source::SerpApi))),
    )
}

/// The entry that a search adds to the log.
pub open spec fn search_line(attempt: SearchAttemptView) -> LogLineView {
    LogLineView::Serp(serp_log(attempt))
}

/// The store and the next step once a search is made: the request is saved
/// either way; a failure ends the lookup and is not kept as an answer; hits
/// with text are to be checked, and hits without give an unverified answer.
pub open spec fn after_search(
    store: StoreView,
    name: Seq<char>,
    company: Seq<char>,
    attempt: SearchAttemptView,
    at: Timestamp,
) -> (StoreView, StepView) {
    let logged = logging(store, search_line(attempt));
    match attempt.result {
        Err(error) => (logged, StepView::Done(Err(ApiErrorView::Upstream(error.text())))),
        Ok(hits) => {
            let text = text_of_hits(hits);
            if text.len() == 0 {
                let title = no_title(TitleSource::Unverified);
                let stored = stored_as(attempt.request, title, hits, skipped(), at);
                concluded(logged, name, company, stored)
            } else {
                (logged, StepView::Check { name, company, request: attempt.request, hits, text })
            }
        },
    }
}

/// The entry that a check adds to the log.
pub open spec fn check_line(request: SerpRequestView, attempt: JevAttemptView) -> LogLineView {
    LogLineView::Jev(jev_log(request.id, attempt))
}

/// The store and the next step once hits are checked: the check is saved with
/// its search; hits that the check is confident of are to be mined for a title,
/// and others give an unverified answer.
pub open spec fn after_check(
    store: StoreView,
    name: Seq<char>,
    company: Seq<char>,
    request: SerpRequestView,
    hits: Seq<HitView>,
    attempt: JevAttemptView,
    at: Timestamp,
) -> (StoreView, StepView) {
    let logged = logging(store, check_line(request, attempt));
    let verification = verification_of(attempt.result);
    if confident(verification) {
        (logged, StepView::Extract { name, company, request, hits, verification })
    } else {
        let title = no_title(TitleSource::Unverified);
        concluded(logged, name, company, stored_as(request, title, hits, verification, at))
    }
}

/// The entry that an extraction adds to the log.
pub open spec fn extraction_line(
    request: SerpRequestView,
    attempt: ExtractionAttemptView,
) -> LogLineView {
    LogLineView::Gliner(gliner_log(request.id, attempt))
}

/// The store and the end of a lookup once hits are mined for a title: the
/// extraction is saved with its search, and the answer is kept.
pub open spec fn after_extraction(
    store: StoreView,
    name: Seq<char>,
    company: Seq<char>,
    request: SerpRequestView,
    hits: Seq<HitView>,
    verification: VerificationView,
    attempt: ExtractionAttemptView,
    at: Timestamp,
) -> (StoreView, StepView) {
    let logged = logging(store, extraction_line(request, attempt));
    let title = title_of(attempt.result);
    concluded(logged, name, company, stored_as(request, title, hits, verification, at))
}

/// The answer of the liveness check.
pub fn health(version: &'static str) -> (r: Health)
    ensures
        r.status@ == "ok"@,
        r.version@ == version@,
{
    Health { status: "ok", version }
}

/// Begins a lookup at a given time.
pub fn find_title_at(store: &Store, query: &TitleQuery, at: Timestamp) -> (r: LookupStep)
    ensures
        begins(store@, *query, at, r.deep_view()),
{
    let name = trim(query.name.as_str());
    let company = trim(query.company.as_str());
    if name.is_empty() || company.is_empty() {
        return LookupStep::Done(
            Err(ApiError::BadRequest("`name` and `company` must not be empty".to_owned())),
        );
    }
    match store.find(name, company) {
        Some(record) => {
            let ghost said = record.deep_view();
            let hits: Vec<SearchHit> = Vec::new();
            assert(hits.deep_view() =~= Seq::empty());
            let lookup = TitleLookup {
                name: record.name,
                company: record.company,
                title: Some(record.title),
                title_source: TitleSource::Directory,
                title_confidence: None,
                source: Source::Directory,
                query: None,
                hits,
                verification: None,
                retrieved_at: at,
            };
            assert(lookup.deep_view() == directory_lookup(said, at));
            return LookupStep::Done(Ok(lookup));
        },
        None => {},
    }
    if !query.refresh {
        match store.stored_search(name, company) {
            Some(stored) => {
                return LookupStep::Done(
                    Ok(answer_from(name, company, stored, Source::SerpApiCached)),
                );
            },
            None => {},
        }
    }
    LookupStep::Search(
        PendingSearch {
            name: name.to_owned(),
            company: company.to_owned(),
            query: build_query(name, company),
        },
    )
}

/// Begins a lookup now.
pub fn find_title(store: &Store, query: &TitleQuery) -> (r: LookupStep)
    ensures
        exists|at: Timestamp|
            #![trigger clock_time(at)]
            clock_time(at) && begins(store@, *query, at, r.deep_view()),
{
    find_title_at(store, query, now())
}

fn answer_from(name: &str, company: &str, stored: StoredSearch, source: Source) -> (r: TitleLookup)
    ensures
        r.deep_view() == search_lookup(name@, company@, stored.deep_view(), source),
{
    TitleLookup {
        name: name.to_owned(),
        company: company.to_owned(),
        title: stored.title,
        title_source: stored.title_source,
        title_confidence: stored.title_confidence,
        source,
        query: Some(stored.request.query),
        hits: stored.hits,
        verification: Some(stored.verification),
        retrieved_at: stored.retrieved_at,
    }
}

fn conclude(
    store: &mut Store,
    name: String,
    company: String,
    request: SerpRequest,
    title: ChosenTitle,
    hits: Vec<SearchHit>,
    verification: Verification,
    at: Timestamp,
) -> (r: LookupStep)
    ensures
        (final(store)@, r.deep_view()) == concluded(
            old(store)@,
            name@,
            company@,
            stored_as(
                request.deep_view(),
                title.deep_view(),
                hits.deep_view(),
                verification.deep_view(),
                at,
            ),
        ),
{
    let stored = store.save_search_at(
        name.as_str(),
        company.as_str(),
        request,
        title,
        hits,
        verification,
        at,
    );
    LookupStep::Done(Ok(answer_from(name.as_str(), company.as_str(), stored, Source::SerpApi)))
}

/// The text of a search's hits that is to be checked; nothing when there is no
/// text, and so no check.
pub fn text_to_check(hits: &Vec<SearchHit>) -> (r: Option<String>)
    ensures
        match r {
            Some(text) => text@ == text_of_hits(hits.deep_view()) && text@.len() > 0,
            None => text_of_hits(hits.deep_view()).len() == 0,
        },
{
    let listed = hits.as_slice();
    assert(listed.deep_view() =~= hits.deep_view());
    let text = hits_to_text(listed);
    if text.as_str().is_empty() {
        None
    } else {
        Some(text)
    }
}

/// The verification that a check gives: a failed check fails no lookup.
pub fn verify_hits(result: Result<Verification, VerifyError>) -> (r: Verification)
    ensures
        r.deep_view() == verification_of(result_view(result)),
{
    match result {
        Ok(verification) => verification,
        Err(error) => Verification::Failed { message: error.to_string() },
    }
}

/// Whether a verification lets the hits be mined for a title.
pub fn wants_title(verification: &Verification) -> (r: bool)
    ensures
        r == confident(verification.deep_view()),
{
    match verification {
        Verification::Checked { score, .. } => {
            let threshold = Score { bits: MIN_VERIFICATION_SCORE };
            !score.at_most(&threshold)
        },
        _ => false,
    }
}

/// The title that an extraction gives.
pub fn choose_title(result: Result<ExtractionOutput, ExtractError>) -> (r: ChosenTitle)
    ensures
        r.deep_view() == title_of(result_view(result)),
{
    match result {
        Ok(output) => match output.chosen {
            Some(title) => ChosenTitle {
                text: Some(title.text),
                source: TitleSource::Gliner,
                confidence: Some(title.probability),
            },
            None => ChosenTitle { text: None, source: TitleSource::NotFound, confidence: None },
        },
        Err(_) => ChosenTitle {
            text: None,
            source: TitleSource::ExtractionFailed,
            confidence: None,
        },
    }
}

/// Goes on with a lookup once its search is made, at a given time. With the
/// next step comes the line to write to the log file, when there is one.
pub fn search_done_at(
    store: &mut Store,
    pending: PendingSearch,
    attempt: SearchAttempt,
    at: Timestamp,
) -> (r: (LookupStep, Option<LogLine>))
    ensures
        (final(store)@, r.0.deep_view()) == after_search(
            old(store)@,
            pending.name@,
            pending.company@,
            attempt.deep_view(),
            at,
        ),
        r.1.deep_view() == written_line(old(store)@, search_line(attempt.deep_view())),
{
    let recorded = store.record_request(&attempt);
    let hits = match attempt.result {
        Ok(hits) => hits,
        Err(error) => {
            return (LookupStep::Done(Err(ApiError::from(error))), recorded.1);
        },
    };
    match text_to_check(&hits) {
        Some(text) => {
            let step = LookupStep::Check(
                PendingCheck {
                    name: pending.name,
                    company: pending.company,
                    request: attempt.request,
                    hits,
                    text,
                },
            );
            (step, recorded.1)
        },
        None => {
            let title = ChosenTitle {
                text: None,
                source: TitleSource::Unverified,
                confidence: None,
            };
            let verification = Verification::Skipped {
                reason: "search returned no text to check".to_owned(),
            };
            let step = conclude(
                store,
                pending.name,
                pending.company,
                attempt.request,
                title,
                hits,
                verification,
                at,
            );
            (step, recorded.1)
        },
    }
}

/// Goes on with a lookup once its search is made.
pub fn search_done(store: &mut Store, pending: PendingSearch, attempt: SearchAttempt) -> (r: (
    LookupStep,
    Option<LogLine>,
))
    ensures
        exists|at: Timestamp|
            #![trigger clock_time(at)]
            clock_time(at) && (final(store)@, r.0.deep_view()) == after_search(
                old(store)@,
                pending.name@,
                pending.company@,
                attempt.deep_view(),
                at,
            ),
        r.1.deep_view() == written_line(old(store)@, search_line(attempt.deep_view())),
{
    search_done_at(store, pending, attempt, now())
}

/// Goes on with a lookup once its hits are checked, at a given time. With the
/// next step comes the line to write to the log file, when there is one.
pub fn check_done_at(
    store: &mut Store,
    pending: PendingCheck,
    attempt: JevAttempt,
    at: Timestamp,
) -> (r: (LookupStep, Option<LogLine>))
    ensures
        (final(store)@, r.0.deep_view()) == after_check(
            old(store)@,
            pending.name@,
            pending.company@,
            pending.request.deep_view(),
            pending.hits.deep_view(),
            attempt.deep_view(),
            at,
        ),
        r.1.deep_view() == written_line(
            old(store)@,
            check_line(pending.request.deep_view(), attempt.deep_view()),
        ),
{
    let recorded = store.record_jev_request(pending.request.id, &attempt);
    let verification = verify_hits(attempt.result);
    if wants_title(&verification) {
        let step = LookupStep::Extract(
            PendingExtraction {
                name: pending.name,
                company: pending.company,
                request: pending.request,
                hits: pending.hits,
                verification,
            },
        );
        (step, recorded.1)
    } else {
        let title = ChosenTitle { text: None, source: TitleSource::Unverified, confidence: None };
        let step = conclude(
            store,
            pending.name,
            pending.company,
            pending.request,
            title,
            pending.hits,
            verification,
            at,
        );
        (step, recorded.1)
    }
}

/// Goes on with a lookup once its hits are checked.
pub fn check_done(store: &mut Store, pending: PendingCheck, attempt: JevAttempt) -> (r: (
    LookupStep,
    Option<LogLine>,
))
    ensures
        exists|at: Timestamp|
            #![trigger clock_time(at)]
            clock_time(at) && (final(store)@, r.0.deep_view()) == after_check(
                old(store)@,
                pending.name@,
                pending.company@,
                pending.request.deep_view(),
                pending.hits.deep_view(),
                attempt.deep_view(),
                at,
            ),
        r.1.deep_view() == written_line(
            old(store)@,
            check_line(pending.request.deep_view(), attempt.deep_view()),
        ),
{
    check_done_at(store, pending, attempt, now())
}

/// Ends a lookup once its hits are mined for a title, at a given time. With its
/// end comes the line to write to the log file, when there is one.
pub fn extraction_done_at(
    store: &mut Store,
    pending: PendingExtraction,
    attempt: ExtractionAttempt,
    at: Timestamp,
) -> (r: (LookupStep, Option<LogLine>))
    ensures
        (final(store)@, r.0.deep_view()) == after_extraction(
            old(store)@,
            pending.name@,
            pending.company@,
            pending.request.deep_view(),
            pending.hits.deep_view(),
            pending.verification.deep_view(),
            attempt.deep_view(),
            at,
        ),
        r.1.deep_view() == written_line(
            old(store)@,
            extraction_line(pending.request.deep_view(), attempt.deep_view()),
        ),
{
    let recorded = store.record_gliner_request(pending.request.id, &attempt);
    let title = choose_title(attempt.result);
    let step = conclude(
        store,
        pending.name,
        pending.company,
        pending.request,
        title,
        pending.hits,
        pending.verification,
        at,
    );
    (step, recorded.1)
}

/// Ends a lookup once its hits are mined for a title.
pub fn extraction_done(
    store: &mut Store,
    pending: PendingExtraction,
    attempt: ExtractionAttempt,
) -> (r: (LookupStep, Option<LogLine>))
    ensures
        exists|at: Timestamp|
            #![trigger clock_time(at)]
            clock_time(at) && (final(store)@, r.0.deep_view()) == after_extraction(
                old(store)@,
                pending.name@,
                pending.company@,
                pending.request.deep_view(),
                pending.hits.deep_view(),
                pending.verification.deep_view(),
                attempt.deep_view(),
                at,
            ),
        r.1.deep_view() == written_line(
            old(store)@,
            extraction_line(pending.request.deep_view(), attempt.deep_view()),
        ),
{
    extraction_done_at(store, pending, attempt, now())
}

/// Saved requests, newest first.
pub fn list_requests(store: &Store, query: &RequestListQuery) -> (r: Vec<SerpRequestLog>)
    ensures
        r.deep_view() == newest_first(store@.requests, query.limit),
{
    store.requests(query.limit)
}

/// The refusal of a text that is no request identifier.
pub open spec fn bad_id(id: Seq<char>) -> ApiErrorView {
    ApiErrorView::BadRequest("`"@ + id + "` is not a valid request id"@)
}

/// The refusal of an identifier that no saved request has.
pub open spec fn unknown_id(id: u128) -> ApiErrorView {
    ApiErrorView::NotFound("no saved request with id "@ + id_written(id))
}

/// Whether an entry is the oldest that has an identifier.
pub open spec fn oldest_with_id(logs: Seq<SerpLogView>, id: u128, log: SerpLogView) -> bool {
    exists|at: int|
        0 <= at < logs.len() && #[trigger] logs[at] == log && log.request.id == id && (forall|
            k: int,
        |
            0 <= k < at ==> (#[trigger] logs[k]).request.id != id)
}

/// How a request for one saved request is answered.
pub open spec fn request_answer(
    logs: Seq<SerpLogView>,
    id: Seq<char>,
    answer: Result<SerpLogView, ApiErrorView>,
) -> bool {
    match id_read(id) {
        None => answer == Err::<SerpLogView, ApiErrorView>(bad_id(id)),
        Some(number) => match answer {
            Ok(log) => oldest_with_id(logs, number, log),
            Err(error) => error == unknown_id(number) && forall|k: int|
                0 <= k < logs.len() ==> (#[trigger] logs[k]).request.id != number,
        },
    }
}

/// One saved request by its identifier.
pub fn get_request(store: &Store, id: &str) -> (r: Result<SerpRequestLog, ApiError>)
    ensures
        request_answer(store@.requests, id@, result_view(r)),
{
    match read_id(id) {
        None => {
            let mut message = "`".to_owned();
            message.append(id);
            message.append("` is not a valid request id");
            Err(ApiError::BadRequest(message))
        },
        Some(number) => match store.request(number) {
            Some(log) => Ok(log),
            None => {
                let mut message = "no saved request with id ".to_owned();
                message.append(write_id(number).as_str());
                Err(ApiError::NotFound(message))
            },
        },
    }
}

/// Every curated title, in no particular order.
pub fn list_titles(store: &Store) -> (r: Vec<TitleRecord>)
    ensures
        exists|ids: Seq<u128>|
            #![trigger ids.no_duplicates()]
            ids.no_duplicates() && ids.to_set() == store@.records.dom() && r.deep_view()
                == ids.map_values(|id: u128| store@.records[id]),
{
    store.list()
}

/// Whether a curated title has a blank field.
pub open spec fn has_blank(payload: NewTitle) -> bool {
    trimmed(payload.name@).len() == 0 || trimmed(payload.company@).len() == 0 || trimmed(
        payload.title@,
    ).len() == 0
}

/// A curated title without white space around its fields.
pub open spec fn record_for(payload: NewTitle, id: u128) -> RecordView {
    RecordView {
        id,
        name: trimmed(payload.name@),
        company: trimmed(payload.company@),
        title: trimmed(payload.title@),
    }
}

/// Adds a curated title under the identifier given.
pub fn create_title_with_id(store: &mut Store, payload: &NewTitle, id: u128) -> (r: Result<
    TitleRecord,
    ApiError,
>)
    ensures
        if has_blank(*payload) {
            &&& result_view(r) == Err::<RecordView, ApiErrorView>(blank_title())
            &&& final(store)@ == old(store)@
        } else {
            &&& result_view(r) == Ok::<RecordView, ApiErrorView>(record_for(*payload, id))
            &&& final(store)@ == (StoreView {
                records: old(store)@.records.insert(id, record_for(*payload, id)),
                ..old(store)@
            })
        },
        old(store)@.well_formed() ==> final(store)@.well_formed(),
{
    let name = trim(payload.name.as_str());
    let company = trim(payload.company.as_str());
    let title = trim(payload.title.as_str());
    if name.is_empty() || company.is_empty() || title.is_empty() {
        return Err(
            ApiError::BadRequest("`name`, `company` and `title` must not be empty".to_owned()),
        );
    }
    Ok(store.insert_with_id(id, name, company, title))
}

/// Adds a curated title under an identifier of its own.
pub fn create_title(store: &mut Store, payload: &NewTitle) -> (r: Result<TitleRecord, ApiError>)
    ensures
        if has_blank(*payload) {
            &&& result_view(r) == Err::<RecordView, ApiErrorView>(blank_title())
            &&& final(store)@ == old(store)@
        } else {
            &&& r matches Ok(record)
            &&& random_id(record.id)
            &&& record.deep_view() == record_for(*payload, record.id)
            &&& final(store)@ == (StoreView {
                records: old(store)@.records.insert(record.id, record.deep_view()),
                ..old(store)@
            })
        },
        old(store)@.well_formed() ==> final(store)@.well_formed(),
{
    create_title_with_id(store, payload, new_id())
}

} // verus!
