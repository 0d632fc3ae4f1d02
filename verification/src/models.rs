//! What is stored, asked and answered, and what each value says.
use vstd::prelude::*;

use crate::score::Probability;
use crate::score::Score;

verus! {

/// A moment in UTC: seconds since 1970 and nanoseconds within the second.
#[derive(Debug, Clone, Copy, PartialEq, Eq, Structural)]
pub struct Timestamp {
    pub secs: i64,
    pub nanos: u32,
}

impl DeepView for Timestamp {
    type V = Timestamp;

    open spec fn deep_view(&self) -> Timestamp {
        *self
    }
}

/// A curated job title.
#[derive(Debug)]
pub struct TitleRecord {
    pub id: u128,
    pub name: String,
    pub company: String,
    pub title: String,
}

/// What a `TitleRecord` says.
pub struct RecordView {
    pub id: u128,
    pub name: Seq<char>,
    pub company: Seq<char>,
    pub title: Seq<char>,
}

impl DeepView for TitleRecord {
    type V = RecordView;

    open spec fn deep_view(&self) -> RecordView {
        RecordView { id: self.id, name: self.name@, company: self.company@, title: self.title@ }
    }
}

impl Clone for TitleRecord {
    fn clone(&self) -> (r: Self)
        ensures
            r.deep_view() == self.deep_view(),
    {
        TitleRecord {
            id: self.id,
            name: self.name.clone(),
            company: self.company.clone(),
            title: self.title.clone(),
        }
    }
}

/// One search result.
#[derive(Debug)]
pub struct SearchHit {
    pub title: String,
    pub link: String,
    pub snippet: String,
}

/// What a `SearchHit` says.
pub struct HitView {
    pub title: Seq<char>,
    pub link: Seq<char>,
    pub snippet: Seq<char>,
}

impl DeepView for SearchHit {
    type V = HitView;

    open spec fn deep_view(&self) -> HitView {
        HitView { title: self.title@, link: self.link@, snippet: self.snippet@ }
    }
}

impl Clone for SearchHit {
    fn clone(&self) -> (r: Self)
        ensures
            r.deep_view() == self.deep_view(),
    {
        SearchHit {
            title: self.title.clone(),
            link: self.link.clone(),
            snippet: self.snippet.clone(),
        }
    }
}

/// A request sent to the search provider; it never holds the API key.
#[derive(Debug)]
pub struct SerpRequest {
    pub id: u128,
    pub endpoint: String,
    pub engine: String,
    pub query: String,
    pub num: u32,
    pub sent_at: Timestamp,
}

/// What a `SerpRequest` says.
pub struct SerpRequestView {
    pub id: u128,
    pub endpoint: Seq<char>,
    pub engine: Seq<char>,
    pub query: Seq<char>,
    pub num: u32,
    pub sent_at: Timestamp,
}

impl DeepView for SerpRequest {
    type V = SerpRequestView;

    open spec fn deep_view(&self) -> SerpRequestView {
        SerpRequestView {
            id: self.id,
            endpoint: self.endpoint@,
            engine: self.engine@,
            query: self.query@,
            num: self.num,
            sent_at: self.sent_at,
        }
    }
}

impl Clone for SerpRequest {
    fn clone(&self) -> (r: Self)
        ensures
            r.deep_view() == self.deep_view(),
    {
        SerpRequest {
            id: self.id,
            endpoint: self.endpoint.clone(),
            engine: self.engine.clone(),
            query: self.query.clone(),
            num: self.num,
            sent_at: self.sent_at,
        }
    }
}

/// How a search request ended.
#[derive(Debug)]
pub enum RequestOutcome {
    Succeeded { hit_count: usize },
    Failed { message: String },
}

/// What a `RequestOutcome` says.
pub enum RequestOutcomeView {
    Succeeded { hit_count: nat },
    Failed { message: Seq<char> },
}

impl DeepView for RequestOutcome {
    type V = RequestOutcomeView;

    open spec fn deep_view(&self) -> RequestOutcomeView {
        match self {
            RequestOutcome::Succeeded { hit_count } => RequestOutcomeView::Succeeded {
                hit_count: *hit_count as nat,
            },
            RequestOutcome::Failed { message } => RequestOutcomeView::Failed { message: message@ },
        }
    }
}

impl Clone for RequestOutcome {
    fn clone(&self) -> (r: Self)
        ensures
            r.deep_view() == self.deep_view(),
    {
        match self {
            RequestOutcome::Succeeded { hit_count } => RequestOutcome::Succeeded {
                hit_count: *hit_count,
            },
            RequestOutcome::Failed { message } => RequestOutcome::Failed {
                message: message.clone(),
            },
        }
    }
}

/// A title found in search hits, and how sure the extractor was of it.
#[derive(Debug)]
pub struct ExtractedTitle {
    pub text: String,
    pub probability: Probability,
}

/// What an `ExtractedTitle` says.
pub struct ExtractedTitleView {
    pub text: Seq<char>,
    pub probability: Probability,
}

impl DeepView for ExtractedTitle {
    type V = ExtractedTitleView;

    open spec fn deep_view(&self) -> ExtractedTitleView {
        ExtractedTitleView { text: self.text@, probability: self.probability }
    }
}

impl Clone for ExtractedTitle {
    fn clone(&self) -> (r: Self)
        ensures
            r.deep_view() == self.deep_view(),
    {
        ExtractedTitle { text: self.text.clone(), probability: self.probability }
    }
}

/// Whose title a title span is.
#[derive(Debug, Clone, Copy, PartialEq, Eq, Structural)]
pub enum Attribution {
    SearchedPerson,
    Nobody,
    SomeoneElse,
}

impl DeepView for Attribution {
    type V = Attribution;

    open spec fn deep_view(&self) -> Attribution {
        *self
    }
}

/// A span the extractor found, with the byte offsets in the input it was found
/// in and, for a title, whose it is.
#[derive(Debug)]
pub struct GlinerSpan {
    pub input: usize,
    pub start: usize,
    pub end: usize,
    pub text: String,
    pub label: String,
    pub probability: Probability,
    pub attribution: Option<Attribution>,
}

/// What a `GlinerSpan` says.
pub struct GlinerSpanView {
    pub input: usize,
    pub start: usize,
    pub end: usize,
    pub text: Seq<char>,
    pub label: Seq<char>,
    pub probability: Probability,
    pub attribution: Option<Attribution>,
}

impl DeepView for GlinerSpan {
    type V = GlinerSpanView;

    open spec fn deep_view(&self) -> GlinerSpanView {
        GlinerSpanView {
            input: self.input,
            start: self.start,
            end: self.end,
            text: self.text@,
            label: self.label@,
            probability: self.probability,
            attribution: self.attribution,
        }
    }
}

impl Clone for GlinerSpan {
    fn clone(&self) -> (r: Self)
        ensures
            r.deep_view() == self.deep_view(),
    {
        GlinerSpan {
            input: self.input,
            start: self.start,
            end: self.end,
            text: self.text.clone(),
            label: self.label.clone(),
            probability: self.probability,
            attribution: self.attribution,
        }
    }
}

/// What an extraction was given.
#[derive(Debug)]
pub struct GlinerRequest {
    pub id: u128,
    pub model: String,
    pub labels: Vec<String>,
    pub threshold: Probability,
    pub searched_name: String,
    pub inputs: Vec<String>,
    pub started_at: Timestamp,
}

/// What a `GlinerRequest` says.
pub struct GlinerRequestView {
    pub id: u128,
    pub model: Seq<char>,
    pub labels: Seq<Seq<char>>,
    pub threshold: Probability,
    pub searched_name: Seq<char>,
    pub inputs: Seq<Seq<char>>,
    pub started_at: Timestamp,
}

impl DeepView for GlinerRequest {
    type V = GlinerRequestView;

    open spec fn deep_view(&self) -> GlinerRequestView {
        GlinerRequestView {
            id: self.id,
            model: self.model@,
            labels: self.labels.deep_view(),
            threshold: self.threshold,
            searched_name: self.searched_name@,
            inputs: self.inputs.deep_view(),
            started_at: self.started_at,
        }
    }
}

impl Clone for GlinerRequest {
    fn clone(&self) -> (r: Self)
        ensures
            r.deep_view() == self.deep_view(),
    {
        let labels = self.labels.clone();
        let inputs = self.inputs.clone();
        assert(labels.deep_view() =~= self.labels.deep_view());
        assert(inputs.deep_view() =~= self.inputs.deep_view());
        GlinerRequest {
            id: self.id,
            model: self.model.clone(),
            labels,
            threshold: self.threshold,
            searched_name: self.searched_name.clone(),
            inputs,
            started_at: self.started_at,
        }
    }
}

/// How an extraction ended.
#[derive(Debug)]
pub enum GlinerOutcome {
    Succeeded { spans: Vec<GlinerSpan>, chosen: Option<ExtractedTitle> },
    Failed { message: String },
}

/// What a `GlinerOutcome` says.
pub enum GlinerOutcomeView {
    Succeeded { spans: Seq<GlinerSpanView>, chosen: Option<ExtractedTitleView> },
    Failed { message: Seq<char> },
}

impl DeepView for GlinerOutcome {
    type V = GlinerOutcomeView;

    open spec fn deep_view(&self) -> GlinerOutcomeView {
        match self {
            GlinerOutcome::Succeeded { spans, chosen } => GlinerOutcomeView::Succeeded {
                spans: spans.deep_view(),
                chosen: chosen.deep_view(),
            },
            GlinerOutcome::Failed { message } => GlinerOutcomeView::Failed { message: message@ },
        }
    }
}

impl Clone for GlinerOutcome {
    fn clone(&self) -> (r: Self)
        ensures
            r.deep_view() == self.deep_view(),
    {
        match self {
            GlinerOutcome::Succeeded { spans, chosen } => {
                let copied = spans.clone();
                assert(copied.deep_view() =~= spans.deep_view());
                GlinerOutcome::Succeeded { spans: copied, chosen: chosen.clone() }
            },
            GlinerOutcome::Failed { message } => GlinerOutcome::Failed {
                message: message.clone(),
            },
        }
    }
}

/// A saved extraction and the search request whose results it read.
#[derive(Debug)]
pub struct GlinerRequestLog {
    pub serp_request_id: u128,
    pub request: GlinerRequest,
    pub duration_ms: u64,
    pub outcome: GlinerOutcome,
}

/// What a `GlinerRequestLog` says.
pub struct GlinerLogView {
    pub serp_request_id: u128,
    pub request: GlinerRequestView,
    pub duration_ms: u64,
    pub outcome: GlinerOutcomeView,
}

impl DeepView for GlinerRequestLog {
    type V = GlinerLogView;

    open spec fn deep_view(&self) -> GlinerLogView {
        GlinerLogView {
            serp_request_id: self.serp_request_id,
            request: self.request.deep_view(),
            duration_ms: self.duration_ms,
            outcome: self.outcome.deep_view(),
        }
    }
}

impl Clone for GlinerRequestLog {
    fn clone(&self) -> (r: Self)
        ensures
            r.deep_view() == self.deep_view(),
    {
        GlinerRequestLog {
            serp_request_id: self.serp_request_id,
            request: self.request.clone(),
            duration_ms: self.duration_ms,
            outcome: self.outcome.clone(),
        }
    }
}

/// A request sent to the answer check; it never holds the bearer token.
#[derive(Debug)]
pub struct JevRequest {
    pub id: u128,
    pub endpoint: String,
    pub model: String,
    pub question_key: String,
    pub instructions: String,
    pub state: String,
    pub sent_at: Timestamp,
}

/// What a `JevRequest` says.
pub struct JevRequestView {
    pub id: u128,
    pub endpoint: Seq<char>,
    pub model: Seq<char>,
    pub question_key: Seq<char>,
    pub instructions: Seq<char>,
    pub state: Seq<char>,
    pub sent_at: Timestamp,
}

impl DeepView for JevRequest {
    type V = JevRequestView;

    open spec fn deep_view(&self) -> JevRequestView {
        JevRequestView {
            id: self.id,
            endpoint: self.endpoint@,
            model: self.model@,
            question_key: self.question_key@,
            instructions: self.instructions@,
            state: self.state@,
            sent_at: self.sent_at,
        }
    }
}

impl Clone for JevRequest {
    fn clone(&self) -> (r: Self)
        ensures
            r.deep_view() == self.deep_view(),
    {
        JevRequest {
            id: self.id,
            endpoint: self.endpoint.clone(),
            model: self.model.clone(),
            question_key: self.question_key.clone(),
            instructions: self.instructions.clone(),
            state: self.state.clone(),
            sent_at: self.sent_at,
        }
    }
}

/// How an answer check ended.
#[derive(Debug)]
pub enum JevOutcome {
    Succeeded { score: Score, answers_question: bool, model: String },
    Failed { message: String },
}

/// What a `JevOutcome` says.
pub enum JevOutcomeView {
    Succeeded { score: Score, answers_question: bool, model: Seq<char> },
    Failed { message: Seq<char> },
}

impl DeepView for JevOutcome {
    type V = JevOutcomeView;

    open spec fn deep_view(&self) -> JevOutcomeView {
        match self {
            JevOutcome::Succeeded { score, answers_question, model } => JevOutcomeView::Succeeded {
                score: *score,
                answers_question: *answers_question,
                model: model@,
            },
            JevOutcome::Failed { message } => JevOutcomeView::Failed { message: message@ },
        }
    }
}

impl Clone for JevOutcome {
    fn clone(&self) -> (r: Self)
        ensures
            r.deep_view() == self.deep_view(),
    {
        match self {
            JevOutcome::Succeeded { score, answers_question, model } => JevOutcome::Succeeded {
                score: *score,
                answers_question: *answers_question,
                model: model.clone(),
            },
            JevOutcome::Failed { message } => JevOutcome::Failed { message: message.clone() },
        }
    }
}

/// A saved answer check and the search request whose results it judged.
#[derive(Debug)]
pub struct JevRequestLog {
    pub serp_request_id: u128,
    pub request: JevRequest,
    pub http_status: Option<u16>,
    pub outcome: JevOutcome,
}

/// What a `JevRequestLog` says.
pub struct JevLogView {
    pub serp_request_id: u128,
    pub request: JevRequestView,
    pub http_status: Option<u16>,
    pub outcome: JevOutcomeView,
}

impl DeepView for JevRequestLog {
    type V = JevLogView;

    open spec fn deep_view(&self) -> JevLogView {
        JevLogView {
            serp_request_id: self.serp_request_id,
            request: self.request.deep_view(),
            http_status: self.http_status,
            outcome: self.outcome.deep_view(),
        }
    }
}

impl Clone for JevRequestLog {
    fn clone(&self) -> (r: Self)
        ensures
            r.deep_view() == self.deep_view(),
    {
        JevRequestLog {
            serp_request_id: self.serp_request_id,
            request: self.request.clone(),
            http_status: self.http_status,
            outcome: self.outcome.clone(),
        }
    }
}

/// A saved search request with the check and the extraction that followed it.
#[derive(Debug)]
pub struct SerpRequestLog {
    pub request: SerpRequest,
    pub http_status: Option<u16>,
    pub outcome: RequestOutcome,
    pub jev: Option<JevRequestLog>,
    pub gliner: Option<GlinerRequestLog>,
}

/// What a `SerpRequestLog` says.
pub struct SerpLogView {
    pub request: SerpRequestView,
    pub http_status: Option<u16>,
    pub outcome: RequestOutcomeView,
    pub jev: Option<JevLogView>,
    pub gliner: Option<GlinerLogView>,
}

impl DeepView for SerpRequestLog {
    type V = SerpLogView;

    open spec fn deep_view(&self) -> SerpLogView {
        SerpLogView {
            request: self.request.deep_view(),
            http_status: self.http_status,
            outcome: self.outcome.deep_view(),
            jev: self.jev.deep_view(),
            gliner: self.gliner.deep_view(),
        }
    }
}

impl Clone for SerpRequestLog {
    fn clone(&self) -> (r: Self)
        ensures
            r.deep_view() == self.deep_view(),
    {
        SerpRequestLog {
            request: self.request.clone(),
            http_status: self.http_status,
            outcome: self.outcome.clone(),
            jev: self.jev.clone(),
            gliner: self.gliner.clone(),
        }
    }
}

/// What the answer check said of a search's hits.
#[derive(Debug)]
pub enum Verification {
    Checked { score: Score, answers_question: bool, model: String, checked_at: Timestamp },
    Failed { message: String },
    Skipped { reason: String },
}

/// What a `Verification` says.
pub enum VerificationView {
    Checked { score: Score, answers_question: bool, model: Seq<char>, checked_at: Timestamp },
    Failed { message: Seq<char> },
    Skipped { reason: Seq<char> },
}

impl DeepView for Verification {
    type V = VerificationView;

    open spec fn deep_view(&self) -> VerificationView {
        match self {
            Verification::Checked { score, answers_question, model, checked_at } => {
                VerificationView::Checked {
                    score: *score,
                    answers_question: *answers_question,
                    model: model@,
                    checked_at: *checked_at,
                }
            },
            Verification::Failed { message } => VerificationView::Failed { message: message@ },
            Verification::Skipped { reason } => VerificationView::Skipped { reason: reason@ },
        }
    }
}

impl Clone for Verification {
    fn clone(&self) -> (r: Self)
        ensures
            r.deep_view() == self.deep_view(),
    {
        match self {
            Verification::Checked { score, answers_question, model, checked_at } => {
                Verification::Checked {
                    score: *score,
                    answers_question: *answers_question,
                    model: model.clone(),
                    checked_at: *checked_at,
                }
            },
            Verification::Failed { message } => Verification::Failed { message: message.clone() },
            Verification::Skipped { reason } => Verification::Skipped { reason: reason.clone() },
        }
    }
}

/// Which path produced a title, or why there is none.
#[derive(Debug, Clone, Copy, PartialEq, Eq, Structural)]
pub enum TitleSource {
    Directory,
    Gliner,
    Unverified,
    NotFound,
    ExtractionFailed,
}

/// Which source answered a lookup.
#[derive(Debug, Clone, Copy, PartialEq, Eq, Structural)]
pub enum Source {
    Directory,
    SerpApi,
    SerpApiCached,
}

/// The answer to a lookup.
#[derive(Debug)]
pub struct TitleLookup {
    pub name: String,
    pub company: String,
    pub title: Option<String>,
    pub title_source: TitleSource,
    pub title_confidence: Option<Probability>,
    pub source: Source,
    pub query: Option<String>,
    pub hits: Vec<SearchHit>,
    pub verification: Option<Verification>,
    pub retrieved_at: Timestamp,
}

/// What a `TitleLookup` says.
pub struct LookupView {
    pub name: Seq<char>,
    pub company: Seq<char>,
    pub title: Option<Seq<char>>,
    pub title_source: TitleSource,
    pub title_confidence: Option<Probability>,
    pub source: Source,
    pub query: Option<Seq<char>>,
    pub hits: Seq<HitView>,
    pub verification: Option<VerificationView>,
    pub retrieved_at: Timestamp,
}

impl DeepView for TitleLookup {
    type V = LookupView;

    open spec fn deep_view(&self) -> LookupView {
        LookupView {
            name: self.name@,
            company: self.company@,
            title: self.title.deep_view(),
            title_source: self.title_source,
            title_confidence: self.title_confidence,
            source: self.source,
            query: self.query.deep_view(),
            hits: self.hits.deep_view(),
            verification: self.verification.deep_view(),
            retrieved_at: self.retrieved_at,
        }
    }
}

/// A lookup as asked for.
#[derive(Debug)]
pub struct TitleQuery {
    pub name: String,
    pub company: String,
    pub refresh: bool,
}

/// How many saved requests to list.
#[derive(Debug)]
pub struct RequestListQuery {
    pub limit: Option<usize>,
}

/// A curated title to add.
#[derive(Debug)]
pub struct NewTitle {
    pub name: String,
    pub company: String,
    pub title: String,
}

/// The answer of the liveness check.
#[derive(Debug)]
pub struct Health {
    pub status: &'static str,
    pub version: &'static str,
}

/// What a `Result` says.
pub open spec fn result_view<T: DeepView, E: DeepView>(r: Result<T, E>) -> Result<T::V, E::V> {
    match r {
        Ok(value) => Ok(value.deep_view()),
        Err(error) => Err(error.deep_view()),
    }
}

/// A copy of a list of hits.
pub fn copy_hits(hits: &Vec<SearchHit>) -> (r: Vec<SearchHit>)
    ensures
        r.deep_view() == hits.deep_view(),
{
    let copied = hits.clone();
    assert(copied.deep_view() =~= hits.deep_view());
    copied
}

} // verus!
