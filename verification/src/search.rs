//! The search provider: the question it is asked, the request that asks it and
//! the hits its answer holds.
use vstd::prelude::*;
use vstd::string::StringExecFns;

use crate::ids::clock_time;
use crate::ids::new_id;
use crate::ids::now;
use crate::ids::random_id;
use crate::models::result_view;
use crate::models::HitView;
use crate::models::SearchHit;
use crate::models::SerpRequest;
use crate::models::SerpRequestView;
use crate::models::Timestamp;
use crate::text::cut_out;
use crate::text::decimal;
use crate::text::decimal_text;
use crate::text::first_chars;
use crate::text::holds;
use crate::text::strip_end;
use crate::text::strip_end_of;
use crate::text::take_chars;
use crate::text::what_is_cut_out_is_gone;
use crate::text::without;
use crate::text::Class;

verus! {

/// The question the search engine is asked.
pub open spec fn query_for(name: Seq<char>, company: Seq<char>) -> Seq<char> {
    "What is the job title for "@ + name + " at "@ + company + "?"@
}

/// The question the search engine is asked.
pub fn build_query(name: &str, company: &str) -> (r: String)
    ensures
        r@ == query_for(name@, company@),
{
    let mut out = "What is the job title for ".to_owned();
    out.append(name);
    out.append(" at ");
    out.append(company);
    out.append("?");
    out
}

/// Why a search gave no hits.
#[derive(Debug)]
pub enum SearchError {
    /// The request never completed (DNS, TLS, timeout, connection refused).
    Transport(String),
    /// The provider answered, but with an error (bad key, quota exhausted, ...).
    Upstream { status: u16, message: String },
    /// The provider answered with a body that could not be understood.
    Decode(String),
}

/// What a `SearchError` says.
pub enum SearchErrorView {
    Transport(Seq<char>),
    Upstream { status: u16, message: Seq<char> },
    Decode(Seq<char>),
}

impl DeepView for SearchError {
    type V = SearchErrorView;

    open spec fn deep_view(&self) -> SearchErrorView {
        match self {
            SearchError::Transport(message) => SearchErrorView::Transport(message@),
            SearchError::Upstream { status, message } => SearchErrorView::Upstream {
                status: *status,
                message: message@,
            },
            SearchError::Decode(message) => SearchErrorView::Decode(message@),
        }
    }
}

impl SearchErrorView {
    /// The error in words.
    pub open spec fn text(self) -> Seq<char> {
        match self {
            SearchErrorView::Transport(message) => "search request failed: "@ + message,
            SearchErrorView::Upstream { status, message } => "search provider returned "@ + decimal(
                status as nat,
            ) + ": "@ + message,
            SearchErrorView::Decode(message) => "could not parse search response: "@ + message,
        }
    }

    /// The error with a key cut out of what it says.
    pub open spec fn without_key(self, key: Seq<char>) -> SearchErrorView {
        match self {
            SearchErrorView::Transport(message) => SearchErrorView::Transport(
                cut_out(message, key),
            ),
            SearchErrorView::Upstream { status, message } => SearchErrorView::Upstream {
                status,
                message: cut_out(message, key),
            },
            SearchErrorView::Decode(message) => SearchErrorView::Decode(cut_out(message, key)),
        }
    }
}

impl SearchError {
    /// The error in words.
    pub fn to_string(&self) -> (r: String)
        ensures
            r@ == self.deep_view().text(),
    {
        match self {
            SearchError::Transport(message) => {
                let mut out = "search request failed: ".to_owned();
                out.append(message.as_str());
                out
            },
            SearchError::Upstream { status, message } => {
                let mut out = "search provider returned ".to_owned();
                out.append(decimal_text(*status as u64).as_str());
                out.append(": ");
                out.append(message.as_str());
                out
            },
            SearchError::Decode(message) => {
                let mut out = "could not parse search response: ".to_owned();
                out.append(message.as_str());
                out
            },
        }
    }
}

/// One call to the search provider: what was sent and what came back. The
/// request is kept even on failure so it can always be saved.
#[derive(Debug)]
pub struct SearchAttempt {
    pub request: SerpRequest,
    /// HTTP status, when a response arrived at all.
    pub http_status: Option<u16>,
    pub result: Result<Vec<SearchHit>, SearchError>,
}

/// What a `SearchAttempt` says.
pub struct SearchAttemptView {
    pub request: SerpRequestView,
    pub http_status: Option<u16>,
    pub result: Result<Seq<HitView>, SearchErrorView>,
}

impl DeepView for SearchAttempt {
    type V = SearchAttemptView;

    open spec fn deep_view(&self) -> SearchAttemptView {
        SearchAttemptView {
            request: self.request.deep_view(),
            http_status: self.http_status,
            result: result_view(self.result),
        }
    }
}

/// The answer box of a search response.
#[derive(Debug)]
pub struct AnswerBox {
    pub title: Option<String>,
    pub link: Option<String>,
    /// The text stands in `answer`, `snippet` or `result`, by the box's type.
    pub answer: Option<String>,
    pub snippet: Option<String>,
    pub result: Option<String>,
}

/// What an `AnswerBox` says.
pub struct AnswerBoxView {
    pub title: Option<Seq<char>>,
    pub link: Option<Seq<char>>,
    pub answer: Option<Seq<char>>,
    pub snippet: Option<Seq<char>>,
    pub result: Option<Seq<char>>,
}

impl DeepView for AnswerBox {
    type V = AnswerBoxView;

    open spec fn deep_view(&self) -> AnswerBoxView {
        AnswerBoxView {
            title: self.title.deep_view(),
            link: self.link.deep_view(),
            answer: self.answer.deep_view(),
            snippet: self.snippet.deep_view(),
            result: self.result.deep_view(),
        }
    }
}

/// A text, or the empty one.
pub open spec fn or_empty(s: Option<Seq<char>>) -> Seq<char> {
    match s {
        Some(text) => text,
        None => Seq::empty(),
    }
}

impl AnswerBoxView {
    /// The first text there is among `answer`, `snippet` and `result`.
    pub open spec fn said(self) -> Option<Seq<char>> {
        if self.answer is Some {
            self.answer
        } else if self.snippet is Some {
            self.snippet
        } else {
            self.result
        }
    }

    /// The hit of a box with a text.
    pub open spec fn hits(self) -> Seq<HitView> {
        match self.said() {
            Some(text) => seq![
                HitView { title: or_empty(self.title), link: or_empty(self.link), snippet: text },
            ],
            None => Seq::empty(),
        }
    }
}

impl AnswerBox {
    /// The text of the box.
    pub fn text(&self) -> (r: Option<&str>)
        ensures
            r.deep_view() == self.deep_view().said(),
    {
        match &self.answer {
            Some(text) => Some(text.as_str()),
            None => match &self.snippet {
                Some(text) => Some(text.as_str()),
                None => match &self.result {
                    Some(text) => Some(text.as_str()),
                    None => None,
                },
            },
        }
    }
}

/// An ordinary result of a search response.
#[derive(Debug)]
pub struct OrganicResult {
    pub title: Option<String>,
    pub link: Option<String>,
    pub snippet: Option<String>,
}

/// What an `OrganicResult` says.
pub struct OrganicView {
    pub title: Option<Seq<char>>,
    pub link: Option<Seq<char>>,
    pub snippet: Option<Seq<char>>,
}

impl DeepView for OrganicResult {
    type V = OrganicView;

    open spec fn deep_view(&self) -> OrganicView {
        OrganicView {
            title: self.title.deep_view(),
            link: self.link.deep_view(),
            snippet: self.snippet.deep_view(),
        }
    }
}

/// The hit of an ordinary result.
pub open spec fn organic_hit(result: OrganicView) -> HitView {
    HitView {
        title: or_empty(result.title),
        link: or_empty(result.link),
        snippet: or_empty(result.snippet),
    }
}

/// The part of a search response that matters here.
#[derive(Debug)]
pub struct SerpApiResponse {
    pub error: Option<String>,
    pub answer_box: Option<AnswerBox>,
    pub organic_results: Vec<OrganicResult>,
}

/// What a `SerpApiResponse` says.
pub struct ResponseView {
    pub error: Option<Seq<char>>,
    pub answer_box: Option<AnswerBoxView>,
    pub organic_results: Seq<OrganicView>,
}

impl DeepView for SerpApiResponse {
    type V = ResponseView;

    open spec fn deep_view(&self) -> ResponseView {
        ResponseView {
            error: self.error.deep_view(),
            answer_box: self.answer_box.deep_view(),
            organic_results: self.organic_results.deep_view(),
        }
    }
}

impl ResponseView {
    /// The hits of a response: the answer box first, when it has a text, then
    /// the ordinary results in order.
    pub open spec fn hits(self) -> Seq<HitView> {
        let boxed = match self.answer_box {
            Some(answer_box) => answer_box.hits(),
            None => Seq::empty(),
        };
        boxed + self.organic_results.map_values(|result: OrganicView| organic_hit(result))
    }
}

/// Whether an HTTP status means success.
pub open spec fn success(status: u16) -> bool {
    200 <= status < 300
}

/// What a response with a body means. `payload` is the body as it was
/// understood, or why it was not.
pub open spec fn search_result(
    status: u16,
    body: Seq<char>,
    payload: Result<ResponseView, Seq<char>>,
) -> Result<Seq<HitView>, SearchErrorView> {
    match payload {
        Err(error) => if success(status) {
            Err(SearchErrorView::Decode(error))
        } else {
            Err(SearchErrorView::Upstream { status, message: first_chars(body, 200) })
        },
        Ok(response) => match response.error {
            Some(message) => Err(SearchErrorView::Upstream { status, message }),
            None => if success(status) {
                Ok(response.hits())
            } else {
                Err(
                    SearchErrorView::Upstream {
                        status,
                        message: "search provider rejected the request"@,
                    },
                )
            },
        },
    }
}

/// What came back when a search request was sent.
#[derive(Debug)]
pub enum SearchReply {
    /// No response arrived.
    NoResponse { error: String },
    /// A response arrived, and its body could not be read.
    NoBody { status: u16, error: String },
    /// A response arrived whose body is `body`, and was understood as `payload`.
    Answer { status: u16, body: String, payload: Result<SerpApiResponse, String> },
}

/// The status and the result that a reply amounts to.
pub open spec fn reply_result(reply: SearchReply) -> (
    Option<u16>,
    Result<Seq<HitView>, SearchErrorView>,
) {
    match reply {
        SearchReply::NoResponse { error } => (None, Err(SearchErrorView::Transport(error@))),
        SearchReply::NoBody { status, error } => (
            Some(status),
            Err(SearchErrorView::Transport(error@)),
        ),
        SearchReply::Answer { status, body, payload } => (
            Some(status),
            search_result(status, body@, result_view(payload)),
        ),
    }
}

/// The attempt that a sent request and its reply make for a client with a key:
/// whatever an error says, the key is cut out of it.
pub open spec fn search_attempt(
    key: Seq<char>,
    request: SerpRequestView,
    reply: SearchReply,
) -> SearchAttemptView {
    SearchAttemptView {
        request,
        http_status: reply_result(reply).0,
        result: match reply_result(reply).1 {
            Ok(hits) => Ok(hits),
            Err(error) => Err(error.without_key(key)),
        },
    }
}

fn text_or_empty(s: &Option<String>) -> (r: String)
    ensures
        r@ == or_empty(s.deep_view()),
{
    match s {
        Some(text) => text.clone(),
        None => String::new(),
    }
}

/// What a client of the search provider is set up with.
#[derive(Debug)]
pub struct SerpApiClient {
    pub api_key: String,
    pub base_url: String,
}

/// The search engine that is asked for.
pub const ENGINE: &'static str = "google";

/// How many results are asked for.
pub const NUM_RESULTS: u32 = 10;

/// The request that asks a question at a base URL.
pub open spec fn serp_request(
    base_url: Seq<char>,
    query: Seq<char>,
    id: u128,
    sent_at: Timestamp,
) -> SerpRequestView {
    SerpRequestView {
        id,
        endpoint: base_url + "/search"@,
        engine: ENGINE@,
        query,
        num: NUM_RESULTS,
        sent_at,
    }
}

impl SerpApiClient {
    /// Where the search provider is.
    pub const DEFAULT_BASE_URL: &'static str = "https://serpapi.com";

    /// A client of the provider itself.
    pub fn new(api_key: String) -> (r: Self)
        ensures
            r.api_key@ == api_key@,
            r.base_url@ == strip_end(Self::DEFAULT_BASE_URL@, Class::Slash),
    {
        Self::with_base_url(api_key, Self::DEFAULT_BASE_URL.to_owned())
    }

    /// A client of the provider at `base_url`, without slashes at its end.
    pub fn with_base_url(api_key: String, base_url: String) -> (r: Self)
        ensures
            r.api_key@ == api_key@,
            r.base_url@ == strip_end(base_url@, Class::Slash),
    {
        let base_url = strip_end_of(base_url.as_str(), Class::Slash).to_owned();
        SerpApiClient { api_key, base_url }
    }

    /// The request that asks `query`, with the identifier and the time given.
    pub fn request_at(&self, query: &str, id: u128, sent_at: Timestamp) -> (r: SerpRequest)
        ensures
            r.deep_view() == serp_request(self.base_url@, query@, id, sent_at),
    {
        let mut endpoint = self.base_url.clone();
        endpoint.append("/search");
        SerpRequest {
            id,
            endpoint,
            engine: ENGINE.to_owned(),
            query: query.to_owned(),
            num: NUM_RESULTS,
            sent_at,
        }
    }

    /// The request that asks `query`, with an identifier of its own and the
    /// time that it is.
    pub fn request(&self, query: &str) -> (r: SerpRequest)
        ensures
            r.deep_view() == serp_request(self.base_url@, query@, r.id, r.sent_at),
            random_id(r.id),
            clock_time(r.sent_at),
    {
        self.request_at(query, new_id(), now())
    }

    /// The parameters that a request is sent with, the API key among them.
    pub fn parameters(&self, request: &SerpRequest) -> (r: Vec<(String, String)>)
        ensures
            r.deep_view() == seq![
                ("engine"@, request.engine@),
                ("q"@, request.query@),
                ("num"@, decimal(request.num as nat)),
                ("api_key"@, self.api_key@),
            ],
    {
        let parameters: Vec<(String, String)> = vec![
            ("engine".to_owned(), request.engine.clone()),
            ("q".to_owned(), request.query.clone()),
            ("num".to_owned(), decimal_text(request.num as u64)),
            ("api_key".to_owned(), self.api_key.clone()),
        ];
        assert(parameters.deep_view() =~= seq![
            ("engine"@, request.engine@),
            ("q"@, request.query@),
            ("num"@, decimal(request.num as nat)),
            ("api_key"@, self.api_key@),
        ]);
        parameters
    }

    /// The hits that a response with a body holds, or what is wrong with it.
    /// `payload` is the body as it was understood, or why it was not.
    pub fn parse(status: u16, body: &str, payload: Result<SerpApiResponse, String>) -> (r: Result<
        Vec<SearchHit>,
        SearchError,
    >)
        ensures
            result_view(r) == search_result(status, body@, result_view(payload)),
    {
        let succeeded: bool = 200 <= status && status < 300;
        let response = match payload {
            Ok(response) => response,
            Err(error) => {
                if succeeded {
                    return Err(SearchError::Decode(error));
                } else {
                    return Err(SearchError::Upstream { status, message: take_chars(body, 200) });
                }
            },
        };
        match response.error {
            Some(message) => {
                return Err(SearchError::Upstream { status, message });
            },
            None => {},
        }
        if !succeeded {
            return Err(
                SearchError::Upstream {
                    status,
                    message: "search provider rejected the request".to_owned(),
                },
            );
        }
        let mut hits: Vec<SearchHit> = Vec::new();
        let ghost boxed = match response.answer_box.deep_view() {
            Some(answer_box) => answer_box.hits(),
            None => Seq::empty(),
        };
        match &response.answer_box {
            Some(answer_box) => {
                match answer_box.text() {
                    Some(text) => {
                        hits.push(
                            SearchHit {
                                title: text_or_empty(&answer_box.title),
                                link: text_or_empty(&answer_box.link),
                                snippet: text.to_owned(),
                            },
                        );
                    },
                    None => {},
                }
            },
            None => {},
        }
        assert(hits.deep_view() =~= boxed);
        let ghost results = response.organic_results.deep_view();
        let ghost mapped = results.map_values(|result: OrganicView| organic_hit(result));
        let mut i: usize = 0;
        assert(hits.deep_view() =~= boxed + mapped.take(0));
        while i < response.organic_results.len()
            invariant
                i <= response.organic_results.len(),
                results == response.organic_results.deep_view(),
                mapped == results.map_values(|result: OrganicView| organic_hit(result)),
                hits.deep_view() == boxed + mapped.take(i as int),
            decreases response.organic_results.len() - i,
        {
            let result = &response.organic_results[i];
            let hit = SearchHit {
                title: text_or_empty(&result.title),
                link: text_or_empty(&result.link),
                snippet: text_or_empty(&result.snippet),
            };
            let ghost shown = hits.deep_view();
            let ghost said = hit.deep_view();
            assert(said == mapped[i as int]);
            hits.push(hit);
            assert(hits.deep_view() =~= shown.push(said));
            assert(hits.deep_view() =~= boxed + mapped.take(i + 1));
            i += 1;
        }
        assert(mapped.take(i as int) =~= mapped);
        Ok(hits)
    }

    /// A text without the API key.
    pub fn without_key(&self, text: String) -> (r: String)
        ensures
            r@ == cut_out(text@, self.api_key@),
            self.api_key@.len() > 0 ==> !holds(r@, self.api_key@),
            !holds(text@, self.api_key@) ==> r@ == text@,
    {
        proof {
            what_is_cut_out_is_gone(text@, self.api_key@);
        }
        without(text, self.api_key.as_str())
    }

    fn error_without_key(&self, error: SearchError) -> (r: SearchError)
        ensures
            r.deep_view() == error.deep_view().without_key(self.api_key@),
    {
        match error {
            SearchError::Transport(message) => SearchError::Transport(self.without_key(message)),
            SearchError::Upstream { status, message } => SearchError::Upstream {
                status,
                message: self.without_key(message),
            },
            SearchError::Decode(message) => SearchError::Decode(self.without_key(message)),
        }
    }

    /// The attempt that a sent request and its reply make. What an error says
    /// is saved and shown, so the API key is cut out of it.
    pub fn attempt(&self, request: SerpRequest, reply: SearchReply) -> (r: SearchAttempt)
        ensures
            r.deep_view() == search_attempt(self.api_key@, request.deep_view(), reply),
    {
        let (http_status, result) = match reply {
            SearchReply::NoResponse { error } => (None, Err(SearchError::Transport(error))),
            SearchReply::NoBody { status, error } => (
                Some(status),
                Err(SearchError::Transport(error)),
            ),
            SearchReply::Answer { status, body, payload } => (
                Some(status),
                Self::parse(status, body.as_str(), payload),
            ),
        };
        let result = match result {
            Ok(hits) => Ok(hits),
            Err(error) => Err(self.error_without_key(error)),
        };
        SearchAttempt { request, http_status, result }
    }
}

} // verus!
