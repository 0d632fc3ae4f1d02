//! The answer check: the text and the question it is given, and what its answer
//! says of a search.
use vstd::prelude::*;
use vstd::string::StringExecFns;

use crate::ids::clock_time;
use crate::ids::new_id;
use crate::ids::now;
use crate::ids::random_id;
use crate::models::result_view;
use crate::models::HitView;
use crate::models::JevRequest;
use crate::models::JevRequestView;
use crate::models::SearchHit;
use crate::models::Timestamp;
use crate::models::Verification;
use crate::models::VerificationView;
use crate::score::Score;
use crate::search::success;
use crate::text::cut_out;
use crate::text::decimal;
use crate::text::decimal_text;
use crate::text::first_chars;
use crate::text::holds;
use crate::text::join;
use crate::text::joined;
use crate::text::keep_non_empty;
use crate::text::non_empty;
use crate::text::same_text;
use crate::text::strip_end;
use crate::text::strip_end_of;
use crate::text::take_chars;
use crate::text::what_is_cut_out_is_gone;
use crate::text::without;
use crate::text::Class;

verus! {

/// Scores at or above this count as "the search answered the question": the
/// bits of one half.
pub const ANSWER_THRESHOLD: u64 = 0x3fe0_0000_0000_0000;

/// The lowest score there is: the bits of zero.
pub const LOWEST_SCORE: u64 = 0;

/// The highest score there is: the bits of one.
pub const HIGHEST_SCORE: u64 = 0x3ff0_0000_0000_0000;

/// Key for the one question in a request; the response is keyed the same way.
pub const QUESTION_KEY: &'static str = "answers_job_title";

/// The model that is asked for.
pub const MODEL: &'static str = "jev-latest";

/// The question asked about the search text.
pub open spec fn instructions_for(name: Seq<char>, company: Seq<char>) -> Seq<char> {
    "Does this text answer the question What is the job title of "@ + name + " at "@ + company
        + "?"@
}

/// The question asked about the search text.
pub fn build_instructions(name: &str, company: &str) -> (r: String)
    ensures
        r@ == instructions_for(name@, company@),
{
    let mut out = "Does this text answer the question What is the job title of ".to_owned();
    out.append(name);
    out.append(" at ");
    out.append(company);
    out.append("?");
    out
}

/// What one hit gives the check to read.
pub open spec fn hit_block(hit: HitView) -> Seq<char> {
    joined(non_empty(seq![hit.title, hit.link, hit.snippet]), "\n"@)
}

/// What the hits give the check to read.
pub open spec fn text_of_hits(hits: Seq<HitView>) -> Seq<char> {
    joined(non_empty(hits.map_values(|hit: HitView| hit_block(hit))), "\n\n"@)
}

/// Flattens search hits into the plain text that is checked.
pub fn hits_to_text(hits: &[SearchHit]) -> (r: String)
    ensures
        r@ == text_of_hits(hits.deep_view()),
{
    let ghost blocks = hits.deep_view().map_values(|hit: HitView| hit_block(hit));
    let mut texts: Vec<String> = Vec::new();
    let mut i: usize = 0;
    assert(texts.deep_view() =~= blocks.take(0));
    while i < hits.len()
        invariant
            i <= hits@.len(),
            blocks == hits.deep_view().map_values(|hit: HitView| hit_block(hit)),
            texts.deep_view() == blocks.take(i as int),
        decreases hits.len() - i,
    {
        let parts: Vec<String> = vec![
            hits[i].title.clone(),
            hits[i].link.clone(),
            hits[i].snippet.clone(),
        ];
        assert(parts.deep_view() =~= seq![
            hits@[i as int].title@,
            hits@[i as int].link@,
            hits@[i as int].snippet@,
        ]);
        let kept = keep_non_empty(parts);
        let text = join(&kept, "\n");
        let ghost shown = texts.deep_view();
        let ghost said = text@;
        texts.push(text);
        assert(texts.deep_view() =~= shown.push(said));
        assert(blocks[i as int] == hit_block(hits.deep_view()[i as int]));
        assert(blocks.take(i + 1) =~= blocks.take(i as int).push(blocks[i as int]));
        i += 1;
    }
    assert(blocks.take(i as int) =~= blocks);
    let kept = keep_non_empty(texts);
    join(&kept, "\n\n")
}

/// Why a check gave no verdict.
#[derive(Debug)]
pub enum VerifyError {
    /// The request never completed (DNS, TLS, timeout, connection refused).
    Transport(String),
    /// The check answered with an error (bad key, bad request, ...).
    Upstream { status: u16, message: String },
    /// The check answered with a body that could not be understood.
    Decode(String),
}

/// What a `VerifyError` says.
pub enum VerifyErrorView {
    Transport(Seq<char>),
    Upstream { status: u16, message: Seq<char> },
    Decode(Seq<char>),
}

impl DeepView for VerifyError {
    type V = VerifyErrorView;

    open spec fn deep_view(&self) -> VerifyErrorView {
        match self {
            VerifyError::Transport(message) => VerifyErrorView::Transport(message@),
            VerifyError::Upstream { status, message } => VerifyErrorView::Upstream {
                status: *status,
                message: message@,
            },
            VerifyError::Decode(message) => VerifyErrorView::Decode(message@),
        }
    }
}

impl VerifyErrorView {
    /// The error in words.
    pub open spec fn text(self) -> Seq<char> {
        match self {
            VerifyErrorView::Transport(message) => "Jev request failed: "@ + message,
            VerifyErrorView::Upstream { status, message } => "Jev returned "@ + decimal(
                status as nat,
            ) + ": "@ + message,
            VerifyErrorView::Decode(message) => "could not parse Jev response: "@ + message,
        }
    }

    /// The error with a key cut out of what it says.
    pub open spec fn without_key(self, key: Seq<char>) -> VerifyErrorView {
        match self {
            VerifyErrorView::Transport(message) => VerifyErrorView::Transport(
                cut_out(message, key),
            ),
            VerifyErrorView::Upstream { status, message } => VerifyErrorView::Upstream {
                status,
                message: cut_out(message, key),
            },
            VerifyErrorView::Decode(message) => VerifyErrorView::Decode(cut_out(message, key)),
        }
    }
}

impl VerifyError {
    /// The error in words.
    pub fn to_string(&self) -> (r: String)
        ensures
            r@ == self.deep_view().text(),
    {
        match self {
            VerifyError::Transport(message) => {
                let mut out = "Jev request failed: ".to_owned();
                out.append(message.as_str());
                out
            },
            VerifyError::Upstream { status, message } => {
                let mut out = "Jev returned ".to_owned();
                out.append(decimal_text(*status as u64).as_str());
                out.append(": ");
                out.append(message.as_str());
                out
            },
            VerifyError::Decode(message) => {
                let mut out = "could not parse Jev response: ".to_owned();
                out.append(message.as_str());
                out
            },
        }
    }
}

/// One call to the check: what was sent and what came back. The request is kept
/// even on failure so it can always be saved.
#[derive(Debug)]
pub struct JevAttempt {
    pub request: JevRequest,
    /// HTTP status, when a response arrived at all.
    pub http_status: Option<u16>,
    pub result: Result<Verification, VerifyError>,
}

/// What a `JevAttempt` says.
pub struct JevAttemptView {
    pub request: JevRequestView,
    pub http_status: Option<u16>,
    pub result: Result<VerificationView, VerifyErrorView>,
}

impl DeepView for JevAttempt {
    type V = JevAttemptView;

    open spec fn deep_view(&self) -> JevAttemptView {
        JevAttemptView {
            request: self.request.deep_view(),
            http_status: self.http_status,
            result: result_view(self.result),
        }
    }
}

/// One answer of a response: the score, and the score as it is written out.
#[derive(Debug)]
pub struct JevAnswer {
    pub noul: Score,
    pub written: String,
}

/// What a `JevAnswer` says.
pub struct JevAnswerView {
    pub noul: Score,
    pub written: Seq<char>,
}

impl DeepView for JevAnswer {
    type V = JevAnswerView;

    open spec fn deep_view(&self) -> JevAnswerView {
        JevAnswerView { noul: self.noul, written: self.written@ }
    }
}

/// A response with answers, each under the key of its question.
#[derive(Debug)]
pub struct JevResponse {
    pub model: String,
    pub answers: Vec<(String, JevAnswer)>,
}

/// What a `JevResponse` says.
pub struct JevResponseView {
    pub model: Seq<char>,
    pub answers: Seq<(Seq<char>, JevAnswerView)>,
}

impl DeepView for JevResponse {
    type V = JevResponseView;

    open spec fn deep_view(&self) -> JevResponseView {
        JevResponseView { model: self.model@, answers: self.answers.deep_view() }
    }
}

/// What an error response says went wrong.
#[derive(Debug)]
pub struct JevErrorDetail {
    pub error_type: Option<String>,
    pub message: Option<String>,
}

/// What a `JevErrorDetail` says.
pub struct JevErrorView {
    pub error_type: Option<Seq<char>>,
    pub message: Option<Seq<char>>,
}

impl DeepView for JevErrorDetail {
    type V = JevErrorView;

    open spec fn deep_view(&self) -> JevErrorView {
        JevErrorView { error_type: self.error_type.deep_view(), message: self.message.deep_view() }
    }
}

/// The answer under a key; the later one where a key comes twice.
pub open spec fn answer_under(answers: Seq<(Seq<char>, JevAnswerView)>, key: Seq<char>) -> Option<
    JevAnswerView,
>
    decreases answers.len(),
{
    if answers.len() == 0 {
        None
    } else if answers.last().0 == key {
        Some(answers.last().1)
    } else {
        answer_under(answers.drop_last(), key)
    }
}

/// An error response in words: what it says went wrong, or else its body's
/// first 200 characters.
pub open spec fn failure_text(failure: Option<JevErrorView>, body: Seq<char>) -> Seq<char> {
    match failure {
        Some(detail) => match (detail.error_type, detail.message) {
            (Some(kind), Some(message)) => kind + ": "@ + message,
            (None, Some(message)) => message,
            (Some(kind), None) => kind,
            (None, None) => "unknown error"@,
        },
        None => first_chars(body, 200),
    }
}

/// Whether a score is between zero and one.
pub open spec fn possible_score(score: Score) -> bool {
    (Score { bits: LOWEST_SCORE }).le(score) && score.le(Score { bits: HIGHEST_SCORE })
}

/// Whether a score counts as "the search answered the question".
pub open spec fn answers(score: Score) -> bool {
    (Score { bits: ANSWER_THRESHOLD }).le(score)
}

/// What the answers of a response mean.
pub open spec fn verdict(response: JevResponseView, checked_at: Timestamp) -> Result<
    VerificationView,
    VerifyErrorView,
> {
    match answer_under(response.answers, QUESTION_KEY@) {
        None => Err(
            VerifyErrorView::Decode("response has no `"@ + QUESTION_KEY@ + "` answer"@),
        ),
        Some(answer) => if possible_score(answer.noul) {
            Ok(
                VerificationView::Checked {
                    score: answer.noul,
                    answers_question: answers(answer.noul),
                    model: response.model,
                    checked_at,
                },
            )
        } else {
            Err(VerifyErrorView::Decode("score "@ + answer.written + " is outside 0..=1"@))
        },
    }
}

/// What a response with a body means. `failure` is the body understood as an
/// error, `payload` the body understood as answers, or why it was not.
pub open spec fn check_result(
    status: u16,
    body: Seq<char>,
    failure: Option<JevErrorView>,
    payload: Result<JevResponseView, Seq<char>>,
    checked_at: Timestamp,
) -> Result<VerificationView, VerifyErrorView> {
    if !success(status) {
        Err(VerifyErrorView::Upstream { status, message: failure_text(failure, body) })
    } else {
        match payload {
            Err(error) => Err(VerifyErrorView::Decode(error)),
            Ok(response) => verdict(response, checked_at),
        }
    }
}

fn find_answer<'a>(answers: &'a Vec<(String, JevAnswer)>, key: &str) -> (r: Option<&'a JevAnswer>)
    ensures
        r.deep_view() == answer_under(answers.deep_view(), key@),
{
    let mut left: usize = answers.len();
    assert(answers.deep_view().take(left as int) =~= answers.deep_view());
    while left > 0
        invariant
            left <= answers.len(),
            answer_under(answers.deep_view(), key@) == answer_under(
                answers.deep_view().take(left as int),
                key@,
            ),
        decreases left,
    {
        assert(answers.deep_view().take(left as int).drop_last() =~= answers.deep_view().take(
            left - 1,
        ));
        assert(answers.deep_view().take(left as int).last() == answers@[left - 1].deep_view());
        if same_text(answers[left - 1].0.as_str(), key) {
            return Some(&answers[left - 1].1);
        }
        left -= 1;
    }
    None
}

fn describe_failure(failure: Option<JevErrorDetail>, body: &str) -> (r: String)
    ensures
        r@ == failure_text(failure.deep_view(), body@),
{
    match failure {
        Some(detail) => match (detail.error_type, detail.message) {
            (Some(kind), Some(message)) => {
                let mut out = kind;
                out.append(": ");
                out.append(message.as_str());
                out
            },
            (None, Some(message)) => message,
            (Some(kind), None) => kind,
            (None, None) => "unknown error".to_owned(),
        },
        None => take_chars(body, 200),
    }
}

/// Turns a response into a verification made at a given time.
pub fn parse_response_at(
    status: u16,
    body: &str,
    failure: Option<JevErrorDetail>,
    payload: Result<JevResponse, String>,
    checked_at: Timestamp,
) -> (r: Result<Verification, VerifyError>)
    ensures
        result_view(r) == check_result(
            status,
            body@,
            failure.deep_view(),
            result_view(payload),
            checked_at,
        ),
{
    if !(200 <= status && status < 300) {
        return Err(VerifyError::Upstream { status, message: describe_failure(failure, body) });
    }
    let response = match payload {
        Ok(response) => response,
        Err(error) => {
            return Err(VerifyError::Decode(error));
        },
    };
    match find_answer(&response.answers, QUESTION_KEY) {
        None => {
            let mut message = "response has no `".to_owned();
            message.append(QUESTION_KEY);
            message.append("` answer");
            Err(VerifyError::Decode(message))
        },
        Some(answer) => {
            let lowest = Score { bits: LOWEST_SCORE };
            let highest = Score { bits: HIGHEST_SCORE };
            let threshold = Score { bits: ANSWER_THRESHOLD };
            let score = answer.noul;
            if !(lowest.at_most(&score) && score.at_most(&highest)) {
                let mut message = "score ".to_owned();
                message.append(answer.written.as_str());
                message.append(" is outside 0..=1");
                return Err(VerifyError::Decode(message));
            }
            let answers_question: bool = threshold.at_most(&score);
            Ok(
                Verification::Checked {
                    score,
                    answers_question,
                    model: response.model.clone(),
                    checked_at,
                },
            )
        },
    }
}

/// Turns a response into a verification made now.
pub fn parse_response(
    status: u16,
    body: &str,
    failure: Option<JevErrorDetail>,
    payload: Result<JevResponse, String>,
) -> (r: Result<Verification, VerifyError>)
    ensures
        exists|checked_at: Timestamp|
            #![trigger clock_time(checked_at)]
            clock_time(checked_at) && result_view(r) == check_result(
                status,
                body@,
                failure.deep_view(),
                result_view(payload),
                checked_at,
            ),
{
    parse_response_at(status, body, failure, payload, now())
}

/// What came back when a request was sent to the check.
#[derive(Debug)]
pub enum JevReply {
    /// No response arrived.
    NoResponse { error: String },
    /// A response arrived, and its body could not be read.
    NoBody { status: u16, error: String },
    /// A response arrived whose body is `body`, understood as an error
    /// (`failure`) and as answers (`payload`).
    Answer {
        status: u16,
        body: String,
        failure: Option<JevErrorDetail>,
        payload: Result<JevResponse, String>,
    },
}

/// The status and the result that a reply amounts to.
pub open spec fn jev_reply_result(reply: JevReply, checked_at: Timestamp) -> (
    Option<u16>,
    Result<VerificationView, VerifyErrorView>,
) {
    match reply {
        JevReply::NoResponse { error } => (None, Err(VerifyErrorView::Transport(error@))),
        JevReply::NoBody { status, error } => (
            Some(status),
            Err(VerifyErrorView::Transport(error@)),
        ),
        JevReply::Answer { status, body, failure, payload } => (
            Some(status),
            check_result(
                status,
                body@,
                failure.deep_view(),
                result_view(payload),
                checked_at,
            ),
        ),
    }
}

/// The attempt that a sent request and its reply make for a client with a key:
/// whatever an error says, the key is cut out of it.
pub open spec fn check_attempt(
    key: Seq<char>,
    request: JevRequestView,
    reply: JevReply,
    checked_at: Timestamp,
) -> JevAttemptView {
    JevAttemptView {
        request,
        http_status: jev_reply_result(reply, checked_at).0,
        result: match jev_reply_result(reply, checked_at).1 {
            Ok(verification) => Ok(verification),
            Err(error) => Err(error.without_key(key)),
        },
    }
}

/// The type of the one question in a request.
pub const QUESTION_TYPE: &'static str = "noul";

/// What is sent to the answer check: a text and one question about it, under a
/// key.
#[derive(Debug)]
pub struct JevBody {
    pub state: String,
    pub model: String,
    pub question_key: String,
    pub question_type: String,
    pub instructions: String,
}

/// What a client of the answer check is set up with.
#[derive(Debug)]
pub struct JevClient {
    pub api_key: String,
    pub base_url: String,
}

/// The request that has a text checked at a base URL.
pub open spec fn jev_request(
    base_url: Seq<char>,
    text: Seq<char>,
    name: Seq<char>,
    company: Seq<char>,
    id: u128,
    sent_at: Timestamp,
) -> JevRequestView {
    JevRequestView {
        id,
        endpoint: base_url + "/v1/systemone"@,
        model: MODEL@,
        question_key: QUESTION_KEY@,
        instructions: instructions_for(name, company),
        state: text,
        sent_at,
    }
}

impl JevClient {
    /// Where the answer check is.
    pub const DEFAULT_BASE_URL: &'static str = "https://api.typesafe.ai";

    /// A client of the check itself.
    pub fn new(api_key: String) -> (r: Self)
        ensures
            r.api_key@ == api_key@,
            r.base_url@ == strip_end(Self::DEFAULT_BASE_URL@, Class::Slash),
    {
        Self::with_base_url(api_key, Self::DEFAULT_BASE_URL.to_owned())
    }

    /// A client of the check at `base_url`, without slashes at its end.
    pub fn with_base_url(api_key: String, base_url: String) -> (r: Self)
        ensures
            r.api_key@ == api_key@,
            r.base_url@ == strip_end(base_url@, Class::Slash),
    {
        let base_url = strip_end_of(base_url.as_str(), Class::Slash).to_owned();
        JevClient { api_key, base_url }
    }

    /// The request that has a text checked, with the identifier and the time
    /// given.
    pub fn request_at(
        &self,
        text: &str,
        name: &str,
        company: &str,
        id: u128,
        sent_at: Timestamp,
    ) -> (r: JevRequest)
        ensures
            r.deep_view() == jev_request(self.base_url@, text@, name@, company@, id, sent_at),
    {
        let mut endpoint = self.base_url.clone();
        endpoint.append("/v1/systemone");
        JevRequest {
            id,
            endpoint,
            model: MODEL.to_owned(),
            question_key: QUESTION_KEY.to_owned(),
            instructions: build_instructions(name, company),
            state: text.to_owned(),
            sent_at,
        }
    }

    /// The request that has a text checked, with an identifier of its own and
    /// the time that it is.
    pub fn request(&self, text: &str, name: &str, company: &str) -> (r: JevRequest)
        ensures
            r.deep_view() == jev_request(
                self.base_url@,
                text@,
                name@,
                company@,
                r.id,
                r.sent_at,
            ),
            random_id(r.id),
            clock_time(r.sent_at),
    {
        self.request_at(text, name, company, new_id(), now())
    }

    /// What is sent for a request.
    pub fn body(request: &JevRequest) -> (r: JevBody)
        ensures
            r.state@ == request.state@,
            r.model@ == request.model@,
            r.question_key@ == request.question_key@,
            r.question_type@ == QUESTION_TYPE@,
            r.instructions@ == request.instructions@,
    {
        JevBody {
            state: request.state.clone(),
            model: request.model.clone(),
            question_key: request.question_key.clone(),
            question_type: QUESTION_TYPE.to_owned(),
            instructions: request.instructions.clone(),
        }
    }

    /// A text without the bearer token.
    pub fn without_key(&self, text: String) -> (r: String)
        ensures
            r@ == cut_out(text@, self.api_key@),
            self.api_key@.len() > 0 ==> !holds(r@, self.api_key@),
            !holds(text@, self.api_key@) ==> r@ == text@,
    {
        proof {
            what_is_cut_out_is_gone(text@, self.api_key@);
        }
        without(text, self.api_key.as_str())
    }

    fn error_without_key(&self, error: VerifyError) -> (r: VerifyError)
        ensures
            r.deep_view() == error.deep_view().without_key(self.api_key@),
    {
        match error {
            VerifyError::Transport(message) => VerifyError::Transport(self.without_key(message)),
            VerifyError::Upstream { status, message } => VerifyError::Upstream {
                status,
                message: self.without_key(message),
            },
            VerifyError::Decode(message) => VerifyError::Decode(self.without_key(message)),
        }
    }

    /// The attempt that a sent request and its reply make, judged at a given
    /// time. What an error says is saved and shown, so the bearer token is cut
    /// out of it.
    pub fn attempt_at(&self, request: JevRequest, reply: JevReply, checked_at: Timestamp) -> (r:
        JevAttempt)
        ensures
            r.deep_view() == check_attempt(
                self.api_key@,
                request.deep_view(),
                reply,
                checked_at,
            ),
    {
        let (http_status, result) = match reply {
            JevReply::NoResponse { error } => (None, Err(VerifyError::Transport(error))),
            JevReply::NoBody { status, error } => (
                Some(status),
                Err(VerifyError::Transport(error)),
            ),
            JevReply::Answer { status, body, failure, payload } => (
                Some(status),
                parse_response_at(status, body.as_str(), failure, payload, checked_at),
            ),
        };
        let result = match result {
            Ok(verification) => Ok(verification),
            Err(error) => Err(self.error_without_key(error)),
        };
        JevAttempt { request, http_status, result }
    }

    /// The attempt that a sent request and its reply make, judged now.
    pub fn attempt(&self, request: JevRequest, reply: JevReply) -> (r: JevAttempt)
        ensures
            exists|checked_at: Timestamp|
                #![trigger clock_time(checked_at)]
                clock_time(checked_at) && r.deep_view() == check_attempt(
                    self.api_key@,
                    request.deep_view(),
                    reply,
                    checked_at,
                ),
    {
        self.attempt_at(request, reply, now())
    }
}

} // verus!
