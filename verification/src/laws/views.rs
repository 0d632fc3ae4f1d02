//! What a value says is all that it holds.
use vstd::prelude::*;

use crate::error::ApiError;
use crate::error::ApiErrorView;
use crate::handlers::LookupStep;
use crate::handlers::StepView;
use crate::models::result_view;
use crate::models::ExtractedTitle;
use crate::models::GlinerOutcome;
use crate::models::GlinerOutcomeView;
use crate::models::GlinerRequest;
use crate::models::GlinerRequestLog;
use crate::models::GlinerSpan;
use crate::models::JevOutcome;
use crate::models::JevOutcomeView;
use crate::models::JevRequest;
use crate::models::JevRequestLog;
use crate::models::RequestOutcome;
use crate::models::RequestOutcomeView;
use crate::models::SearchHit;
use crate::models::SerpRequest;
use crate::models::SerpRequestLog;
use crate::models::TitleLookup;
use crate::models::TitleRecord;
use crate::models::Verification;
use crate::models::VerificationView;
use crate::ner::Candidate;
use crate::ner::ExtractError;
use crate::ner::ExtractionAttempt;
use crate::ner::ExtractionOutput;
use crate::ner::FoundSpan;
use crate::ner::ModelReply;
use crate::ner::ModelReplyView;
use crate::search::AnswerBox;
use crate::search::OrganicResult;
use crate::search::SearchAttempt;
use crate::search::SearchError;
use crate::search::SearchErrorView;
use crate::search::SerpApiResponse;
use crate::store::read_lines_view;
use crate::store::ChosenTitle;
use crate::store::LogLine;
use crate::store::LogLineView;
use crate::store::ReadLine;
use crate::store::StoreView;
use crate::store::StoredSearch;
use crate::verify::JevAnswer;
use crate::verify::JevAttempt;
use crate::verify::JevErrorDetail;
use crate::verify::JevResponse;
use crate::verify::VerifyError;
use crate::verify::VerifyErrorView;

verus! {

/// A result says what the value or the error in it says.
pub proof fn results_say_what_is_in_them<T: DeepView, E: DeepView>(value: T, error: E)
    ensures
        result_view(Ok::<T, E>(value)) == Ok::<T::V, E::V>(value.deep_view()),
        result_view(Err::<T, E>(error)) == Err::<T::V, E::V>(error.deep_view()),
{
}

/// A record says its identifier, its name, its company and its title.
pub proof fn records_say_all(record: TitleRecord)
    ensures
        record.deep_view().id == record.id,
        record.deep_view().name == record.name@,
        record.deep_view().company == record.company@,
        record.deep_view().title == record.title@,
{
}

/// A hit says its title, its link and its snippet.
pub proof fn hits_say_all(hit: SearchHit)
    ensures
        hit.deep_view().title == hit.title@,
        hit.deep_view().link == hit.link@,
        hit.deep_view().snippet == hit.snippet@,
{
}

/// A search request says all that it was sent with.
pub proof fn search_requests_say_all(request: SerpRequest)
    ensures
        request.deep_view().id == request.id,
        request.deep_view().endpoint == request.endpoint@,
        request.deep_view().engine == request.engine@,
        request.deep_view().query == request.query@,
        request.deep_view().num == request.num,
        request.deep_view().sent_at == request.sent_at,
{
}

/// A check's request says all that it was sent with.
pub proof fn check_requests_say_all(request: JevRequest)
    ensures
        request.deep_view().id == request.id,
        request.deep_view().endpoint == request.endpoint@,
        request.deep_view().model == request.model@,
        request.deep_view().question_key == request.question_key@,
        request.deep_view().instructions == request.instructions@,
        request.deep_view().state == request.state@,
        request.deep_view().sent_at == request.sent_at,
{
}

/// An extraction's request says all that it was given.
pub proof fn extraction_requests_say_all(request: GlinerRequest)
    ensures
        request.deep_view().id == request.id,
        request.deep_view().model == request.model@,
        request.deep_view().labels.len() == request.labels@.len(),
        forall|i: int|
            0 <= i < request.labels@.len() ==> #[trigger] request.deep_view().labels[i]
                == request.labels@[i]@,
        request.deep_view().threshold == request.threshold,
        request.deep_view().searched_name == request.searched_name@,
        request.deep_view().inputs.len() == request.inputs@.len(),
        forall|i: int|
            0 <= i < request.inputs@.len() ==> #[trigger] request.deep_view().inputs[i]
                == request.inputs@[i]@,
        request.deep_view().started_at == request.started_at,
{
}

/// A span says where it stands, its text, its label, how sure it is and whose it
/// is; and so do a candidate and a span as reported.
pub proof fn spans_say_all(span: GlinerSpan, candidate: Candidate, found: FoundSpan)
    ensures
        span.deep_view().input == span.input,
        span.deep_view().start == span.start,
        span.deep_view().end == span.end,
        span.deep_view().text == span.text@,
        span.deep_view().label == span.label@,
        span.deep_view().probability == span.probability,
        span.deep_view().attribution == span.attribution,
        candidate.deep_view().sequence == candidate.sequence,
        candidate.deep_view().start == candidate.start,
        candidate.deep_view().end == candidate.end,
        candidate.deep_view().text == candidate.text@,
        candidate.deep_view().kind == candidate.kind,
        candidate.deep_view().probability == candidate.probability,
        found.deep_view().sequence == found.sequence,
        found.deep_view().start == found.start,
        found.deep_view().end == found.end,
        found.deep_view().text == found.text@,
        found.deep_view().class == found.class@,
        found.deep_view().probability == found.probability,
{
}

/// A title that was extracted says its text and how sure it is; a title that was
/// chosen, its text, its source and its confidence.
pub proof fn titles_say_all(title: ExtractedTitle, chosen: ChosenTitle)
    ensures
        title.deep_view().text == title.text@,
        title.deep_view().probability == title.probability,
        chosen.text matches Some(text) ==> chosen.deep_view().text == Some(text@),
        chosen.text is None ==> chosen.deep_view().text is None,
        chosen.deep_view().source == chosen.source,
        chosen.deep_view().confidence == chosen.confidence,
{
}

/// What a search, a check and an extraction ended with is said as it is.
pub proof fn outcomes_say_all(search: RequestOutcome, check: JevOutcome, extraction: GlinerOutcome)
    ensures
        search matches RequestOutcome::Succeeded { hit_count } ==> search.deep_view()
            == (RequestOutcomeView::Succeeded { hit_count: hit_count as nat }),
        search matches RequestOutcome::Failed { message } ==> search.deep_view()
            == (RequestOutcomeView::Failed { message: message@ }),
        check matches JevOutcome::Succeeded { score, answers_question, model } ==> check.deep_view()
            == (JevOutcomeView::Succeeded { score, answers_question, model: model@ }),
        check matches JevOutcome::Failed { message } ==> check.deep_view()
            == (JevOutcomeView::Failed { message: message@ }),
        extraction matches GlinerOutcome::Succeeded { spans, chosen } ==> extraction.deep_view()
            == (GlinerOutcomeView::Succeeded {
            spans: spans.deep_view(),
            chosen: chosen.deep_view(),
        }),
        extraction matches GlinerOutcome::Failed { message } ==> extraction.deep_view()
            == (GlinerOutcomeView::Failed { message: message@ }),
{
}

/// A saved check and a saved extraction say the search they belong to, their
/// request and how they ended.
pub proof fn nested_entries_say_all(check: JevRequestLog, extraction: GlinerRequestLog)
    ensures
        check.deep_view().serp_request_id == check.serp_request_id,
        check.deep_view().request == check.request.deep_view(),
        check.deep_view().http_status == check.http_status,
        check.deep_view().outcome == check.outcome.deep_view(),
        extraction.deep_view().serp_request_id == extraction.serp_request_id,
        extraction.deep_view().request == extraction.request.deep_view(),
        extraction.deep_view().duration_ms == extraction.duration_ms,
        extraction.deep_view().outcome == extraction.outcome.deep_view(),
{
}

/// A saved search says its request, its status, how it ended and what is nested
/// under it.
pub proof fn entries_say_all(log: SerpRequestLog)
    ensures
        log.deep_view().request == log.request.deep_view(),
        log.deep_view().http_status == log.http_status,
        log.deep_view().outcome == log.outcome.deep_view(),
        log.jev matches Some(check) ==> log.deep_view().jev == Some(check.deep_view()),
        log.jev is None ==> log.deep_view().jev is None,
        log.gliner matches Some(extraction) ==> log.deep_view().gliner == Some(
            extraction.deep_view(),
        ),
        log.gliner is None ==> log.deep_view().gliner is None,
{
}

/// A line of the log says what its entry says, and of which kind it is; lines as
/// read say their numbers too.
pub proof fn lines_say_all(line: LogLine, lines: Seq<ReadLine>, at: int)
    ensures
        line matches LogLine::Serp(log) ==> line.deep_view() == LogLineView::Serp(log.deep_view()),
        line matches LogLine::Jev(log) ==> line.deep_view() == LogLineView::Jev(log.deep_view()),
        line matches LogLine::Gliner(log) ==> line.deep_view() == LogLineView::Gliner(
            log.deep_view(),
        ),
        read_lines_view(lines).len() == lines.len(),
        0 <= at < lines.len() ==> read_lines_view(lines)[at].0 == lines[at].0,
        0 <= at < lines.len() ==> (lines[at].1 matches Ok(read) ==> read_lines_view(lines)[at].1
            == Ok::<LogLineView, Seq<char>>(read.deep_view())),
        0 <= at < lines.len() ==> (lines[at].1 matches Err(message) ==> read_lines_view(lines)[at].1
            == Err::<LogLineView, Seq<char>>(message@)),
{
}

/// A verification says its verdict, or why there is none.
pub proof fn verifications_say_all(verification: Verification)
    ensures
        verification matches Verification::Checked { score, answers_question, model, checked_at }
            ==> verification.deep_view() == (VerificationView::Checked {
            score,
            answers_question,
            model: model@,
            checked_at,
        }),
        verification matches Verification::Failed { message } ==> verification.deep_view()
            == (VerificationView::Failed { message: message@ }),
        verification matches Verification::Skipped { reason } ==> verification.deep_view()
            == (VerificationView::Skipped { reason: reason@ }),
{
}

/// An answer says all of its fields.
pub proof fn answers_say_all(lookup: TitleLookup)
    ensures
        lookup.deep_view().name == lookup.name@,
        lookup.deep_view().company == lookup.company@,
        lookup.title matches Some(title) ==> lookup.deep_view().title == Some(title@),
        lookup.title is None ==> lookup.deep_view().title is None,
        lookup.deep_view().title_source == lookup.title_source,
        lookup.deep_view().title_confidence == lookup.title_confidence,
        lookup.deep_view().source == lookup.source,
        lookup.query matches Some(query) ==> lookup.deep_view().query == Some(query@),
        lookup.query is None ==> lookup.deep_view().query is None,
        lookup.deep_view().hits.len() == lookup.hits@.len(),
        forall|i: int|
            0 <= i < lookup.hits@.len() ==> #[trigger] lookup.deep_view().hits[i]
                == lookup.hits@[i].deep_view(),
        lookup.verification matches Some(said) ==> lookup.deep_view().verification == Some(
            said.deep_view(),
        ),
        lookup.verification is None ==> lookup.deep_view().verification is None,
        lookup.deep_view().retrieved_at == lookup.retrieved_at,
{
}

/// A stored search says all of its fields.
pub proof fn stored_searches_say_all(stored: StoredSearch)
    ensures
        stored.deep_view().request == stored.request.deep_view(),
        stored.title matches Some(title) ==> stored.deep_view().title == Some(title@),
        stored.title is None ==> stored.deep_view().title is None,
        stored.deep_view().title_source == stored.title_source,
        stored.deep_view().title_confidence == stored.title_confidence,
        stored.deep_view().hits.len() == stored.hits@.len(),
        forall|i: int|
            0 <= i < stored.hits@.len() ==> #[trigger] stored.deep_view().hits[i]
                == stored.hits@[i].deep_view(),
        stored.deep_view().verification == stored.verification.deep_view(),
        stored.deep_view().retrieved_at == stored.retrieved_at,
{
}

/// An error says of which kind it is, its status where it has one, and the whole
/// of its message.
pub proof fn errors_say_all(api: ApiError, search: SearchError, check: VerifyError, extract: ExtractError)
    ensures
        api matches ApiError::NotFound(message) ==> api.deep_view() == ApiErrorView::NotFound(
            message@,
        ),
        api matches ApiError::BadRequest(message) ==> api.deep_view() == ApiErrorView::BadRequest(
            message@,
        ),
        api matches ApiError::Upstream(message) ==> api.deep_view() == ApiErrorView::Upstream(
            message@,
        ),
        search matches SearchError::Transport(message) ==> search.deep_view()
            == SearchErrorView::Transport(message@),
        search matches SearchError::Upstream { status, message } ==> search.deep_view()
            == (SearchErrorView::Upstream { status, message: message@ }),
        search matches SearchError::Decode(message) ==> search.deep_view()
            == SearchErrorView::Decode(message@),
        check matches VerifyError::Transport(message) ==> check.deep_view()
            == VerifyErrorView::Transport(message@),
        check matches VerifyError::Upstream { status, message } ==> check.deep_view()
            == (VerifyErrorView::Upstream { status, message: message@ }),
        check matches VerifyError::Decode(message) ==> check.deep_view() == VerifyErrorView::Decode(
            message@,
        ),
        extract.deep_view() == extract.0@,
{
}

/// An attempt says its request, its status or duration, and its result.
pub proof fn attempts_say_all(
    search: SearchAttempt,
    check: JevAttempt,
    extraction: ExtractionAttempt,
)
    ensures
        search.deep_view().request == search.request.deep_view(),
        search.deep_view().http_status == search.http_status,
        search.deep_view().result == result_view(search.result),
        check.deep_view().request == check.request.deep_view(),
        check.deep_view().http_status == check.http_status,
        check.deep_view().result == result_view(check.result),
        extraction.deep_view().request == extraction.request.deep_view(),
        extraction.deep_view().duration_ms == extraction.duration_ms,
        extraction.deep_view().result == result_view(extraction.result),
{
}

/// A search response says its error, its answer box and each of its results.
pub proof fn search_responses_say_all(response: SerpApiResponse, said: AnswerBox, result: OrganicResult)
    ensures
        response.error matches Some(error) ==> response.deep_view().error == Some(error@),
        response.error is None ==> response.deep_view().error is None,
        response.answer_box matches Some(answer_box) ==> response.deep_view().answer_box == Some(
            answer_box.deep_view(),
        ),
        response.answer_box is None ==> response.deep_view().answer_box is None,
        response.deep_view().organic_results.len() == response.organic_results@.len(),
        forall|i: int|
            0 <= i < response.organic_results@.len()
                ==> #[trigger] response.deep_view().organic_results[i]
                == response.organic_results@[i].deep_view(),
        said.deep_view().title == said.title.deep_view(),
        said.deep_view().link == said.link.deep_view(),
        said.deep_view().answer == said.answer.deep_view(),
        said.deep_view().snippet == said.snippet.deep_view(),
        said.deep_view().result == said.result.deep_view(),
        result.deep_view().title == result.title.deep_view(),
        result.deep_view().link == result.link.deep_view(),
        result.deep_view().snippet == result.snippet.deep_view(),
{
}

/// A response of the check says its model and each of its answers, under its key
/// and as written; and an error of it, its kind and its message.
pub proof fn check_responses_say_all(response: JevResponse, answer: JevAnswer, error: JevErrorDetail)
    ensures
        response.deep_view().model == response.model@,
        response.deep_view().answers.len() == response.answers@.len(),
        forall|i: int|
            #![trigger response.deep_view().answers[i]]
            0 <= i < response.answers@.len() ==> response.deep_view().answers[i].0
                == response.answers@[i].0@ && response.deep_view().answers[i].1
                == response.answers@[i].1.deep_view(),
        answer.deep_view().noul == answer.noul,
        answer.deep_view().written == answer.written@,
        error.deep_view().error_type == error.error_type.deep_view(),
        error.deep_view().message == error.message.deep_view(),
{
}

/// What a model replies is said as it is; and so is what an extraction found.
pub proof fn replies_say_all(reply: ModelReply, output: ExtractionOutput)
    ensures
        reply matches ModelReply::Spans(spans) ==> (reply.deep_view() matches ModelReplyView::Spans(
            said,
        ) && said.len() == spans@.len() && forall|i: int|
            0 <= i < spans@.len() ==> #[trigger] said[i] == spans@[i].deep_view()),
        reply matches ModelReply::Failed { error } ==> reply.deep_view()
            == (ModelReplyView::Failed { error: error@ }),
        reply matches ModelReply::Panicked { error } ==> reply.deep_view()
            == (ModelReplyView::Panicked { error: error@ }),
        output.deep_view().spans.len() == output.spans@.len(),
        forall|i: int|
            0 <= i < output.spans@.len() ==> #[trigger] output.deep_view().spans[i]
                == output.spans@[i].deep_view(),
        output.chosen matches Some(title) ==> output.deep_view().chosen == Some(title.deep_view()),
        output.chosen is None ==> output.deep_view().chosen is None,
{
}

/// A step of a lookup says all that the next one needs.
pub proof fn steps_say_all(step: LookupStep)
    ensures
        step matches LookupStep::Done(result) ==> step.deep_view() == StepView::Done(
            result_view(result),
        ),
        step matches LookupStep::Search(pending) ==> step.deep_view() == (StepView::Search {
            name: pending.name@,
            company: pending.company@,
            query: pending.query@,
        }),
        step matches LookupStep::Check(pending) ==> step.deep_view() == (StepView::Check {
            name: pending.name@,
            company: pending.company@,
            request: pending.request.deep_view(),
            hits: pending.hits.deep_view(),
            text: pending.text@,
        }),
        step matches LookupStep::Extract(pending) ==> step.deep_view() == (StepView::Extract {
            name: pending.name@,
            company: pending.company@,
            request: pending.request.deep_view(),
            hits: pending.hits.deep_view(),
            verification: pending.verification.deep_view(),
        }),
{
}

/// A store is well formed just when each curated title is kept under its own
/// identifier; one more under its own identifier keeps it so.
pub proof fn titles_are_kept_under_their_own_identifier(store: StoreView, record: TitleRecord)
    ensures
        store.well_formed() <==> forall|id: u128| #[trigger]
            store.records.contains_key(id) ==> store.records[id].id == id,
        store.well_formed() ==> (StoreView {
            records: store.records.insert(record.id, record.deep_view()),
            ..store
        }).well_formed(),
{
}

} // verus!
