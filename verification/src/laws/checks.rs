//! What the answer check is asked, and what its answer means.
use vstd::prelude::*;

use crate::models::JevRequestView;
use crate::models::Timestamp;
use crate::models::VerificationView;
use crate::text::cut_out;
use crate::text::decimal;
use crate::verify::answer_under;
use crate::verify::check_attempt;
use crate::verify::check_result;
use crate::verify::failure_text;
use crate::verify::instructions_for;
use crate::verify::jev_reply_result;
use crate::verify::jev_request;
use crate::verify::JevAnswerView;
use crate::verify::JevErrorView;
use crate::verify::JevReply;
use crate::verify::JevResponseView;
use crate::verify::VerifyErrorView;

verus! {

/// The check is asked about the whole text, with the whole name and the whole
/// company in its question.
pub proof fn the_check_is_asked_about_the_whole_text(
    base_url: Seq<char>,
    text: Seq<char>,
    name: Seq<char>,
    company: Seq<char>,
    id: u128,
    sent_at: Timestamp,
)
    ensures
        ({
            let request = jev_request(base_url, text, name, company, id, sent_at);
            &&& request.id == id
            &&& request.endpoint == base_url + "/v1/systemone"@
            &&& request.model == "jev-latest"@
            &&& request.question_key == "answers_job_title"@
            &&& request.instructions
                == "Does this text answer the question What is the job title of "@ + name + " at "@
                + company + "?"@
            &&& request.state == text
            &&& request.sent_at == sent_at
        }),
        instructions_for(name, company)
            == "Does this text answer the question What is the job title of "@ + name + " at "@
            + company + "?"@,
{
}

/// Whether an answer is the last one under a key.
pub open spec fn last_under(
    answers: Seq<(Seq<char>, JevAnswerView)>,
    key: Seq<char>,
    at: int,
) -> bool {
    &&& 0 <= at < answers.len()
    &&& answers[at].0 == key
    &&& forall|k: int| at < k < answers.len() ==> (#[trigger] answers[k]).0 != key
}

/// The answer under a key is the last one that has it; there is none just when
/// no answer has the key.
pub proof fn the_last_answer_counts(answers: Seq<(Seq<char>, JevAnswerView)>, key: Seq<char>, at: int)
    ensures
        last_under(answers, key, at) ==> answer_under(answers, key) == Some(answers[at].1),
        answer_under(answers, key) is None <==> forall|k: int|
            0 <= k < answers.len() ==> (#[trigger] answers[k]).0 != key,
    decreases answers.len(),
{
    if answers.len() > 0 {
        let less = answers.drop_last();
        let last = answers.len() - 1;
        the_last_answer_counts(less, key, at);
        assert forall|k: int| 0 <= k < last implies less[k] == #[trigger] answers[k] by {}
        if answers[last].0 != key {
            if last_under(answers, key, at) {
                assert forall|k: int| at < k < less.len() implies (#[trigger] less[k]).0 != key by {
                    assert(answers[k].0 != key);
                }
                assert(last_under(less, key, at));
            }
            if answer_under(answers, key) is None {
                assert forall|k: int| 0 <= k < answers.len() implies (#[trigger] answers[k]).0
                    != key by {
                    if k < last {
                        assert(less[k].0 != key);
                    }
                }
            }
            if forall|k: int| 0 <= k < answers.len() ==> (#[trigger] answers[k]).0 != key {
                assert forall|k: int| 0 <= k < less.len() implies (#[trigger] less[k]).0 != key by {
                    assert(answers[k].0 != key);
                }
            }
        } else {
            assert(!(forall|k: int| 0 <= k < answers.len() ==> (#[trigger] answers[k]).0 != key))
                by {
                assert(answers[last].0 == key);
            }
        }
    }
}

/// What is said of an error response is its kind and its message, whichever of
/// them there are; where it could not be understood, its body up to the first two
/// hundred characters.
pub proof fn failures_say_all_there_is(
    kind: Seq<char>,
    message: Seq<char>,
    body: Seq<char>,
)
    ensures
        failure_text(
            Some(JevErrorView { error_type: Some(kind), message: Some(message) }),
            body,
        ) == kind + ": "@ + message,
        failure_text(Some(JevErrorView { error_type: None, message: Some(message) }), body)
            == message,
        failure_text(Some(JevErrorView { error_type: Some(kind), message: None }), body) == kind,
        failure_text(Some(JevErrorView { error_type: None, message: None }), body)
            == "unknown error"@,
        body.len() <= 200 ==> failure_text(None, body) == body,
        body.len() > 200 ==> failure_text(None, body) == body.subrange(0, 200),
{
    if body.len() > 200 {
        assert(body.take(200) =~= body.subrange(0, 200));
    }
}

/// A response without success is an error with its status, however its body was
/// understood; one whose answers could not be understood says why.
pub proof fn responses_without_answers_are_errors(
    status: u16,
    body: Seq<char>,
    failure: Option<JevErrorView>,
    payload: Result<JevResponseView, Seq<char>>,
    checked_at: Timestamp,
)
    ensures
        !(200 <= status < 300) ==> check_result(status, body, failure, payload, checked_at) == Err::<
            VerificationView,
            VerifyErrorView,
        >(VerifyErrorView::Upstream { status, message: failure_text(failure, body) }),
        200 <= status < 300 && payload is Err ==> check_result(
            status,
            body,
            failure,
            payload,
            checked_at,
        ) == Err::<VerificationView, VerifyErrorView>(VerifyErrorView::Decode(payload->Err_0)),
{
}

/// The verdict of a successful response is the score of the last answer under
/// the key of the question, with the model of the response and the time. The
/// score answers the question from the bits of one half on; one that is not
/// between zero and one is an error, and so is none.
pub proof fn verdicts_are_the_score_that_is_given(
    status: u16,
    body: Seq<char>,
    failure: Option<JevErrorView>,
    response: JevResponseView,
    checked_at: Timestamp,
    at: int,
)
    requires
        200 <= status < 300,
    ensures
        ({
            let result = check_result(status, body, failure, Ok(response), checked_at);
            let given = response.answers[at].1;
            let score = given.noul;
            let possible = score.bits <= 0x3ff0_0000_0000_0000 || score.bits
                == 0x8000_0000_0000_0000;
            &&& last_under(response.answers, "answers_job_title"@, at) && possible ==> result
                == Ok::<VerificationView, VerifyErrorView>(
                VerificationView::Checked {
                    score,
                    answers_question: 0x3fe0_0000_0000_0000 <= score.bits < 0x8000_0000_0000_0000,
                    model: response.model,
                    checked_at,
                },
            )
            &&& last_under(response.answers, "answers_job_title"@, at) && !possible ==> result
                == Err::<VerificationView, VerifyErrorView>(
                VerifyErrorView::Decode("score "@ + given.written + " is outside 0..=1"@),
            )
            &&& (forall|k: int|
                0 <= k < response.answers.len() ==> (#[trigger] response.answers[k]).0
                    != "answers_job_title"@) ==> result == Err::<VerificationView, VerifyErrorView>(
                VerifyErrorView::Decode(
                    "response has no `"@ + "answers_job_title"@ + "` answer"@,
                ),
            )
        }),
{
    the_last_answer_counts(response.answers, "answers_job_title"@, at);
}

/// A reply without a response has no status; any other has that of its response.
/// Without a body it is a failure of the transport, and with one it is what the
/// body means.
pub proof fn check_replies_keep_their_status(reply: JevReply, checked_at: Timestamp)
    ensures
        reply matches JevReply::NoResponse { error } ==> {
            &&& jev_reply_result(reply, checked_at).0 is None
            &&& jev_reply_result(reply, checked_at).1 matches Err(
                VerifyErrorView::Transport(message),
            )
            &&& message == error@
        },
        reply matches JevReply::NoBody { status, error } ==> {
            &&& jev_reply_result(reply, checked_at).0 == Some(status)
            &&& jev_reply_result(reply, checked_at).1 matches Err(
                VerifyErrorView::Transport(message),
            )
            &&& message == error@
        },
        reply matches JevReply::Answer { status, body, failure, payload } ==> {
            &&& jev_reply_result(reply, checked_at).0 == Some(status)
            &&& payload matches Ok(response) ==> jev_reply_result(reply, checked_at).1
                == check_result(
                status,
                body@,
                failure.deep_view(),
                Ok(response.deep_view()),
                checked_at,
            )
            &&& payload matches Err(error) ==> jev_reply_result(reply, checked_at).1
                == check_result(status, body@, failure.deep_view(), Err(error@), checked_at)
        },
{
}

/// An attempt keeps the request that was sent, the status and the verdict of its
/// reply. Of an error only the key is cut out: its kind and its status stay.
pub proof fn check_attempts_keep_what_came_back(
    key: Seq<char>,
    request: JevRequestView,
    reply: JevReply,
    checked_at: Timestamp,
)
    ensures
        ({
            let attempt = check_attempt(key, request, reply, checked_at);
            let came_back = jev_reply_result(reply, checked_at).1;
            &&& attempt.request == request
            &&& attempt.http_status == jev_reply_result(reply, checked_at).0
            &&& came_back is Ok ==> attempt.result == came_back
            &&& came_back matches Err(VerifyErrorView::Transport(message)) ==> attempt.result
                == Err::<VerificationView, VerifyErrorView>(
                VerifyErrorView::Transport(cut_out(message, key)),
            )
            &&& came_back matches Err(VerifyErrorView::Upstream { status, message })
                ==> attempt.result == Err::<VerificationView, VerifyErrorView>(
                VerifyErrorView::Upstream { status, message: cut_out(message, key) },
            )
            &&& came_back matches Err(VerifyErrorView::Decode(message)) ==> attempt.result == Err::<
                VerificationView,
                VerifyErrorView,
            >(VerifyErrorView::Decode(cut_out(message, key)))
        }),
{
}

/// A failed check in words ends with the whole of its message, and says the
/// status where there is one.
pub proof fn check_errors_end_with_their_message(status: u16, message: Seq<char>)
    ensures
        VerifyErrorView::Transport(message).text() == "Jev request failed: "@ + message,
        (VerifyErrorView::Upstream { status, message }).text() == "Jev returned "@ + decimal(
            status as nat,
        ) + ": "@ + message,
        VerifyErrorView::Decode(message).text() == "could not parse Jev response: "@ + message,
{
}

} // verus!
