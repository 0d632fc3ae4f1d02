//! The API key and the bearer token are never written.
use vstd::prelude::*;

use crate::handlers::after_search;
use crate::handlers::verification_of;
use crate::handlers::StepView;
use crate::models::JevLogView;
use crate::models::JevOutcomeView;
use crate::models::JevRequestView;
use crate::models::RequestOutcomeView;
use crate::models::SerpLogView;
use crate::models::SerpRequestView;
use crate::models::Timestamp;
use crate::models::VerificationView;
use crate::search::reply_result;
use crate::search::search_attempt;
use crate::search::SearchErrorView;
use crate::search::SearchReply;
use crate::store::jev_log;
use crate::store::serp_log;
use crate::store::StoreView;
use crate::text::cut_out;
use crate::text::decimal;
use crate::text::found_at;
use crate::text::holds;
use crate::text::what_is_cut_out_is_gone;
use crate::verify::check_attempt;
use crate::verify::jev_reply_result;
use crate::verify::JevReply;
use crate::verify::VerifyErrorView;

verus! {

/// Whether a key stands apart from words that a message follows: it is no part
/// of them, and they do not end with its beginning.
pub open spec fn apart_from(before: Seq<char>, key: Seq<char>) -> bool {
    &&& !holds(before, key)
    &&& forall|k: int|
        0 < k < key.len() && k <= before.len() ==> before.skip(before.len() - k)
            != #[trigger] key.take(k)
}

/// The library's own words before the message of a failed search.
pub open spec fn words_of_search_error(error: SearchErrorView) -> Seq<char> {
    match error {
        SearchErrorView::Transport(_) => "search request failed: "@,
        SearchErrorView::Upstream { status, .. } => "search provider returned "@ + decimal(
            status as nat,
        ) + ": "@,
        SearchErrorView::Decode(_) => "could not parse search response: "@,
    }
}

/// The library's own words before the message of a failed check.
pub open spec fn words_of_check_error(error: VerifyErrorView) -> Seq<char> {
    match error {
        VerifyErrorView::Transport(_) => "Jev request failed: "@,
        VerifyErrorView::Upstream { status, .. } => "Jev returned "@ + decimal(status as nat)
            + ": "@,
        VerifyErrorView::Decode(_) => "could not parse Jev response: "@,
    }
}

/// Whether a request to the search provider holds a key.
pub open spec fn search_request_holds(request: SerpRequestView, key: Seq<char>) -> bool {
    holds(request.endpoint, key) || holds(request.engine, key) || holds(request.query, key)
}

/// Whether a saved search holds a key, before anything is nested under it.
pub open spec fn search_entry_holds(log: SerpLogView, key: Seq<char>) -> bool {
    ||| search_request_holds(log.request, key)
    ||| (log.outcome matches RequestOutcomeView::Failed { message } && holds(message, key))
    ||| log.jev is Some
    ||| log.gliner is Some
}

/// Whether a request to the answer check holds a key.
pub open spec fn check_request_holds(request: JevRequestView, key: Seq<char>) -> bool {
    ||| holds(request.endpoint, key)
    ||| holds(request.model, key)
    ||| holds(request.question_key, key)
    ||| holds(request.instructions, key)
    ||| holds(request.state, key)
}

/// Whether a saved check holds a key.
pub open spec fn check_entry_holds(log: JevLogView, key: Seq<char>) -> bool {
    ||| check_request_holds(log.request, key)
    ||| (log.outcome matches JevOutcomeView::Failed { message } && holds(message, key))
    ||| (log.outcome matches JevOutcomeView::Succeeded { model, .. } && holds(model, key))
}

proof fn lemma_not_across(before: Seq<char>, message: Seq<char>, key: Seq<char>)
    requires
        apart_from(before, key),
        !holds(message, key),
    ensures
        !holds(before + message, key),
{
    let all = before + message;
    let count = before.len() as int;
    assert forall|at: int| !#[trigger] found_at(all, key, at) by {
        if found_at(all, key, at) {
            let part = all.subrange(at, at + key.len());
            if at + key.len() <= count {
                assert(before.subrange(at, at + key.len()) =~= part);
                assert(found_at(before, key, at));
            } else if at >= count {
                assert(message.subrange(at - count, at - count + key.len()) =~= part);
                assert(found_at(message, key, at - count));
            } else {
                let k = count - at;
                assert(before.skip(count - k) =~= key.take(k));
            }
        }
    }
}

proof fn lemma_search_error(error: SearchErrorView, key: Seq<char>)
    requires
        key.len() > 0,
        apart_from(words_of_search_error(error), key),
    ensures
        !holds(error.without_key(key).text(), key),
{
    let message = match error {
        SearchErrorView::Transport(message) => message,
        SearchErrorView::Upstream { message, .. } => message,
        SearchErrorView::Decode(message) => message,
    };
    what_is_cut_out_is_gone(message, key);
    lemma_not_across(words_of_search_error(error), cut_out(message, key), key);
}

proof fn lemma_check_error(error: VerifyErrorView, key: Seq<char>)
    requires
        key.len() > 0,
        apart_from(words_of_check_error(error), key),
    ensures
        !holds(error.without_key(key).text(), key),
{
    let message = match error {
        VerifyErrorView::Transport(message) => message,
        VerifyErrorView::Upstream { message, .. } => message,
        VerifyErrorView::Decode(message) => message,
    };
    what_is_cut_out_is_gone(message, key);
    lemma_not_across(words_of_check_error(error), cut_out(message, key), key);
}

/// The API key is never written: whatever came back for a request, the entry
/// that saves the search does not hold it, and neither does the error that the
/// lookup is answered with. The question, the address and the library's own
/// words are not made from the key, and are not to hold it by chance, nor to end
/// where it begins.
pub proof fn saved_searches_hold_no_key(
    key: Seq<char>,
    request: SerpRequestView,
    reply: SearchReply,
    store: StoreView,
    name: Seq<char>,
    company: Seq<char>,
    at: Timestamp,
)
    requires
        key.len() > 0,
        reply_result(reply).1 matches Err(error) ==> apart_from(words_of_search_error(error), key),
        !search_request_holds(request, key),
    ensures
        !search_entry_holds(serp_log(search_attempt(key, request, reply)), key),
        after_search(store, name, company, search_attempt(key, request, reply), at).1
            matches StepView::Done(Err(error)) ==> !holds(error.message(), key),
{
    match reply_result(reply).1 {
        Ok(_) => {},
        Err(error) => {
            lemma_search_error(error, key);
        },
    }
}

/// The bearer token is never written: whatever came back for a request, the
/// entry that saves the check does not hold it, and neither does the
/// verification that a failed check gives. The text, the question, the address,
/// the name of the model and the library's own words are not made from the
/// token, and are not to hold it by chance, nor to end where it begins.
pub proof fn saved_checks_hold_no_key(
    key: Seq<char>,
    serp_request_id: u128,
    request: JevRequestView,
    reply: JevReply,
    checked_at: Timestamp,
)
    requires
        key.len() > 0,
        jev_reply_result(reply, checked_at).1 matches Err(error) ==> apart_from(
            words_of_check_error(error),
            key,
        ),
        !check_request_holds(request, key),
        check_attempt(key, request, reply, checked_at).result
            matches Ok(VerificationView::Checked { model, .. }) ==> !holds(model, key),
    ensures
        !check_entry_holds(
            jev_log(serp_request_id, check_attempt(key, request, reply, checked_at)),
            key,
        ),
        verification_of(check_attempt(key, request, reply, checked_at).result)
            matches VerificationView::Failed { message } ==> !holds(message, key),
{
    match jev_reply_result(reply, checked_at).1 {
        Ok(_) => {},
        Err(error) => {
            lemma_check_error(error, key);
        },
    }
}

} // verus!
