//! The log file says what the store says: what is written there is read back
//! after a restart.
use vstd::prelude::*;

use crate::error::ApiErrorView;
use crate::handlers::after_check;
use crate::handlers::after_extraction;
use crate::handlers::after_search;
use crate::handlers::check_line;
use crate::handlers::extraction_line;
use crate::handlers::request_answer;
use crate::handlers::search_line;
use crate::handlers::StepView;
use crate::ids::id_written;
use crate::ids::written_id_is_read_back;
use crate::models::HitView;
use crate::models::SerpLogView;
use crate::models::SerpRequestView;
use crate::models::Timestamp;
use crate::models::VerificationView;
use crate::ner::ExtractionAttemptView;
use crate::search::SearchAttemptView;
use crate::store::entry_text;
use crate::store::lemma_loaded_error;
use crate::store::lines_of;
use crate::store::loaded;
use crate::store::located;
use crate::store::newest_first;
use crate::store::newest_with_id;
use crate::store::numbered_lines;
use crate::store::orphan_text;
use crate::store::with_line;
use crate::store::with_line_if_any;
use crate::store::without_return;
use crate::store::LogLineView;
use crate::store::StoreView;
use crate::text::in_class;
use crate::text::lemma_pieces_of_more;
use crate::text::lemma_pieces_some;
use crate::text::pieces;
use crate::text::trimmed;
use crate::text::Class;
use crate::verify::JevAttemptView;

verus! {

/// The lines of a log file, as read.
pub type ReadLines = Seq<(usize, Result<LogLineView, Seq<char>>)>;

/// Whether the lines of a log file amount to the requests that a store holds.
pub open spec fn in_step(path: Seq<char>, lines: ReadLines, store: StoreView) -> bool {
    loaded(path, lines) == Ok::<Seq<SerpLogView>, Seq<char>>(store.requests)
}

/// Whether a request is among the saved ones.
pub open spec fn known(logs: Seq<SerpLogView>, id: u128) -> bool {
    newest_with_id(logs, id) is Some
}

proof fn lemma_newest(logs: Seq<SerpLogView>, id: u128)
    ensures
        match newest_with_id(logs, id) {
            Some(at) => {
                &&& 0 <= at < logs.len()
                &&& logs[at].request.id == id
                &&& forall|k: int| at < k < logs.len() ==> (#[trigger] logs[k]).request.id != id
            },
            None => forall|k: int| 0 <= k < logs.len() ==> (#[trigger] logs[k]).request.id != id,
        },
    decreases logs.len(),
{
    if logs.len() > 0 && logs.last().request.id != id {
        lemma_newest(logs.drop_last(), id);
        let shorter = logs.drop_last();
        assert forall|k: int| 0 <= k < shorter.len() implies shorter[k] == logs[k] by {}
        match newest_with_id(shorter, id) {
            Some(at) => {
                assert forall|k: int| at < k < logs.len() implies (#[trigger] logs[k]).request.id
                    != id by {
                    if k < shorter.len() {
                        assert(shorter[k].request.id != id);
                    }
                }
            },
            None => {
                assert forall|k: int| 0 <= k < logs.len() implies (#[trigger] logs[k]).request.id
                    != id by {
                    if k < shorter.len() {
                        assert(shorter[k].request.id != id);
                    }
                }
            },
        }
    }
}

/// A saved request stays among the saved ones, whatever is recorded after it.
pub proof fn saved_requests_stay(logs: Seq<SerpLogView>, line: LogLineView, id: u128)
    requires
        known(logs, id),
    ensures
        known(with_line_if_any(logs, line), id),
{
    lemma_newest(logs, id);
    let at = newest_with_id(logs, id).unwrap();
    let after = with_line_if_any(logs, line);
    match line {
        LogLineView::Serp(log) => {
            assert(after[at] == logs[at]);
        },
        LogLineView::Jev(log) => {
            lemma_newest(logs, log.serp_request_id);
            assert(after[at].request == logs[at].request);
        },
        LogLineView::Gliner(log) => {
            lemma_newest(logs, log.serp_request_id);
            assert(after[at].request == logs[at].request);
        },
    }
    lemma_newest(after, id);
}

/// A saved request is never rewritten: recording anything adds at most one
/// entry, and of those already there changes no request, status or outcome.
pub proof fn entries_keep_their_request(logs: Seq<SerpLogView>, line: LogLineView, at: int)
    requires
        0 <= at < logs.len(),
    ensures
        logs.len() <= with_line_if_any(logs, line).len() <= logs.len() + 1,
        with_line_if_any(logs, line)[at].request == logs[at].request,
        with_line_if_any(logs, line)[at].http_status == logs[at].http_status,
        with_line_if_any(logs, line)[at].outcome == logs[at].outcome,
{
    match line {
        LogLineView::Serp(log) => {},
        LogLineView::Jev(log) => {
            lemma_newest(logs, log.serp_request_id);
        },
        LogLineView::Gliner(log) => {
            lemma_newest(logs, log.serp_request_id);
        },
    }
}

proof fn lemma_line_keeps_step(
    path: Seq<char>,
    lines: ReadLines,
    logs: Seq<SerpLogView>,
    number: usize,
    line: LogLineView,
)
    requires
        loaded(path, lines) == Ok::<Seq<SerpLogView>, Seq<char>>(logs),
        with_line(logs, line) is Some,
    ensures
        loaded(path, lines.push((number, Ok(line)))) == Ok::<Seq<SerpLogView>, Seq<char>>(
            with_line_if_any(logs, line),
        ),
{
    let longer = lines.push((number, Ok(line)));
    assert(longer.drop_last() =~= lines);
}

/// A search keeps the log file in step with the store, once its line is
/// written; and the request is among the saved ones from there on.
pub proof fn search_survives_a_restart(
    path: Seq<char>,
    lines: ReadLines,
    number: usize,
    store: StoreView,
    name: Seq<char>,
    company: Seq<char>,
    attempt: SearchAttemptView,
    at: Timestamp,
)
    requires
        in_step(path, lines, store),
    ensures
        ({
            let after = after_search(store, name, company, attempt, at);
            &&& in_step(path, lines.push((number, Ok(search_line(attempt)))), after.0)
            &&& known(after.0.requests, attempt.request.id)
            &&& after.1 matches StepView::Check { request, .. } ==> request == attempt.request
        }),
{
    lemma_line_keeps_step(path, lines, store.requests, number, search_line(attempt));
    let after = after_search(store, name, company, attempt, at).0.requests;
    assert(after.last().request.id == attempt.request.id);
}

/// A check keeps the log file in step with the store, once its line is written,
/// when its search is among the saved ones.
pub proof fn check_survives_a_restart(
    path: Seq<char>,
    lines: ReadLines,
    number: usize,
    store: StoreView,
    name: Seq<char>,
    company: Seq<char>,
    request: SerpRequestView,
    hits: Seq<HitView>,
    attempt: JevAttemptView,
    at: Timestamp,
)
    requires
        in_step(path, lines, store),
        known(store.requests, request.id),
    ensures
        ({
            let after = after_check(store, name, company, request, hits, attempt, at);
            &&& in_step(path, lines.push((number, Ok(check_line(request, attempt)))), after.0)
            &&& known(after.0.requests, request.id)
            &&& after.1 matches StepView::Extract { request: next, .. } ==> next == request
        }),
{
    lemma_newest(store.requests, request.id);
    lemma_line_keeps_step(path, lines, store.requests, number, check_line(request, attempt));
    saved_requests_stay(store.requests, check_line(request, attempt), request.id);
}

/// An extraction keeps the log file in step with the store, once its line is
/// written, when its search is among the saved ones.
pub proof fn extraction_survives_a_restart(
    path: Seq<char>,
    lines: ReadLines,
    number: usize,
    store: StoreView,
    name: Seq<char>,
    company: Seq<char>,
    request: SerpRequestView,
    hits: Seq<HitView>,
    verification: VerificationView,
    attempt: ExtractionAttemptView,
    at: Timestamp,
)
    requires
        in_step(path, lines, store),
        known(store.requests, request.id),
    ensures
        ({
            let after = after_extraction(
                store,
                name,
                company,
                request,
                hits,
                verification,
                attempt,
                at,
            );
            &&& in_step(path, lines.push((number, Ok(extraction_line(request, attempt)))), after.0)
            &&& known(after.0.requests, request.id)
        }),
{
    lemma_newest(store.requests, request.id);
    lemma_line_keeps_step(path, lines, store.requests, number, extraction_line(request, attempt));
    saved_requests_stay(store.requests, extraction_line(request, attempt), request.id);
}

/// A check is saved under the newest entry of the search that it judged, and
/// an extraction beside it; nothing else changes.
pub proof fn checks_and_extractions_are_nested(
    logs: Seq<SerpLogView>,
    request: SerpRequestView,
    check: JevAttemptView,
    extraction: ExtractionAttemptView,
)
    requires
        known(logs, request.id),
    ensures
        ({
            let at = newest_with_id(logs, request.id).unwrap();
            let checked = with_line_if_any(logs, check_line(request, check));
            let both = with_line_if_any(checked, extraction_line(request, extraction));
            &&& 0 <= at < logs.len()
            &&& logs[at].request.id == request.id
            &&& both.len() == logs.len()
            &&& both[at].jev == Some(check_line(request, check)->Jev_0)
            &&& both[at].gliner == Some(extraction_line(request, extraction)->Gliner_0)
            &&& both[at].request == logs[at].request
            &&& forall|k: int| 0 <= k < logs.len() && k != at ==> both[k] == #[trigger] logs[k]
        }),
{
    let at = newest_with_id(logs, request.id).unwrap();
    lemma_newest(logs, request.id);
    let checked = with_line_if_any(logs, check_line(request, check));
    lemma_newest(checked, request.id);
    assert(newest_with_id(checked, request.id) == Some(at)) by {
        assert(checked[at].request.id == request.id);
        match newest_with_id(checked, request.id) {
            Some(other) => {
                if other < at {
                    assert(checked[at].request.id != request.id);
                }
                if at < other {
                    assert(checked[other] == logs[other]);
                }
            },
            None => {
                assert(checked[at].request.id != request.id);
            },
        }
    }
}

proof fn lemma_numbered_lines_alike(parts: Seq<Seq<char>>, others: Seq<Seq<char>>, count: int)
    requires
        count < parts.len(),
        count < others.len(),
        forall|i: int| 0 <= i < count ==> parts[i] == #[trigger] others[i],
    ensures
        numbered_lines(parts, count) == numbered_lines(others, count),
    decreases count,
{
    if count > 0 {
        lemma_numbered_lines_alike(parts, others, count - 1);
        assert(parts[count - 1] == others[count - 1]);
    }
}

/// A log file with a line that cannot be understood, or that names no search
/// before it, is refused, and the first such line is named.
pub proof fn first_bad_line_is_named(path: Seq<char>, lines: ReadLines, at: int)
    requires
        0 <= at < lines.len(),
        loaded(path, lines.take(at)) is Ok,
        match lines[at].1 {
            Ok(line) => with_line(loaded(path, lines.take(at))->Ok_0, line) is None,
            Err(_) => true,
        },
    ensures
        loaded(path, lines) == Err::<Seq<SerpLogView>, Seq<char>>(
            located(
                path,
                lines[at].0,
                match lines[at].1 {
                    Ok(line) => orphan_text(line),
                    Err(message) => message,
                },
            ),
        ),
{
    assert(lines.take(at + 1).drop_last() =~= lines.take(at));
    lemma_loaded_error(path, lines, at + 1);
}

/// A log file from before checks and extractions were saved loads unchanged:
/// its searches are the entries, in order.
pub proof fn old_logs_load_unchanged(path: Seq<char>, lines: ReadLines, logs: Seq<SerpLogView>)
    requires
        lines.len() == logs.len(),
        forall|i: int|
            0 <= i < lines.len() ==> (#[trigger] lines[i]).1 == Ok::<LogLineView, Seq<char>>(
                LogLineView::Serp(logs[i]),
            ),
    ensures
        loaded(path, lines) == Ok::<Seq<SerpLogView>, Seq<char>>(logs),
    decreases lines.len(),
{
    if lines.len() == 0 {
        assert(logs =~= Seq::empty());
    } else {
        let last = lines.len() - 1;
        assert forall|i: int| 0 <= i < last implies (#[trigger] lines.drop_last()[i]).1 == Ok::<
            LogLineView,
            Seq<char>,
        >(LogLineView::Serp(logs.drop_last()[i])) by {
            assert(lines[i].1 == Ok::<LogLineView, Seq<char>>(LogLineView::Serp(logs[i])));
        }
        old_logs_load_unchanged(path, lines.drop_last(), logs.drop_last());
        assert(lines[last].1 == Ok::<LogLineView, Seq<char>>(LogLineView::Serp(logs[last])));
        assert(logs.drop_last().push(logs[last]) =~= logs);
    }
}

/// Whether a log file ends where a line does.
pub open spec fn ends_with_a_line(contents: Seq<char>) -> bool {
    contents.len() == 0 || contents.last() == '\n'
}

/// Whether a text is one line that is neither blank nor cut short when read.
pub open spec fn one_line(text: Seq<char>) -> bool {
    !text.contains('\n') && trimmed(text).len() > 0 && text.last() != '\r'
}

/// A line that is appended to a log file is read back as its last line, and the
/// lines before it as they were.
pub proof fn appended_line_is_read_back(contents: Seq<char>, text: Seq<char>)
    requires
        ends_with_a_line(contents),
        one_line(text),
    ensures
        ends_with_a_line(contents + entry_text(text)),
        lines_of(contents + entry_text(text)) == lines_of(contents).push(
            (pieces(contents, Class::LineFeed).len() as usize, text),
        ),
{
    reveal_strlit("\n");
    let class = Class::LineFeed;
    let parts = pieces(contents, class);
    let count = parts.len() as int;
    lemma_pieces_some(contents, class);
    assert(parts.last().len() == 0);
    assert(parts.last() + text =~= text);
    assert forall|i: int| 0 <= i < text.len() implies !in_class(class, #[trigger] text[i]) by {}
    lemma_pieces_of_more(contents, text, class);
    let whole = contents + entry_text(text);
    assert(whole =~= (contents + text).push('\n'));
    assert(whole.drop_last() =~= contents + text);
    let after = pieces(whole, class);
    assert(after =~= parts.drop_last().push(text).push(Seq::empty()));
    assert(without_return(Seq::<char>::empty(), false).len() == 0);
    assert(numbered_lines(parts, count) == numbered_lines(parts, count - 1));
    assert(after[count] == Seq::<char>::empty());
    assert(numbered_lines(after, count + 1) == numbered_lines(after, count));
    assert(after[count - 1] == text);
    lemma_numbered_lines_alike(after, parts, count - 1);
}

/// The requests are listed newest first: the one recorded last comes first, and
/// the others follow as they were.
pub proof fn newest_request_is_listed_first(logs: Seq<SerpLogView>, log: SerpLogView)
    ensures
        newest_first(logs.push(log), None) == seq![log] + newest_first(logs, None),
{
    assert(logs.push(log).reverse() =~= seq![log] + logs.reverse());
}

/// A limit cuts the list of requests off, and changes nothing before the cut.
pub proof fn limit_cuts_the_list(logs: Seq<SerpLogView>, limit: usize)
    ensures
        newest_first(logs, Some(limit)).len() == if limit < logs.len() {
            limit as nat
        } else {
            logs.len()
        },
        newest_first(logs, Some(limit)).is_prefix_of(newest_first(logs, None)),
{
}

/// A saved request is found by its identifier as it is written, and one that is
/// not saved is reported as missing.
pub proof fn request_is_found_by_its_id(
    logs: Seq<SerpLogView>,
    id: u128,
    answer: Result<SerpLogView, ApiErrorView>,
)
    requires
        request_answer(logs, id_written(id), answer),
    ensures
        known(logs, id) ==> answer is Ok && answer->Ok_0.request.id == id && logs.contains(
            answer->Ok_0,
        ),
        !known(logs, id) ==> answer is Err && answer->Err_0.status() == 404,
{
    written_id_is_read_back(id);
    lemma_newest(logs, id);
}

} // verus!
