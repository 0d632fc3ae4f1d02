//! What is saved of each request, where it is saved, and how it is read again.
use vstd::prelude::*;

use crate::error::ApiErrorView;
use crate::handlers::after_check;
use crate::handlers::after_extraction;
use crate::handlers::after_search;
use crate::handlers::check_line;
use crate::handlers::extraction_line;
use crate::handlers::request_answer;
use crate::handlers::search_line;
use crate::handlers::written_line;
use crate::ids::id_read;
use crate::ids::id_written;
use crate::models::GlinerOutcomeView;
use crate::models::HitView;
use crate::models::JevOutcomeView;
use crate::models::RequestOutcomeView;
use crate::models::SerpLogView;
use crate::models::SerpRequestView;
use crate::models::Timestamp;
use crate::models::VerificationView;
use crate::ner::ExtractionAttemptView;
use crate::search::SearchAttemptView;
use crate::store::entry_text;
use crate::store::gliner_log;
use crate::store::jev_log;
use crate::store::lines_of;
use crate::store::loaded;
use crate::store::located;
use crate::store::newest_first;
use crate::store::newest_with_id;
use crate::store::numbered_lines;
use crate::store::orphan_text;
use crate::store::serp_log;
use crate::store::with_line;
use crate::store::with_line_if_any;
use crate::store::LogLineView;
use crate::store::StoreView;
use crate::text::debug_text;
use crate::text::decimal;
use crate::text::pieces;
use crate::text::trimmed;
use crate::text::Class;
use crate::verify::JevAttemptView;

verus! {

/// The entry of a search is its request and its status as they are, and how many
/// hits it gave, or the error in words; nothing is nested under it yet.
pub proof fn search_entries_say_how_it_went(attempt: SearchAttemptView)
    ensures
        serp_log(attempt).request == attempt.request,
        serp_log(attempt).http_status == attempt.http_status,
        attempt.result matches Ok(hits) ==> serp_log(attempt).outcome
            == (RequestOutcomeView::Succeeded { hit_count: hits.len() }),
        attempt.result matches Err(error) ==> serp_log(attempt).outcome
            == (RequestOutcomeView::Failed { message: error.text() }),
        serp_log(attempt).jev is None,
        serp_log(attempt).gliner is None,
        search_line(attempt) == LogLineView::Serp(serp_log(attempt)),
{
}

/// The entry of a check is its request and its status as they are, and its
/// verdict, or why there is none; it names the search whose hits were checked.
pub proof fn check_entries_say_how_it_went(request: SerpRequestView, attempt: JevAttemptView)
    ensures
        ({
            let log = jev_log(request.id, attempt);
            &&& log.serp_request_id == request.id
            &&& log.request == attempt.request
            &&& log.http_status == attempt.http_status
            &&& attempt.result matches Ok(
                VerificationView::Checked { score, answers_question, model, checked_at },
            ) ==> log.outcome == (JevOutcomeView::Succeeded { score, answers_question, model })
            &&& attempt.result matches Ok(VerificationView::Failed { message }) ==> log.outcome
                == (JevOutcomeView::Failed {
                message: "unexpected verification "@ + ("Failed { message: "@ + debug_text(message)
                    + " }"@),
            })
            &&& attempt.result matches Ok(VerificationView::Skipped { reason }) ==> log.outcome
                == (JevOutcomeView::Failed {
                message: "unexpected verification "@ + ("Skipped { reason: "@ + debug_text(reason)
                    + " }"@),
            })
            &&& attempt.result matches Err(error) ==> log.outcome == (JevOutcomeView::Failed {
                message: error.text(),
            })
            &&& check_line(request, attempt) == LogLineView::Jev(log)
        }),
{
}

/// The entry of an extraction is its request and its duration as they are, and
/// every span with the title that was chosen, or the error in words; it names the
/// search whose hits were read.
pub proof fn extraction_entries_say_how_it_went(
    request: SerpRequestView,
    attempt: ExtractionAttemptView,
)
    ensures
        ({
            let log = gliner_log(request.id, attempt);
            &&& log.serp_request_id == request.id
            &&& log.request == attempt.request
            &&& log.duration_ms == attempt.duration_ms
            &&& attempt.result matches Ok(output) ==> log.outcome == (GlinerOutcomeView::Succeeded {
                spans: output.spans,
                chosen: output.chosen,
            })
            &&& attempt.result matches Err(message) ==> log.outcome == (GlinerOutcomeView::Failed {
                message: "GLiNER extraction failed: "@ + message,
            })
            &&& extraction_line(request, attempt) == LogLineView::Gliner(log)
        }),
{
}

/// Whether an entry is the newest one with an identifier.
pub open spec fn newest(logs: Seq<SerpLogView>, id: u128, at: int) -> bool {
    &&& 0 <= at < logs.len()
    &&& logs[at].request.id == id
    &&& forall|k: int| at < k < logs.len() ==> (#[trigger] logs[k]).request.id != id
}

/// Whether some entry has an identifier.
pub open spec fn some_has_id(logs: Seq<SerpLogView>, id: u128) -> bool {
    exists|k: int| 0 <= k < logs.len() && (#[trigger] logs[k]).request.id == id
}

/// The newest entry with an identifier is the last one that has it, and there is
/// one just when any entry has it.
pub proof fn the_newest_entry_is_the_last(logs: Seq<SerpLogView>, id: u128, at: int)
    ensures
        newest(logs, id, at) <==> newest_with_id(logs, id) == Some(at),
        some_has_id(logs, id) <==> newest_with_id(logs, id) is Some,
    decreases logs.len(),
{
    if logs.len() > 0 {
        let less = logs.drop_last();
        let last = logs.len() - 1;
        the_newest_entry_is_the_last(less, id, at);
        assert forall|k: int| 0 <= k < last implies less[k] == #[trigger] logs[k] by {}
        if logs[last].request.id == id {
            assert(some_has_id(logs, id));
            if newest(logs, id, at) && at < last {
                assert(logs[last].request.id != id);
            }
        } else {
            if newest(logs, id, at) {
                assert forall|k: int| at < k < less.len() implies (#[trigger] less[k]).request.id
                    != id by {
                    assert(logs[k].request.id != id);
                }
                assert(newest(less, id, at));
            }
            if newest(less, id, at) {
                assert forall|k: int| at < k < logs.len() implies (#[trigger] logs[k]).request.id
                    != id by {
                    if k < last {
                        assert(less[k].request.id != id);
                    }
                }
            }
            if some_has_id(logs, id) {
                let k = choose|k: int| 0 <= k < logs.len() && (#[trigger] logs[k]).request.id == id;
                assert(less[k].request.id == id);
            }
            if some_has_id(less, id) {
                let k = choose|k: int| 0 <= k < less.len() && (#[trigger] less[k]).request.id == id;
                assert(logs[k].request.id == id);
            }
        }
    }
}

/// Whether two entries say the same of the search itself.
pub open spec fn same_search(a: SerpLogView, b: SerpLogView) -> bool {
    a.request == b.request && a.http_status == b.http_status && a.outcome == b.outcome
}

/// A search is added after all the others. A check is put under the newest entry
/// of the search that it names, in place of one that was there, and an extraction
/// beside it; nothing else changes. One that names no search is added nowhere.
pub proof fn lines_go_where_they_belong(logs: Seq<SerpLogView>, line: LogLineView, at: int)
    ensures
        line matches LogLineView::Serp(log) ==> with_line(logs, line) == Some(logs + seq![log]),
        line matches LogLineView::Jev(log) ==> {
            &&& newest(logs, log.serp_request_id, at) ==> {
                &&& with_line(logs, line) matches Some(after)
                &&& after.len() == logs.len()
                &&& after[at].jev == Some(log)
                &&& after[at].gliner == logs[at].gliner
                &&& same_search(after[at], logs[at])
                &&& forall|k: int| 0 <= k < logs.len() && k != at ==> after[k] == #[trigger] logs[k]
            }
            &&& !some_has_id(logs, log.serp_request_id) ==> with_line(logs, line) is None
        },
        line matches LogLineView::Gliner(log) ==> {
            &&& newest(logs, log.serp_request_id, at) ==> {
                &&& with_line(logs, line) matches Some(after)
                &&& after.len() == logs.len()
                &&& after[at].gliner == Some(log)
                &&& after[at].jev == logs[at].jev
                &&& same_search(after[at], logs[at])
                &&& forall|k: int| 0 <= k < logs.len() && k != at ==> after[k] == #[trigger] logs[k]
            }
            &&& !some_has_id(logs, log.serp_request_id) ==> with_line(logs, line) is None
        },
        with_line(logs, line) matches Some(after) ==> with_line_if_any(logs, line) == after,
        with_line(logs, line) is None ==> with_line_if_any(logs, line) == logs,
{
    match line {
        LogLineView::Serp(log) => {
            assert(logs.push(log) =~= logs + seq![log]);
        },
        LogLineView::Jev(log) => {
            the_newest_entry_is_the_last(logs, log.serp_request_id, at);
        },
        LogLineView::Gliner(log) => {
            the_newest_entry_is_the_last(logs, log.serp_request_id, at);
        },
    }
}

/// Every stage of a lookup saves its own entry and no other, whatever comes of
/// it; and the line to write is that entry, when there is a log file.
pub proof fn every_stage_saves_its_entry(
    store: StoreView,
    name: Seq<char>,
    company: Seq<char>,
    search: SearchAttemptView,
    request: SerpRequestView,
    hits: Seq<HitView>,
    check: JevAttemptView,
    verification: VerificationView,
    extraction: ExtractionAttemptView,
    at: Timestamp,
    line: LogLineView,
)
    ensures
        after_search(store, name, company, search, at).0.requests == store.requests.push(
            serp_log(search),
        ),
        after_check(store, name, company, request, hits, check, at).0.requests == with_line_if_any(
            store.requests,
            LogLineView::Jev(jev_log(request.id, check)),
        ),
        after_extraction(
            store,
            name,
            company,
            request,
            hits,
            verification,
            extraction,
            at,
        ).0.requests == with_line_if_any(
            store.requests,
            LogLineView::Gliner(gliner_log(request.id, extraction)),
        ),
        store.request_log is Some ==> written_line(store, line) == Some(line),
        store.request_log is None ==> written_line(store, line) is None,
{
}

/// What is wrong with a line says where the file is, which line it is and what is
/// the matter; of one that names no search, both identifiers.
pub proof fn wrong_lines_are_located(
    path: Seq<char>,
    number: usize,
    message: Seq<char>,
    line: LogLineView,
)
    ensures
        located(path, number, message) == path + ":"@ + decimal(number as nat) + ": "@ + message,
        line matches LogLineView::Jev(log) ==> orphan_text(line) == "Jev request "@ + id_written(
            log.request.id,
        ) + " refers to unknown SerpAPI request "@ + id_written(log.serp_request_id),
        line matches LogLineView::Gliner(log) ==> orphan_text(line) == "GLiNER extraction "@
            + id_written(log.request.id) + " refers to unknown SerpAPI request "@ + id_written(
            log.serp_request_id,
        ),
{
}

/// A log file amounts to its lines one after the other: each is added to what the
/// lines before it amount to. The first that cannot be understood, or that names
/// no search before it, is what is wrong with the file.
pub proof fn lines_are_loaded_one_by_one(
    path: Seq<char>,
    lines: Seq<(usize, Result<LogLineView, Seq<char>>)>,
    number: usize,
    line: Result<LogLineView, Seq<char>>,
)
    ensures
        loaded(path, Seq::empty()) == Ok::<Seq<SerpLogView>, Seq<char>>(Seq::empty()),
        ({
            let before = loaded(path, lines);
            let after = loaded(path, lines.push((number, line)));
            &&& before is Err ==> after == before
            &&& before is Ok && line is Err ==> after == Err::<Seq<SerpLogView>, Seq<char>>(
                located(path, number, line->Err_0),
            )
            &&& before is Ok && line is Ok && with_line(before->Ok_0, line->Ok_0) is None ==> after
                == Err::<Seq<SerpLogView>, Seq<char>>(
                located(path, number, orphan_text(line->Ok_0)),
            )
            &&& before is Ok && line is Ok && with_line(before->Ok_0, line->Ok_0) is Some ==> after
                == Ok::<Seq<SerpLogView>, Seq<char>>(with_line(before->Ok_0, line->Ok_0)->0)
        }),
{
    assert(lines.push((number, line)).drop_last() =~= lines);
}

/// The line that a piece of a file is: without the carriage return before its
/// line feed, where it has both.
pub open spec fn line_at(parts: Seq<Seq<char>>, i: int) -> (usize, Seq<char>) {
    let part = parts[i];
    let line = if i + 1 < parts.len() && part.len() > 0 && part[part.len() - 1] == '\r' {
        part.subrange(0, part.len() - 1)
    } else {
        part
    };
    ((i + 1) as usize, line)
}

proof fn lemma_lines(parts: Seq<Seq<char>>, count: int)
    requires
        0 <= count <= parts.len(),
    ensures
        numbered_lines(parts, count) == Seq::new(
            count as nat,
            |i: int| line_at(parts, i),
        ).filter(|line: (usize, Seq<char>)| trimmed(line.1).len() > 0),
    decreases count,
{
    reveal(Seq::filter);
    let keep = |line: (usize, Seq<char>)| trimmed(line.1).len() > 0;
    let all = Seq::new(count as nat, |i: int| line_at(parts, i));
    if count > 0 {
        lemma_lines(parts, count - 1);
        let less = Seq::new((count - 1) as nat, |i: int| line_at(parts, i));
        assert(all.drop_last() =~= less);
        let part = parts[count - 1];
        if part.len() > 0 {
            assert(part.drop_last() =~= part.subrange(0, part.len() - 1));
            assert(part.last() == part[part.len() - 1]);
        }
        assert(all.last() == line_at(parts, count - 1));
    } else {
        assert(all.filter(keep) =~= Seq::empty());
    }
}

/// The lines of a file are what stands between its line feeds, each with its
/// number from one on and without a carriage return at its end; blank ones are
/// left out, and still counted.
pub proof fn lines_are_numbered_with_the_blank_ones(contents: Seq<char>)
    ensures
        ({
            let parts = pieces(contents, Class::LineFeed);
            lines_of(contents) == Seq::new(parts.len(), |i: int| line_at(parts, i)).filter(
                |line: (usize, Seq<char>)| trimmed(line.1).len() > 0,
            )
        }),
{
    let parts = pieces(contents, Class::LineFeed);
    lemma_lines(parts, parts.len() as int);
}

/// A line is written with a line feed behind it.
pub proof fn lines_end_with_a_line_feed(text: Seq<char>)
    ensures
        entry_text(text) == text.push('\n'),
{
    reveal_strlit("\n");
    assert(entry_text(text) =~= text.push('\n'));
}

/// Saved requests are listed from the last to the first, as many as asked for or
/// all there are, each as it is saved.
pub proof fn requests_are_listed_backwards(logs: Seq<SerpLogView>, limit: usize, at: int)
    ensures
        newest_first(logs, None).len() == logs.len(),
        newest_first(logs, Some(limit)).len() == if limit < logs.len() {
            limit as nat
        } else {
            logs.len()
        },
        0 <= at < logs.len() ==> newest_first(logs, None)[at] == logs[logs.len() - 1 - at],
        0 <= at < logs.len() && at < limit ==> newest_first(logs, Some(limit))[at]
            == logs[logs.len() - 1 - at],
{
}

/// A request is given as it is saved, and the oldest of those that have its
/// identifier; a text that is no identifier is refused, and one that no request
/// has is reported as missing, both by name.
pub proof fn the_oldest_request_is_given(
    logs: Seq<SerpLogView>,
    id: Seq<char>,
    answer: Result<SerpLogView, ApiErrorView>,
    at: int,
)
    requires
        request_answer(logs, id, answer),
    ensures
        id_read(id) is None ==> answer == Err::<SerpLogView, ApiErrorView>(
            ApiErrorView::BadRequest("`"@ + id + "` is not a valid request id"@),
        ),
        id_read(id) matches Some(number) ==> {
            &&& 0 <= at < logs.len() && logs[at].request.id == number && (forall|k: int|
                0 <= k < at ==> (#[trigger] logs[k]).request.id != number) ==> answer == Ok::<
                SerpLogView,
                ApiErrorView,
            >(logs[at])
            &&& !some_has_id(logs, number) ==> answer == Err::<SerpLogView, ApiErrorView>(
                ApiErrorView::NotFound("no saved request with id "@ + id_written(number)),
            )
        },
{
    match id_read(id) {
        None => {},
        Some(number) => {
            match answer {
                Ok(log) => {
                    let found = choose|found: int|
                        0 <= found < logs.len() && #[trigger] logs[found] == log && log.request.id
                            == number && (forall|k: int|
                            0 <= k < found ==> (#[trigger] logs[k]).request.id != number);
                    assert(logs[found].request.id == number);
                    assert(some_has_id(logs, number));
                    if 0 <= at < logs.len() && logs[at].request.id == number && (forall|k: int|
                        0 <= k < at ==> (#[trigger] logs[k]).request.id != number) {
                        if found < at {
                            assert(logs[found].request.id != number);
                        }
                        if at < found {
                            assert(logs[at].request.id != number);
                        }
                    }
                },
                Err(_) => {},
            }
        },
    }
}

} // verus!
