//! Storage: the curated titles, the searches already run, and the log of every
//! request sent, with the lines that carry the log over a restart.
use std::collections::HashMap;

use vstd::hash_map::StringHashMap;
use vstd::prelude::*;
use vstd::std_specs::hash::group_hash_axioms;
use vstd::std_specs::hash::spec_hash_map_iter;
use vstd::std_specs::iter::IteratorSpec;
use vstd::string::StringExecFns;

use crate::ids::clock_time;
use crate::ids::id_written;
use crate::ids::new_id;
use crate::ids::now;
use crate::ids::random_id;
use crate::ids::write_id;
use crate::models::copy_hits;
use crate::models::result_view;
use crate::models::GlinerLogView;
use crate::models::GlinerOutcome;
use crate::models::GlinerOutcomeView;
use crate::models::GlinerRequestLog;
use crate::models::HitView;
use crate::models::JevLogView;
use crate::models::JevOutcome;
use crate::models::JevOutcomeView;
use crate::models::JevRequestLog;
use crate::models::RecordView;
use crate::models::RequestOutcome;
use crate::models::RequestOutcomeView;
use crate::models::SearchHit;
use crate::models::SerpLogView;
use crate::models::SerpRequest;
use crate::models::SerpRequestLog;
use crate::models::SerpRequestView;
use crate::models::Timestamp;
use crate::models::TitleRecord;
use crate::models::TitleSource;
use crate::models::Verification;
use crate::models::VerificationView;
use crate::ner::extract_error_text;
use crate::ner::ExtractionAttempt;
use crate::ner::ExtractionAttemptView;
use crate::score::Probability;
use crate::search::SearchAttempt;
use crate::search::SearchAttemptView;
use crate::text::debug_quoted;
use crate::text::debug_text;
use crate::text::decimal;
use crate::text::decimal_text;
use crate::text::lower;
use crate::text::lowercase;
use crate::text::pieces;
use crate::text::space_out;
use crate::text::spaced;
use crate::text::split;
use crate::text::to_chars;
use crate::text::trim;
use crate::text::trimmed;
use crate::text::Class;
use crate::verify::JevAttempt;
use crate::verify::JevAttemptView;

verus! {

broadcast use group_hash_axioms;

/// A search already run, kept so repeat lookups for the same person don't spend
/// another API credit.
#[derive(Debug)]
pub struct StoredSearch {
    /// The request that produced these hits.
    pub request: SerpRequest,
    pub title: Option<String>,
    pub title_source: TitleSource,
    pub title_confidence: Option<Probability>,
    pub hits: Vec<SearchHit>,
    /// The check of `hits`, kept so cached lookups don't pay for it again.
    pub verification: Verification,
    pub retrieved_at: Timestamp,
}

/// What a `StoredSearch` says.
pub struct StoredSearchView {
    pub request: SerpRequestView,
    pub title: Option<Seq<char>>,
    pub title_source: TitleSource,
    pub title_confidence: Option<Probability>,
    pub hits: Seq<HitView>,
    pub verification: VerificationView,
    pub retrieved_at: Timestamp,
}

impl DeepView for StoredSearch {
    type V = StoredSearchView;

    open spec fn deep_view(&self) -> StoredSearchView {
        StoredSearchView {
            request: self.request.deep_view(),
            title: self.title.deep_view(),
            title_source: self.title_source,
            title_confidence: self.title_confidence,
            hits: self.hits.deep_view(),
            verification: self.verification.deep_view(),
            retrieved_at: self.retrieved_at,
        }
    }
}

impl Clone for StoredSearch {
    fn clone(&self) -> (r: Self)
        ensures
            r.deep_view() == self.deep_view(),
    {
        StoredSearch {
            request: self.request.clone(),
            title: self.title.clone(),
            title_source: self.title_source,
            title_confidence: self.title_confidence,
            hits: copy_hits(&self.hits),
            verification: self.verification.clone(),
            retrieved_at: self.retrieved_at,
        }
    }
}

/// The title picked for a search and how it was picked.
#[derive(Debug)]
pub struct ChosenTitle {
    pub text: Option<String>,
    pub source: TitleSource,
    pub confidence: Option<Probability>,
}

/// What a `ChosenTitle` says.
pub struct ChosenTitleView {
    pub text: Option<Seq<char>>,
    pub source: TitleSource,
    pub confidence: Option<Probability>,
}

impl DeepView for ChosenTitle {
    type V = ChosenTitleView;

    open spec fn deep_view(&self) -> ChosenTitleView {
        ChosenTitleView {
            text: self.text.deep_view(),
            source: self.source,
            confidence: self.confidence,
        }
    }
}

/// One line of the log file. Checks and extractions are written after the
/// search they belong to and are nested under it when loaded.
#[derive(Debug)]
pub enum LogLine {
    Jev(JevRequestLog),
    Gliner(GlinerRequestLog),
    Serp(SerpRequestLog),
}

/// What a `LogLine` says.
pub enum LogLineView {
    Jev(JevLogView),
    Gliner(GlinerLogView),
    Serp(SerpLogView),
}

impl DeepView for LogLine {
    type V = LogLineView;

    open spec fn deep_view(&self) -> LogLineView {
        match self {
            LogLine::Jev(log) => LogLineView::Jev(log.deep_view()),
            LogLine::Gliner(log) => LogLineView::Gliner(log.deep_view()),
            LogLine::Serp(log) => LogLineView::Serp(log.deep_view()),
        }
    }
}

/// What a `Store` holds.
pub struct StoreView {
    /// The curated titles by identifier.
    pub records: Map<u128, RecordView>,
    /// The searches already run, by the key of the person at the company.
    pub searches: Map<Seq<char>, StoredSearchView>,
    /// The saved requests, oldest first.
    pub requests: Seq<SerpLogView>,
    /// Where the log file is, if there is one.
    pub request_log: Option<Seq<char>>,
}

impl StoreView {
    /// Whether every curated title is kept under its own identifier.
    pub open spec fn well_formed(self) -> bool {
        forall|id: u128| #[trigger] self.records.contains_key(id) ==> self.records[id].id == id
    }
}

/// A name without what does not matter in it: its words in lower case, with
/// single spaces between.
pub open spec fn norm(s: Seq<char>) -> Seq<char> {
    spaced(lowercase(spaced(s)))
}

/// The key of a person at a company: case and white space do not matter. No
/// word holds a line feed, so one stands between the two.
pub open spec fn key_of(name: Seq<char>, company: Seq<char>) -> Seq<char> {
    norm(name) + "\n"@ + norm(company)
}

/// Whether a curated title is that of a person at a company, case aside.
pub open spec fn is_title_of(record: RecordView, name: Seq<char>, company: Seq<char>) -> bool {
    lowercase(record.name) == lowercase(name) && lowercase(record.company) == lowercase(company)
}

/// A search as it is kept.
pub open spec fn stored_as(
    request: SerpRequestView,
    title: ChosenTitleView,
    hits: Seq<HitView>,
    verification: VerificationView,
    retrieved_at: Timestamp,
) -> StoredSearchView {
    StoredSearchView {
        request,
        title: title.text,
        title_source: title.source,
        title_confidence: title.confidence,
        hits,
        verification,
        retrieved_at,
    }
}

/// The entry that saves a search attempt.
pub open spec fn serp_log(attempt: SearchAttemptView) -> SerpLogView {
    SerpLogView {
        request: attempt.request,
        http_status: attempt.http_status,
        outcome: match attempt.result {
            Ok(hits) => RequestOutcomeView::Succeeded { hit_count: hits.len() },
            Err(error) => RequestOutcomeView::Failed { message: error.text() },
        },
        jev: None,
        gliner: None,
    }
}

/// A verification as its `Debug` format shows it, where it is no verdict.
pub open spec fn shown_verification(verification: VerificationView) -> Seq<char> {
    match verification {
        VerificationView::Checked { .. } => Seq::empty(),
        VerificationView::Failed { message } => "Failed { message: "@ + debug_text(message) + " }"@,
        VerificationView::Skipped { reason } => "Skipped { reason: "@ + debug_text(reason) + " }"@,
    }
}

/// The entry that saves a check.
pub open spec fn jev_log(serp_request_id: u128, attempt: JevAttemptView) -> JevLogView {
    JevLogView {
        serp_request_id,
        request: attempt.request,
        http_status: attempt.http_status,
        outcome: match attempt.result {
            Ok(verification) => match verification {
                VerificationView::Checked { score, answers_question, model, checked_at } => {
                    JevOutcomeView::Succeeded { score, answers_question, model }
                },
                _ => JevOutcomeView::Failed {
                    message: "unexpected verification "@ + shown_verification(verification),
                },
            },
            Err(error) => JevOutcomeView::Failed { message: error.text() },
        },
    }
}

/// The entry that saves an extraction.
pub open spec fn gliner_log(serp_request_id: u128, attempt: ExtractionAttemptView) -> GlinerLogView {
    GlinerLogView {
        serp_request_id,
        request: attempt.request,
        duration_ms: attempt.duration_ms,
        outcome: match attempt.result {
            Ok(output) => GlinerOutcomeView::Succeeded {
                spans: output.spans,
                chosen: output.chosen,
            },
            Err(message) => GlinerOutcomeView::Failed { message: extract_error_text(message) },
        },
    }
}

/// The newest entry with a request identifier.
pub open spec fn newest_with_id(logs: Seq<SerpLogView>, id: u128) -> Option<int>
    decreases logs.len(),
{
    if logs.len() == 0 {
        None
    } else if logs.last().request.id == id {
        Some(logs.len() - 1)
    } else {
        newest_with_id(logs.drop_last(), id)
    }
}

/// The entries once a line is added: a search as a new entry, a check or an
/// extraction under the newest search that it names. Nothing for one that names
/// no search.
pub open spec fn with_line(logs: Seq<SerpLogView>, line: LogLineView) -> Option<Seq<SerpLogView>> {
    match line {
        LogLineView::Serp(log) => Some(logs.push(log)),
        LogLineView::Jev(log) => match newest_with_id(logs, log.serp_request_id) {
            Some(at) => Some(logs.update(at, SerpLogView { jev: Some(log), ..logs[at] })),
            None => None,
        },
        LogLineView::Gliner(log) => match newest_with_id(logs, log.serp_request_id) {
            Some(at) => Some(logs.update(at, SerpLogView { gliner: Some(log), ..logs[at] })),
            None => None,
        },
    }
}

/// The entries once a line is added, where a line that names no search adds
/// nothing.
pub open spec fn with_line_if_any(logs: Seq<SerpLogView>, line: LogLineView) -> Seq<SerpLogView> {
    match with_line(logs, line) {
        Some(added) => added,
        None => logs,
    }
}

/// What is wrong with a line that names no search.
pub open spec fn orphan_text(line: LogLineView) -> Seq<char> {
    match line {
        LogLineView::Serp(_) => Seq::empty(),
        LogLineView::Jev(log) => "Jev request "@ + id_written(log.request.id)
            + " refers to unknown SerpAPI request "@ + id_written(log.serp_request_id),
        LogLineView::Gliner(log) => "GLiNER extraction "@ + id_written(log.request.id)
            + " refers to unknown SerpAPI request "@ + id_written(log.serp_request_id),
    }
}

/// What is wrong with a line of a file, and where.
pub open spec fn located(path: Seq<char>, number: usize, message: Seq<char>) -> Seq<char> {
    path + ":"@ + decimal(number as nat) + ": "@ + message
}

/// One line of a log file as read: its number, and what it says or why it could
/// not be understood.
pub type ReadLine = (usize, Result<LogLine, String>);

/// What a line as read says.
pub open spec fn read_line_view(line: ReadLine) -> (usize, Result<LogLineView, Seq<char>>) {
    (line.0, result_view(line.1))
}

/// What the lines as read say.
pub open spec fn read_lines_view(lines: Seq<ReadLine>) -> Seq<
    (usize, Result<LogLineView, Seq<char>>),
> {
    lines.map_values(|line: ReadLine| read_line_view(line))
}

/// The entries that the lines of a log file amount to, or what is wrong with
/// the first line that is.
pub open spec fn loaded(
    path: Seq<char>,
    lines: Seq<(usize, Result<LogLineView, Seq<char>>)>,
) -> Result<Seq<SerpLogView>, Seq<char>>
    decreases lines.len(),
{
    if lines.len() == 0 {
        Ok(Seq::empty())
    } else {
        match loaded(path, lines.drop_last()) {
            Err(error) => Err(error),
            Ok(logs) => match lines.last().1 {
                Err(message) => Err(located(path, lines.last().0, message)),
                Ok(line) => match with_line(logs, line) {
                    Some(added) => Ok(added),
                    None => Err(located(path, lines.last().0, orphan_text(line))),
                },
            },
        }
    }
}

/// A line without its ending, where it has one.
pub open spec fn without_return(piece: Seq<char>, ended: bool) -> Seq<char> {
    if ended && piece.len() > 0 && piece.last() == '\r' {
        piece.drop_last()
    } else {
        piece
    }
}

/// The lines among the first `count` pieces of a file that are not blank, each
/// with its number.
pub open spec fn numbered_lines(parts: Seq<Seq<char>>, count: int) -> Seq<(usize, Seq<char>)>
    decreases count,
{
    if count <= 0 {
        Seq::empty()
    } else {
        let before = numbered_lines(parts, count - 1);
        let line = without_return(parts[count - 1], count < parts.len());
        if trimmed(line).len() == 0 {
            before
        } else {
            before.push((count as usize, line))
        }
    }
}

/// The lines of a file that are not blank, each with its number.
pub open spec fn lines_of(contents: Seq<char>) -> Seq<(usize, Seq<char>)> {
    let parts = pieces(contents, Class::LineFeed);
    numbered_lines(parts, parts.len() as int)
}

/// A line as it is appended to a log file.
pub open spec fn entry_text(text: Seq<char>) -> Seq<char> {
    text + "\n"@
}

/// The saved requests newest first, at most as many as asked for.
pub open spec fn newest_first(logs: Seq<SerpLogView>, limit: Option<usize>) -> Seq<SerpLogView> {
    match limit {
        Some(count) => if count < logs.len() {
            logs.reverse().take(count as int)
        } else {
            logs.reverse()
        },
        None => logs.reverse(),
    }
}

/// The lines of a log file that are not blank, each with its number.
pub fn log_lines(contents: &str) -> (r: Vec<(usize, String)>)
    ensures
        r.deep_view() == lines_of(contents@),
{
    let parts = split(contents, Class::LineFeed);
    let ghost said = parts.deep_view();
    let mut out: Vec<(usize, String)> = Vec::new();
    let mut i: usize = 0;
    assert(out.deep_view() =~= numbered_lines(said, 0));
    while i < parts.len()
        invariant
            i <= parts.len(),
            said == parts.deep_view(),
            out.deep_view() == numbered_lines(said, i as int),
        decreases parts.len() - i,
    {
        let line = cut_return(parts[i], i + 1 < parts.len());
        if !trim(line).is_empty() {
            let ghost shown = out.deep_view();
            out.push((i + 1, line.to_owned()));
            assert(out.deep_view() =~= shown.push(((i + 1) as usize, line@)));
        }
        i += 1;
    }
    out
}

/// A line as it is appended to a log file.
pub fn log_entry(text: String) -> (r: String)
    ensures
        r@ == entry_text(text@),
{
    let mut out = text;
    out.append("\n");
    out
}

fn cut_return<'a>(piece: &'a str, ended: bool) -> (r: &'a str)
    ensures
        r@ == without_return(piece@, ended),
{
    let chars = to_chars(piece);
    if ended && chars.len() > 0 && chars[chars.len() - 1] == '\r' {
        assert(piece@.drop_last() =~= piece@.subrange(0, piece@.len() - 1));
        vstd::string::StrSliceExecFns::substring_char(piece, 0, chars.len() - 1)
    } else {
        piece
    }
}

/// Storage in memory. The log of every request sent is also written to a file
/// when one is configured, so it survives restarts.
pub struct Store {
    records: HashMap<u128, TitleRecord>,
    searches: StringHashMap<StoredSearch>,
    requests: Vec<SerpRequestLog>,
    request_log: Option<String>,
}

impl View for Store {
    type V = StoreView;

    closed spec fn view(&self) -> StoreView {
        StoreView {
            records: self.records@.map_values(|record: TitleRecord| record.deep_view()),
            searches: self.searches@.map_values(|search: StoredSearch| search.deep_view()),
            requests: self.requests.deep_view(),
            request_log: self.request_log.deep_view(),
        }
    }
}

/// An empty store without a log file.
pub open spec fn empty_store() -> StoreView {
    StoreView {
        records: Map::empty(),
        searches: Map::empty(),
        requests: Seq::empty(),
        request_log: None,
    }
}

/// The titles that a fresh service starts with.
pub open spec fn seeded_store(first: u128, second: u128) -> StoreView {
    StoreView {
        records: Map::<u128, RecordView>::empty().insert(
            first,
            RecordView {
                id: first,
                name: "Ada Lovelace"@,
                company: "Analytical Engine Co"@,
                title: "Lead Programmer"@,
            },
        ).insert(
            second,
            RecordView {
                id: second,
                name: "Grace Hopper"@,
                company: "UNIVAC"@,
                title: "Senior Systems Engineer"@,
            },
        ),
        ..empty_store()
    }
}

impl Default for Store {
    fn default() -> (r: Self)
        ensures
            r@ == empty_store(),
            r@.well_formed(),
    {
        let store = Store {
            records: HashMap::new(),
            searches: StringHashMap::new(),
            requests: Vec::new(),
            request_log: None,
        };
        assert(store@.records =~= Map::empty());
        assert(store@.searches =~= Map::empty());
        assert(store@.requests =~= Seq::empty());
        store
    }
}

fn normal_form(s: &str) -> (r: String)
    ensures
        r@ == norm(s@),
{
    space_out(lower(space_out(s).as_str()).as_str())
}

fn show_verification(verification: &Verification) -> (r: String)
    ensures
        r@ == shown_verification(verification.deep_view()),
{
    match verification {
        Verification::Checked { .. } => String::new(),
        Verification::Failed { message } => {
            let mut out = "Failed { message: ".to_owned();
            out.append(debug_quoted(message.as_str()).as_str());
            out.append(" }");
            out
        },
        Verification::Skipped { reason } => {
            let mut out = "Skipped { reason: ".to_owned();
            out.append(debug_quoted(reason.as_str()).as_str());
            out.append(" }");
            out
        },
    }
}

fn find_newest(logs: &Vec<SerpRequestLog>, id: u128) -> (r: Option<usize>)
    ensures
        match r {
            Some(at) => at < logs.len() && newest_with_id(logs.deep_view(), id) == Some(at as int),
            None => newest_with_id(logs.deep_view(), id) is None,
        },
{
    let mut left: usize = logs.len();
    assert(logs.deep_view().take(left as int) =~= logs.deep_view());
    while left > 0
        invariant
            left <= logs.len(),
            newest_with_id(logs.deep_view(), id) == newest_with_id(
                logs.deep_view().take(left as int),
                id,
            ),
        decreases left,
    {
        assert(logs.deep_view().take(left as int).drop_last() =~= logs.deep_view().take(left - 1));
        if logs[left - 1].request.id == id {
            return Some(left - 1);
        }
        left -= 1;
    }
    None
}

/// Adds a line to the entries; gives it back when it names no search.
fn add_line(logs: &mut Vec<SerpRequestLog>, line: LogLine) -> (r: Option<LogLine>)
    ensures
        final(logs).deep_view() == with_line_if_any(old(logs).deep_view(), line.deep_view()),
        r is None <==> with_line(old(logs).deep_view(), line.deep_view()) is Some,
        r matches Some(back) ==> back.deep_view() == line.deep_view(),
{
    let ghost before = logs.deep_view();
    let ghost said = line.deep_view();
    match line {
        LogLine::Serp(log) => {
            let ghost entry = log.deep_view();
            logs.push(log);
            assert(logs.deep_view() =~= before.push(entry));
            None
        },
        LogLine::Jev(log) => {
            match find_newest(logs, log.serp_request_id) {
                Some(at) => {
                    let mut entry = logs[at].clone();
                    entry.jev = Some(log);
                    let ghost changed = entry.deep_view();
                    logs.set(at, entry);
                    assert(logs.deep_view() =~= before.update(at as int, changed));
                    None
                },
                None => Some(LogLine::Jev(log)),
            }
        },
        LogLine::Gliner(log) => {
            match find_newest(logs, log.serp_request_id) {
                Some(at) => {
                    let mut entry = logs[at].clone();
                    entry.gliner = Some(log);
                    let ghost changed = entry.deep_view();
                    logs.set(at, entry);
                    assert(logs.deep_view() =~= before.update(at as int, changed));
                    None
                },
                None => Some(LogLine::Gliner(log)),
            }
        },
    }
}

fn describe_orphan(line: &LogLine) -> (r: String)
    ensures
        r@ == orphan_text(line.deep_view()),
{
    match line {
        LogLine::Serp(_) => String::new(),
        LogLine::Jev(log) => {
            let mut out = "Jev request ".to_owned();
            out.append(write_id(log.request.id).as_str());
            out.append(" refers to unknown SerpAPI request ");
            out.append(write_id(log.serp_request_id).as_str());
            out
        },
        LogLine::Gliner(log) => {
            let mut out = "GLiNER extraction ".to_owned();
            out.append(write_id(log.request.id).as_str());
            out.append(" refers to unknown SerpAPI request ");
            out.append(write_id(log.serp_request_id).as_str());
            out
        },
    }
}

fn locate(path: &str, number: usize, message: &str) -> (r: String)
    ensures
        r@ == located(path@, number, message@),
{
    let mut out = path.to_owned();
    out.append(":");
    out.append(decimal_text(number as u64).as_str());
    out.append(": ");
    out.append(message);
    out
}

impl Store {
    /// A store preloaded with a couple of records under the identifiers given.
    pub fn with_seed_ids(first: u128, second: u128) -> (r: Self)
        ensures
            r@ == seeded_store(first, second),
            r@.well_formed(),
    {
        let mut store = Store::default();
        store.insert_with_id(first, "Ada Lovelace", "Analytical Engine Co", "Lead Programmer");
        store.insert_with_id(second, "Grace Hopper", "UNIVAC", "Senior Systems Engineer");
        store
    }

    /// A store preloaded with a couple of records, so the service returns
    /// something useful on a fresh start.
    pub fn with_seed_data() -> (r: Self)
        ensures
            exists|first: u128, second: u128|
                #![trigger seeded_store(first, second)]
                random_id(first) && random_id(second) && r@ == seeded_store(first, second),
            r@.well_formed(),
    {
        let first: u128 = new_id();
        let second: u128 = new_id();
        Self::with_seed_ids(first, second)
    }

    /// The entries that the lines of a log file amount to, or what is wrong
    /// with the first line that is.
    pub fn load_request_log(path: &str, lines: Vec<ReadLine>) -> (r: Result<
        Vec<SerpRequestLog>,
        String,
    >)
        ensures
            result_view(r) == loaded(path@, read_lines_view(lines@)),
    {
        let ghost said = read_lines_view(lines@);
        let mut logs: Vec<SerpRequestLog> = Vec::new();
        assert(logs.deep_view() =~= Seq::empty());
        assert(said.take(0) =~= Seq::empty());
        for next in it: lines
            invariant
                it.seq() == lines@,
                said == read_lines_view(lines@),
                loaded(path@, said.take(it.index() as int)) == Ok::<_, Seq<char>>(logs.deep_view()),
        {
            let ghost done = it.index() as int;
            assert(said[done] == read_line_view(next));
            assert(said.take(done + 1).drop_last() =~= said.take(done));
            assert(said.take(done + 1).last() == said[done]);
            let number: usize = next.0;
            match next.1 {
                Err(message) => {
                    let error = locate(path, number, message.as_str());
                    proof {
                        lemma_loaded_error(path@, said, done + 1);
                    }
                    return Err(error);
                },
                Ok(line) => {
                    match add_line(&mut logs, line) {
                        Some(orphan) => {
                            let message = describe_orphan(&orphan);
                            let error = locate(path, number, message.as_str());
                            proof {
                                lemma_loaded_error(path@, said, done + 1);
                            }
                            return Err(error);
                        },
                        None => {},
                    }
                },
            }
        }
        assert(said.take(said.len() as int) =~= said);
        Ok(logs)
    }

    /// The store with the requests of a log file in place of its own, and new
    /// ones to be written there.
    pub fn with_request_log(self, path: &str, lines: Vec<ReadLine>) -> (r: Result<Self, String>)
        ensures
            match loaded(path@, read_lines_view(lines@)) {
                Ok(logs) => r matches Ok(store) && store@ == (StoreView {
                    requests: logs,
                    request_log: Some(path@),
                    ..self@
                }),
                Err(error) => r matches Err(message) && message@ == error,
            },
    {
        match Self::load_request_log(path, lines) {
            Ok(logs) => Ok(
                Store {
                    records: self.records,
                    searches: self.searches,
                    requests: logs,
                    request_log: Some(path.to_owned()),
                },
            ),
            Err(error) => Err(error),
        }
    }

    /// Where the log file is, if there is one.
    pub fn request_log(&self) -> (r: Option<&str>)
        ensures
            r.deep_view() == self@.request_log,
    {
        match &self.request_log {
            Some(path) => Some(path.as_str()),
            None => None,
        }
    }

    /// The key of a person at a company.
    pub fn search_key(name: &str, company: &str) -> (r: String)
        ensures
            r@ == key_of(name@, company@),
    {
        let mut out = normal_form(name);
        out.append("\n");
        out.append(normal_form(company).as_str());
        out
    }

    /// Adds a curated title under the identifier given.
    pub fn insert_with_id(&mut self, id: u128, name: &str, company: &str, title: &str) -> (r:
        TitleRecord)
        ensures
            r.deep_view() == (RecordView { id, name: name@, company: company@, title: title@ }),
            final(self)@ == (StoreView {
                records: old(self)@.records.insert(id, r.deep_view()),
                ..old(self)@
            }),
            old(self)@.well_formed() ==> final(self)@.well_formed(),
    {
        let record = TitleRecord {
            id,
            name: name.to_owned(),
            company: company.to_owned(),
            title: title.to_owned(),
        };
        self.records.insert(id, record.clone());
        assert(self@.records =~= old(self)@.records.insert(id, record.deep_view()));
        record
    }

    /// Adds a curated title under an identifier of its own.
    pub fn insert(&mut self, name: &str, company: &str, title: &str) -> (r: TitleRecord)
        ensures
            random_id(r.id),
            r.deep_view() == (RecordView {
                id: r.id,
                name: name@,
                company: company@,
                title: title@,
            }),
            final(self)@ == (StoreView {
                records: old(self)@.records.insert(r.id, r.deep_view()),
                ..old(self)@
            }),
            old(self)@.well_formed() ==> final(self)@.well_formed(),
    {
        self.insert_with_id(new_id(), name, company, title)
    }

    /// Case-insensitive lookup of a person at a company. Where several titles
    /// are theirs, it is one of them.
    pub fn find(&self, name: &str, company: &str) -> (r: Option<TitleRecord>)
        ensures
            match r {
                Some(record) => is_title_of(record.deep_view(), name@, company@) && exists|id: u128|
                    #[trigger] self@.records.contains_key(id) && self@.records[id]
                        == record.deep_view(),
                None => forall|id: u128| #[trigger]
                    self@.records.contains_key(id) ==> !is_title_of(
                        self@.records[id],
                        name@,
                        company@,
                    ),
            },
    {
        let wanted_name = lower(name);
        let wanted_company = lower(company);
        for pair in it: self.records.iter()
            invariant
                wanted_name@ == lowercase(name@),
                wanted_company@ == lowercase(company@),
                forall|k: int|
                    0 <= k < it.index() ==> !is_title_of(
                        (#[trigger] it.seq()[k]).1.deep_view(),
                        name@,
                        company@,
                    ),
                it.seq() == IteratorSpec::remaining(&spec_hash_map_iter(&self.records)),
        {
            let record = pair.1;
            if lower(record.name.as_str()) == wanted_name && lower(record.company.as_str())
                == wanted_company {
                let found = record.clone();
                assert(self.records@.contains_key(*pair.0) && self.records@[*pair.0] == *pair.1);
                assert(self@.records.contains_key(*pair.0));
                return Some(found);
            }
        }
        None
    }

    /// Every curated title, in no particular order.
    pub fn list(&self) -> (r: Vec<TitleRecord>)
        ensures
            exists|ids: Seq<u128>|
                #![trigger ids.no_duplicates()]
                ids.no_duplicates() && ids.to_set() == self@.records.dom() && r.deep_view()
                    == ids.map_values(|id: u128| self@.records[id]),
    {
        let mut out: Vec<TitleRecord> = Vec::new();
        let entries = self.records.iter();
        let ghost pairs = IteratorSpec::remaining(&spec_hash_map_iter(&self.records));
        let ghost ids = pairs.map_values(|pair: (&u128, &TitleRecord)| *pair.0);
        proof {
            assert forall|i: int, j: int|
                0 <= i < ids.len() && 0 <= j < ids.len() && i != j implies ids[i] != ids[j] by {
                if ids[i] == ids[j] {
                    assert(self.records@[*pairs[i].0] == *pairs[i].1);
                    assert(self.records@[*pairs[j].0] == *pairs[j].1);
                    assert(pairs[i] == pairs[j]);
                }
            }
            assert(ids.no_duplicates());
            assert forall|id: u128| ids.to_set().contains(id) == self@.records.dom().contains(
                id,
            ) by {
                if ids.contains(id) {
                    let i = choose|i: int| 0 <= i < ids.len() && ids[i] == id;
                    assert(self.records@.contains_key(*pairs[i].0));
                }
                if self.records@.contains_key(id) {
                    assert(pairs.contains((&id, &self.records@[id])));
                    let i = choose|i: int|
                        0 <= i < pairs.len() && pairs[i] == (&id, &self.records@[id]);
                    assert(ids[i] == id);
                }
            }
            assert(ids.to_set() =~= self@.records.dom());
        }
        for pair in it: entries
            invariant
                out.len() == it.index(),
                it.seq() == pairs,
                forall|k: int|
                    0 <= k < it.index() ==> #[trigger] out.deep_view()[k]
                        == it.seq()[k].1.deep_view(),
        {
            let ghost shown = out.deep_view();
            out.push(pair.1.clone());
            assert(out.deep_view() =~= shown.push(pair.1.deep_view()));
        }
        proof {
            assert forall|k: int| 0 <= k < ids.len() implies out.deep_view()[k]
                == self@.records[ids[k]] by {
                assert(self.records@[*pairs[k].0] == *pairs[k].1);
                assert(self.records@.contains_key(*pairs[k].0));
            }
            assert(out.deep_view() =~= ids.map_values(|id: u128| self@.records[id]));
        }
        out
    }

    /// A search already stored for a person at a company, if one was run.
    pub fn stored_search(&self, name: &str, company: &str) -> (r: Option<StoredSearch>)
        ensures
            match r {
                Some(stored) => self@.searches.contains_key(key_of(name@, company@))
                    && self@.searches[key_of(name@, company@)] == stored.deep_view(),
                None => !self@.searches.contains_key(key_of(name@, company@)),
            },
    {
        let key = Self::search_key(name, company);
        match self.searches.get(key.as_str()) {
            Some(stored) => Some(stored.clone()),
            None => None,
        }
    }

    /// Stores a search retrieved at a given time, replacing any earlier search
    /// for the same person.
    pub fn save_search_at(
        &mut self,
        name: &str,
        company: &str,
        request: SerpRequest,
        title: ChosenTitle,
        hits: Vec<SearchHit>,
        verification: Verification,
        retrieved_at: Timestamp,
    ) -> (r: StoredSearch)
        ensures
            r.deep_view() == stored_as(
                request.deep_view(),
                title.deep_view(),
                hits.deep_view(),
                verification.deep_view(),
                retrieved_at,
            ),
            final(self)@ == (StoreView {
                searches: old(self)@.searches.insert(key_of(name@, company@), r.deep_view()),
                ..old(self)@
            }),
    {
        let stored = StoredSearch {
            request,
            title: title.text,
            title_source: title.source,
            title_confidence: title.confidence,
            hits,
            verification,
            retrieved_at,
        };
        let key = Self::search_key(name, company);
        self.searches.insert(key, stored.clone());
        assert(self@.searches =~= old(self)@.searches.insert(
            key_of(name@, company@),
            stored.deep_view(),
        ));
        stored
    }

    /// Stores a search retrieved now, replacing any earlier search for the same
    /// person.
    pub fn save_search(
        &mut self,
        name: &str,
        company: &str,
        request: SerpRequest,
        title: ChosenTitle,
        hits: Vec<SearchHit>,
        verification: Verification,
    ) -> (r: StoredSearch)
        ensures
            clock_time(r.retrieved_at),
            r.deep_view() == stored_as(
                request.deep_view(),
                title.deep_view(),
                hits.deep_view(),
                verification.deep_view(),
                r.retrieved_at,
            ),
            final(self)@ == (StoreView {
                searches: old(self)@.searches.insert(key_of(name@, company@), r.deep_view()),
                ..old(self)@
            }),
    {
        self.save_search_at(name, company, request, title, hits, verification, now())
    }

    /// Saves a search request and its outcome. Called for every request sent,
    /// including failed ones, which never reach `save_search`. With it comes
    /// the line to write to the log file, when there is one.
    pub fn record_request(&mut self, attempt: &SearchAttempt) -> (r: (
        SerpRequestLog,
        Option<LogLine>,
    ))
        ensures
            r.0.deep_view() == serp_log(attempt.deep_view()),
            r.1.deep_view() == (if old(self)@.request_log is Some {
                Some(LogLineView::Serp(r.0.deep_view()))
            } else {
                None
            }),
            final(self)@ == (StoreView {
                requests: old(self)@.requests.push(r.0.deep_view()),
                ..old(self)@
            }),
    {
        let outcome = match &attempt.result {
            Ok(hits) => RequestOutcome::Succeeded { hit_count: hits.len() },
            Err(error) => RequestOutcome::Failed { message: error.to_string() },
        };
        let log = SerpRequestLog {
            request: attempt.request.clone(),
            http_status: attempt.http_status,
            outcome,
            jev: None,
            gliner: None,
        };
        add_line(&mut self.requests, LogLine::Serp(log.clone()));
        let line = match &self.request_log {
            Some(_) => Some(LogLine::Serp(log.clone())),
            None => None,
        };
        (log, line)
    }

    /// Saves an extraction under the search request whose results it read. With
    /// it comes the line to write to the log file, when there is one.
    pub fn record_gliner_request(
        &mut self,
        serp_request_id: u128,
        attempt: &ExtractionAttempt,
    ) -> (r: (GlinerRequestLog, Option<LogLine>))
        ensures
            r.0.deep_view() == gliner_log(serp_request_id, attempt.deep_view()),
            r.1.deep_view() == (if old(self)@.request_log is Some {
                Some(LogLineView::Gliner(r.0.deep_view()))
            } else {
                None
            }),
            final(self)@ == (StoreView {
                requests: with_line_if_any(
                    old(self)@.requests,
                    LogLineView::Gliner(r.0.deep_view()),
                ),
                ..old(self)@
            }),
    {
        let outcome = match &attempt.result {
            Ok(output) => {
                let spans = output.spans.clone();
                assert(spans.deep_view() =~= output.spans.deep_view());
                GlinerOutcome::Succeeded { spans, chosen: output.chosen.clone() }
            },
            Err(error) => GlinerOutcome::Failed { message: error.to_string() },
        };
        let log = GlinerRequestLog {
            serp_request_id,
            request: attempt.request.clone(),
            duration_ms: attempt.duration_ms,
            outcome,
        };
        add_line(&mut self.requests, LogLine::Gliner(log.clone()));
        let line = match &self.request_log {
            Some(_) => Some(LogLine::Gliner(log.clone())),
            None => None,
        };
        (log, line)
    }

    /// Saves a check under the search request whose results it judged. With it
    /// comes the line to write to the log file, when there is one.
    pub fn record_jev_request(&mut self, serp_request_id: u128, attempt: &JevAttempt) -> (r: (
        JevRequestLog,
        Option<LogLine>,
    ))
        ensures
            r.0.deep_view() == jev_log(serp_request_id, attempt.deep_view()),
            r.1.deep_view() == (if old(self)@.request_log is Some {
                Some(LogLineView::Jev(r.0.deep_view()))
            } else {
                None
            }),
            final(self)@ == (StoreView {
                requests: with_line_if_any(old(self)@.requests, LogLineView::Jev(r.0.deep_view())),
                ..old(self)@
            }),
    {
        let outcome = match &attempt.result {
            Ok(verification) => match verification {
                Verification::Checked { score, answers_question, model, .. } => {
                    JevOutcome::Succeeded {
                        score: *score,
                        answers_question: *answers_question,
                        model: model.clone(),
                    }
                },
                _ => {
                    let mut message = "unexpected verification ".to_owned();
                    message.append(show_verification(verification).as_str());
                    JevOutcome::Failed { message }
                },
            },
            Err(error) => JevOutcome::Failed { message: error.to_string() },
        };
        let log = JevRequestLog {
            serp_request_id,
            request: attempt.request.clone(),
            http_status: attempt.http_status,
            outcome,
        };
        add_line(&mut self.requests, LogLine::Jev(log.clone()));
        let line = match &self.request_log {
            Some(_) => Some(LogLine::Jev(log.clone())),
            None => None,
        };
        (log, line)
    }

    /// Saved requests, newest first, optionally capped at `limit`.
    pub fn requests(&self, limit: Option<usize>) -> (r: Vec<SerpRequestLog>)
        ensures
            r.deep_view() == newest_first(self@.requests, limit),
    {
        let total: usize = self.requests.len();
        let count: usize = match limit {
            Some(most) => if most < total {
                most
            } else {
                total
            },
            None => total,
        };
        let mut out: Vec<SerpRequestLog> = Vec::new();
        let mut i: usize = 0;
        while i < count
            invariant
                i <= count <= total,
                total == self.requests.len(),
                out.len() == i,
                forall|k: int|
                    0 <= k < i ==> #[trigger] out.deep_view()[k] == self@.requests[total - 1 - k],
            decreases count - i,
        {
            let ghost shown = out.deep_view();
            out.push(self.requests[total - 1 - i].clone());
            assert(out.deep_view() =~= shown.push(self@.requests[total - 1 - i]));
            i += 1;
        }
        assert(out.deep_view() =~= newest_first(self@.requests, limit));
        out
    }

    /// One saved request by its identifier: the oldest one that has it.
    pub fn request(&self, id: u128) -> (r: Option<SerpRequestLog>)
        ensures
            match r {
                Some(log) => exists|at: int|
                    0 <= at < self@.requests.len() && #[trigger] self@.requests[at]
                        == log.deep_view() && log.request.id == id && (forall|k: int|
                        0 <= k < at ==> (#[trigger] self@.requests[k]).request.id != id),
                None => forall|k: int|
                    0 <= k < self@.requests.len() ==> (#[trigger] self@.requests[k]).request.id
                        != id,
            },
    {
        let mut i: usize = 0;
        while i < self.requests.len()
            invariant
                i <= self.requests.len(),
                forall|k: int| 0 <= k < i ==> (#[trigger] self@.requests[k]).request.id != id,
            decreases self.requests.len() - i,
        {
            if self.requests[i].request.id == id {
                let log = self.requests[i].clone();
                assert(self@.requests[i as int] == log.deep_view());
                return Some(log);
            }
            i += 1;
        }
        None
    }

    /// How many searches are stored.
    pub fn stored_search_count(&self) -> (r: usize)
        ensures
            r == self@.searches.len(),
    {
        let count: usize = self.searches.len();
        assert(self@.searches.dom() =~= self.searches@.dom());
        count
    }
}

/// Once a line of a file is wrong, the lines after it do not matter.
pub proof fn lemma_loaded_error(
    path: Seq<char>,
    lines: Seq<(usize, Result<LogLineView, Seq<char>>)>,
    count: int,
)
    requires
        0 <= count <= lines.len(),
        loaded(path, lines.take(count)) is Err,
    ensures
        loaded(path, lines) == loaded(path, lines.take(count)),
    decreases lines.len(),
{
    if count == lines.len() {
        assert(lines.take(count) =~= lines);
    } else {
        assert(lines.drop_last().take(count) =~= lines.take(count));
        lemma_loaded_error(path, lines.drop_last(), count);
    }
}

} // verus!
