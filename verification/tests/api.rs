use title_finder::config;
use title_finder::config::Migration;
use title_finder::error::ApiError;
use title_finder::handlers;
use title_finder::handlers::LookupStep;
use title_finder::models::Attribution;
use title_finder::models::ExtractedTitle;
use title_finder::models::GlinerOutcome;
use title_finder::models::GlinerRequest;
use title_finder::models::GlinerRequestLog;
use title_finder::models::GlinerSpan;
use title_finder::models::JevOutcome;
use title_finder::models::JevRequest;
use title_finder::models::JevRequestLog;
use title_finder::models::NewTitle;
use title_finder::models::RequestListQuery;
use title_finder::models::RequestOutcome;
use title_finder::models::SearchHit;
use title_finder::models::SerpRequest;
use title_finder::models::SerpRequestLog;
use title_finder::models::Source;
use title_finder::models::Timestamp;
use title_finder::models::TitleLookup;
use title_finder::models::TitleQuery;
use title_finder::models::TitleSource;
use title_finder::models::Verification;
use title_finder::ner::ExtractError;
use title_finder::ner::ExtractionAttempt;
use title_finder::ner::ExtractionOutput;
use title_finder::ner::GlinerExtractor;
use title_finder::score::Probability;
use title_finder::score::Score;
use title_finder::search::SearchAttempt;
use title_finder::search::SearchError;
use title_finder::search::SerpApiClient;
use title_finder::store::log_entry;
use title_finder::store::log_lines;
use title_finder::store::LogLine;
use title_finder::store::Store;
use title_finder::verify::JevAttempt;
use title_finder::verify::JevClient;
use title_finder::verify::VerifyError;
use title_finder::verify::ANSWER_THRESHOLD;

use serde_json::Value;

fn score(value: f64) -> Score {
    Score { bits: value.to_bits() }
}

fn probability(value: f32) -> Probability {
    Probability { bits: value.to_bits() }
}

/// A service with canned answers: what the search, the check and the extractor
/// say, how often each was asked, and the log file.
struct Service {
    store: Store,
    hits: Vec<SearchHit>,
    search_error: Option<&'static str>,
    score: Option<f64>,
    title: Option<&'static str>,
    extraction_fails: bool,
    searches: usize,
    checks: usize,
    extractions: usize,
    last_text: Option<String>,
    last_name: Option<String>,
    file: String,
}

const SERP_KEY: &str = "serp-test-key";
const JEV_KEY: &str = "jev-test-key";

fn hit(snippet: &str) -> SearchHit {
    SearchHit {
        title: "Acme Corp Leadership".to_string(),
        link: "https://example.com/team".to_string(),
        snippet: snippet.to_string(),
    }
}

impl Service {
    fn new(hits: Vec<SearchHit>, score: Option<f64>, title: Option<&'static str>) -> Service {
        Service {
            store: Store::with_seed_data(),
            hits,
            search_error: None,
            score,
            title,
            extraction_fails: false,
            searches: 0,
            checks: 0,
            extractions: 0,
            last_text: None,
            last_name: None,
            file: String::new(),
        }
    }

    fn empty() -> Service {
        Service::new(Vec::new(), Some(0.9), None)
    }

    fn returning(snippet: &str) -> Service {
        Service::new(vec![hit(snippet)], Some(0.9), None)
    }

    fn failing(message: &'static str) -> Service {
        let mut service = Service::empty();
        service.search_error = Some(message);
        service
    }

    fn scoring(mut self, score: f64) -> Service {
        self.score = Some(score);
        self
    }

    fn failing_check(mut self) -> Service {
        self.score = None;
        self
    }

    fn finding(mut self, title: &'static str) -> Service {
        self.title = Some(title);
        self
    }

    fn failing_extraction(mut self) -> Service {
        self.extraction_fails = true;
        self
    }

    fn search(&mut self, query: &str) -> SearchAttempt {
        self.searches += 1;
        assert!(
            query.starts_with("What is the job title for ") && query.ends_with('?'),
            "unexpected query sent to search provider: {query}"
        );
        let request = SerpApiClient::new(SERP_KEY.to_string()).request(query);
        match self.search_error {
            Some(message) => SearchAttempt {
                request,
                http_status: Some(401),
                result: Err(SearchError::Upstream {
                    status: 401,
                    message: message.to_string(),
                }),
            },
            None => SearchAttempt {
                request,
                http_status: Some(200),
                result: Ok(self.hits.clone()),
            },
        }
    }

    fn check(&mut self, text: &str, name: &str, company: &str) -> JevAttempt {
        self.checks += 1;
        self.last_text = Some(text.to_string());
        let request = JevClient::new(JEV_KEY.to_string()).request(text, name, company);
        match self.score {
            Some(value) => JevAttempt {
                request,
                http_status: Some(200),
                result: Ok(Verification::Checked {
                    score: score(value),
                    answers_question: value >= f64::from_bits(ANSWER_THRESHOLD),
                    model: "jev-test".to_string(),
                    checked_at: Timestamp { secs: 5, nanos: 0 },
                }),
            },
            None => JevAttempt {
                request,
                http_status: Some(401),
                result: Err(VerifyError::Upstream {
                    status: 401,
                    message: "authentication_error: bad key".to_string(),
                }),
            },
        }
    }

    fn extract(&mut self, hits: &[SearchHit], name: &str) -> ExtractionAttempt {
        self.extractions += 1;
        self.last_name = Some(name.to_string());
        let extractor = GlinerExtractor { model_name: "gliner-stub".to_string() };
        let request = extractor.request(hits, name);
        let result = if self.extraction_fails {
            Err(ExtractError("model exploded".to_string()))
        } else {
            let mut spans = vec![GlinerSpan {
                input: 0,
                start: 0,
                end: name.len(),
                text: name.to_string(),
                label: "person".to_string(),
                probability: probability(0.99),
                attribution: None,
            }];
            spans.extend(self.title.map(|text| GlinerSpan {
                input: 0,
                start: name.len() + 8,
                end: name.len() + 8 + text.len(),
                text: text.to_string(),
                label: "job title".to_string(),
                probability: probability(0.85),
                attribution: Some(Attribution::SearchedPerson),
            }));
            Ok(ExtractionOutput {
                spans,
                chosen: self.title.map(|text| ExtractedTitle {
                    text: text.to_string(),
                    probability: probability(0.85),
                }),
            })
        };
        ExtractionAttempt { request, duration_ms: 42, result }
    }

    fn write(&mut self, line: Option<LogLine>) {
        if let Some(line) = line {
            self.file.push_str(&log_entry(line_text(&line)));
        }
    }

    fn ask(&mut self, name: &str, company: &str, refresh: bool) -> Result<TitleLookup, ApiError> {
        let query = TitleQuery {
            name: name.to_string(),
            company: company.to_string(),
            refresh,
        };
        let mut step = handlers::find_title(&self.store, &query);
        loop {
            step = match step {
                LookupStep::Done(result) => return result,
                LookupStep::Search(pending) => {
                    let attempt = self.search(&pending.query);
                    let (next, line) = handlers::search_done(&mut self.store, pending, attempt);
                    self.write(line);
                    next
                }
                LookupStep::Check(pending) => {
                    let attempt = self.check(&pending.text, &pending.name, &pending.company);
                    let (next, line) = handlers::check_done(&mut self.store, pending, attempt);
                    self.write(line);
                    next
                }
                LookupStep::Extract(pending) => {
                    let attempt = self.extract(&pending.hits, &pending.name);
                    let (next, line) = handlers::extraction_done(&mut self.store, pending, attempt);
                    self.write(line);
                    next
                }
            };
        }
    }

    fn lookup(&mut self, name: &str, company: &str) -> TitleLookup {
        self.ask(name, company, false).expect("lookup succeeds")
    }

    /// Stops the service and starts one like it on the same log file.
    fn restarted(self) -> Service {
        let mut next = Service::new(self.hits, self.score, self.title);
        next.store = reopen(&self.file).expect("reopen log");
        next.file = self.file;
        next
    }
}

const PATH: &str = "requests.jsonl";

fn reopen(contents: &str) -> Result<Store, String> {
    let mut lines: Vec<(usize, Result<LogLine, String>)> = Vec::new();
    for (number, text) in log_lines(contents) {
        lines.push((number, read_line(&text)));
    }
    Store::with_seed_data().with_request_log(PATH, lines)
}

fn id_text(id: u128) -> String {
    uuid::Uuid::from_u128(id).to_string()
}

fn time_text(at: Timestamp) -> String {
    format!("{}.{}", at.secs, at.nanos)
}

fn object(fields: Vec<(&str, Value)>) -> Value {
    let mut map: serde_json::Map<String, Value> = serde_json::Map::new();
    for (key, value) in fields {
        map.insert(key.to_string(), value);
    }
    Value::Object(map)
}

fn texts(list: &[String]) -> Value {
    Value::from(list.to_vec())
}

fn serp_value(log: &SerpRequestLog) -> Value {
    let outcome = match &log.outcome {
        RequestOutcome::Succeeded { hit_count } => object(vec![
            ("status", Value::from("succeeded")),
            ("hit_count", Value::from(*hit_count)),
        ]),
        RequestOutcome::Failed { message } => object(vec![
            ("status", Value::from("failed")),
            ("message", Value::from(message.as_str())),
        ]),
    };
    object(vec![
        (
            "request",
            object(vec![
                ("id", Value::from(id_text(log.request.id))),
                ("endpoint", Value::from(log.request.endpoint.as_str())),
                ("engine", Value::from(log.request.engine.as_str())),
                ("query", Value::from(log.request.query.as_str())),
                ("num", Value::from(log.request.num)),
                ("sent_at", Value::from(time_text(log.request.sent_at))),
            ]),
        ),
        ("http_status", Value::from(log.http_status)),
        ("outcome", outcome),
    ])
}

fn jev_value(log: &JevRequestLog) -> Value {
    let outcome = match &log.outcome {
        JevOutcome::Succeeded { score, answers_question, model } => object(vec![
            ("status", Value::from("succeeded")),
            ("score", Value::from(f64::from_bits(score.bits))),
            ("answers_question", Value::from(*answers_question)),
            ("model", Value::from(model.as_str())),
        ]),
        JevOutcome::Failed { message } => object(vec![
            ("status", Value::from("failed")),
            ("message", Value::from(message.as_str())),
        ]),
    };
    object(vec![
        ("serp_request_id", Value::from(id_text(log.serp_request_id))),
        (
            "request",
            object(vec![
                ("id", Value::from(id_text(log.request.id))),
                ("endpoint", Value::from(log.request.endpoint.as_str())),
                ("model", Value::from(log.request.model.as_str())),
                ("question_key", Value::from(log.request.question_key.as_str())),
                ("instructions", Value::from(log.request.instructions.as_str())),
                ("state", Value::from(log.request.state.as_str())),
                ("sent_at", Value::from(time_text(log.request.sent_at))),
            ]),
        ),
        ("http_status", Value::from(log.http_status)),
        ("outcome", outcome),
    ])
}

fn gliner_value(log: &GlinerRequestLog) -> Value {
    let outcome = match &log.outcome {
        GlinerOutcome::Succeeded { spans, chosen } => object(vec![
            ("status", Value::from("succeeded")),
            (
                "spans",
                Value::from(
                    spans
                        .iter()
                        .map(|span| object(vec![("text", Value::from(span.text.as_str()))]))
                        .collect::<Vec<Value>>(),
                ),
            ),
            (
                "chosen",
                match chosen {
                    Some(title) => Value::from(title.text.as_str()),
                    None => Value::Null,
                },
            ),
        ]),
        GlinerOutcome::Failed { message } => object(vec![
            ("status", Value::from("failed")),
            ("message", Value::from(message.as_str())),
        ]),
    };
    object(vec![
        ("serp_request_id", Value::from(id_text(log.serp_request_id))),
        (
            "request",
            object(vec![
                ("id", Value::from(id_text(log.request.id))),
                ("model", Value::from(log.request.model.as_str())),
                ("labels", texts(&log.request.labels)),
                ("threshold", Value::from(f32::from_bits(log.request.threshold.bits))),
                ("searched_name", Value::from(log.request.searched_name.as_str())),
                ("inputs", texts(&log.request.inputs)),
                ("started_at", Value::from(time_text(log.request.started_at))),
            ]),
        ),
        ("duration_ms", Value::from(log.duration_ms)),
        ("outcome", outcome),
    ])
}

fn line_text(line: &LogLine) -> String {
    match line {
        LogLine::Serp(log) => serp_value(log),
        LogLine::Jev(log) => jev_value(log),
        LogLine::Gliner(log) => gliner_value(log),
    }
    .to_string()
}

fn text_of(value: &Value) -> String {
    value.as_str().unwrap_or_default().to_string()
}

fn id_of(value: &Value) -> u128 {
    uuid::Uuid::parse_str(&text_of(value)).expect("an id").as_u128()
}

fn list_of(value: &Value) -> Vec<String> {
    value.as_array().into_iter().flatten().map(text_of).collect()
}

fn read_line(text: &str) -> Result<LogLine, String> {
    let value: Value = serde_json::from_str(text).map_err(|error| error.to_string())?;
    let at = Timestamp { secs: 1, nanos: 0 };
    let request = &value["request"];
    let outcome = &value["outcome"];
    let succeeded = outcome["status"] == "succeeded";
    let http_status = value["http_status"].as_u64().map(|status| status as u16);
    if value.get("serp_request_id").is_none() {
        return Ok(LogLine::Serp(SerpRequestLog {
            request: SerpRequest {
                id: id_of(&request["id"]),
                endpoint: text_of(&request["endpoint"]),
                engine: text_of(&request["engine"]),
                query: text_of(&request["query"]),
                num: request["num"].as_u64().unwrap_or_default() as u32,
                sent_at: at,
            },
            http_status,
            outcome: if succeeded {
                RequestOutcome::Succeeded {
                    hit_count: outcome["hit_count"].as_u64().unwrap_or_default() as usize,
                }
            } else {
                RequestOutcome::Failed { message: text_of(&outcome["message"]) }
            },
            jev: None,
            gliner: None,
        }));
    }
    let serp_request_id = id_of(&value["serp_request_id"]);
    if request.get("state").is_some() {
        Ok(LogLine::Jev(JevRequestLog {
            serp_request_id,
            request: JevRequest {
                id: id_of(&request["id"]),
                endpoint: text_of(&request["endpoint"]),
                model: text_of(&request["model"]),
                question_key: text_of(&request["question_key"]),
                instructions: text_of(&request["instructions"]),
                state: text_of(&request["state"]),
                sent_at: at,
            },
            http_status,
            outcome: if succeeded {
                JevOutcome::Succeeded {
                    score: score(outcome["score"].as_f64().unwrap_or_default()),
                    answers_question: outcome["answers_question"] == true,
                    model: text_of(&outcome["model"]),
                }
            } else {
                JevOutcome::Failed { message: text_of(&outcome["message"]) }
            },
        }))
    } else {
        let spans = outcome["spans"].as_array().cloned().unwrap_or_default();
        Ok(LogLine::Gliner(GlinerRequestLog {
            serp_request_id,
            request: GlinerRequest {
                id: id_of(&request["id"]),
                model: text_of(&request["model"]),
                labels: list_of(&request["labels"]),
                threshold: probability(request["threshold"].as_f64().unwrap_or_default() as f32),
                searched_name: text_of(&request["searched_name"]),
                inputs: list_of(&request["inputs"]),
                started_at: at,
            },
            duration_ms: value["duration_ms"].as_u64().unwrap_or_default(),
            outcome: if succeeded {
                GlinerOutcome::Succeeded {
                    spans: spans
                        .iter()
                        .map(|span| GlinerSpan {
                            input: 0,
                            start: 0,
                            end: 0,
                            text: text_of(&span["text"]),
                            label: String::new(),
                            probability: probability(0.0),
                            attribution: None,
                        })
                        .collect(),
                    chosen: outcome["chosen"].as_str().map(|text| ExtractedTitle {
                        text: text.to_string(),
                        probability: probability(0.0),
                    }),
                }
            } else {
                GlinerOutcome::Failed { message: text_of(&outcome["message"]) }
            },
        }))
    }
}

#[test]
fn health_reports_ok() {
    let health = handlers::health("0.1.0");
    assert_eq!(health.status, "ok");
    assert_eq!(health.version, "0.1.0");
}

#[test]
fn finds_a_seeded_title_ignoring_case() {
    let mut service = Service::empty();
    let answer = service.lookup("ada lovelace", "ANALYTICAL ENGINE CO");
    assert_eq!(answer.title.as_deref(), Some("Lead Programmer"));
    assert_eq!(answer.source, Source::Directory);
    assert_eq!(answer.name, "Ada Lovelace");
    // A curated record must not cost an API credit.
    assert_eq!(service.searches, 0);
}

#[test]
fn unknown_person_falls_back_to_search() {
    let mut service = Service::returning(
        "Jane Doe is the Vice President of Engineering at Acme Corp and joined in 2019.",
    )
    .finding("Vice President of Engineering");
    let answer = service.lookup("Jane Doe", "Acme Corp");
    assert_eq!(answer.source, Source::SerpApi);
    assert_eq!(answer.title.as_deref(), Some("Vice President of Engineering"));
    assert_eq!(answer.title_source, TitleSource::Gliner);
    assert_eq!(
        answer.query.as_deref(),
        Some("What is the job title for Jane Doe at Acme Corp?")
    );
    assert_eq!(answer.hits[0].link, "https://example.com/team");
    assert_eq!(service.searches, 1);
}

#[test]
fn repeat_lookup_is_served_from_the_store() {
    let mut service =
        Service::returning("Jane Doe is a Staff Engineer").finding("Staff Engineer");
    service.lookup("Jane Doe", "Acme");
    // Different casing must hit the same stored entry.
    let answer = service.lookup("jane doe", "ACME");
    assert_eq!(answer.source, Source::SerpApiCached);
    assert_eq!(answer.title.as_deref(), Some("Staff Engineer"));
    assert_eq!(service.searches, 1, "second lookup should not re-query the search provider");
    assert_eq!(service.store.stored_search_count(), 1);
}

#[test]
fn refresh_bypasses_the_stored_search() {
    let mut service = Service::returning("Jane Doe is a Staff Engineer");
    service.lookup("Jane Doe", "Acme");
    let answer = service.ask("Jane Doe", "Acme", true).expect("lookup succeeds");
    assert_eq!(answer.source, Source::SerpApi);
    assert_eq!(service.searches, 2);
}

#[test]
fn search_without_a_recognisable_title_returns_a_null_title() {
    let mut service = Service::returning("No information is available here");
    let answer = service.lookup("Nobody", "Nowhere");
    assert!(answer.title.is_none());
    assert_eq!(answer.title_source, TitleSource::NotFound);
    assert_eq!(answer.source, Source::SerpApi);
}

#[test]
fn upstream_failure_is_a_502() {
    let mut service = Service::failing("Invalid API key");
    let error = service.ask("Jane Doe", "Acme", false).expect_err("should fail");
    let (status, body) = error.into_response();
    assert_eq!(status, 502);
    assert_eq!(body.error, "upstream_error");
    assert!(body.message.contains("Invalid API key"));
    assert_eq!(body.message, "search provider returned 401: Invalid API key");
}

#[test]
fn saves_the_serpapi_request() {
    let mut service = Service::returning("Jane Doe is a Staff Engineer");
    service.lookup("Jane Doe", "Acme");
    let requests = service.store.requests(None);
    assert_eq!(requests.len(), 1);
    let log = &requests[0];
    assert_eq!(log.request.engine, "google");
    assert_eq!(log.request.query, "What is the job title for Jane Doe at Acme?");
    assert_eq!(log.http_status, Some(200));
    assert!(matches!(log.outcome, RequestOutcome::Succeeded { hit_count: 1 }));
    // The stored search points back at the same request.
    let stored = service
        .store
        .stored_search("Jane Doe", "Acme")
        .expect("search should be stored");
    assert_eq!(stored.request.id, log.request.id);
}

#[test]
fn saves_failed_serpapi_requests() {
    let mut service = Service::failing("Invalid API key");
    assert!(service.ask("Jane Doe", "Acme", false).is_err());
    let requests = service.store.requests(None);
    assert_eq!(requests.len(), 1, "a failed request must still be saved");
    assert_eq!(requests[0].http_status, Some(401));
    assert!(matches!(
        &requests[0].outcome,
        RequestOutcome::Failed { message } if message.contains("Invalid API key")
    ));
    // A failure must not be cached as an answer.
    assert_eq!(service.store.stored_search_count(), 0);
}

#[test]
fn saved_request_json_never_contains_the_api_key() {
    let mut service = Service::returning("Jane Doe is a Staff Engineer");
    service.lookup("Jane Doe", "Acme");
    let requests = service.store.requests(None);
    let saved = serp_value(&requests[0]);
    assert!(saved["request"].get("api_key").is_none());
    assert_eq!(saved["outcome"]["status"], "succeeded");
    let shown = format!("{requests:?}");
    assert!(!shown.contains(SERP_KEY));
    assert!(!shown.contains(JEV_KEY));
}

#[test]
fn cached_and_directory_lookups_send_no_request() {
    let mut service = Service::returning("Jane Doe is a Staff Engineer");
    service.lookup("Jane Doe", "Acme");
    service.lookup("Jane Doe", "Acme");
    service.lookup("Ada Lovelace", "Analytical Engine Co");
    assert_eq!(service.store.requests(None).len(), 1);
}

#[test]
fn lists_saved_requests_newest_first() {
    let mut service = Service::returning("Jane Doe is a Staff Engineer");
    service.lookup("First Person", "Acme");
    service.lookup("Second Person", "Acme");
    let list = handlers::list_requests(&service.store, &RequestListQuery { limit: None });
    assert_eq!(list.len(), 2);
    assert_eq!(list[0].request.query, "What is the job title for Second Person at Acme?");
    assert_eq!(list[0].request.engine, "google");
    assert_eq!(list[0].http_status, Some(200));
    assert!(matches!(list[0].outcome, RequestOutcome::Succeeded { hit_count: 1 }));
    let limited = handlers::list_requests(&service.store, &RequestListQuery { limit: Some(1) });
    assert_eq!(limited.len(), 1);
    assert_eq!(limited[0].request.id, list[0].request.id);
    let none = handlers::list_requests(&service.store, &RequestListQuery { limit: Some(0) });
    assert!(none.is_empty());
}

#[test]
fn fetches_one_saved_request_by_id() {
    let mut service = Service::returning("Jane Doe is a Staff Engineer");
    service.lookup("Jane Doe", "Acme");
    let id = service.store.requests(None)[0].request.id;
    let found = handlers::get_request(&service.store, &id_text(id)).expect("found");
    assert_eq!(found.request.id, id);
    // The other ways to write the same identifier.
    let plain = id_text(id).replace('-', "").to_uppercase();
    for text in [plain, format!("{{{}}}", id_text(id)), format!("urn:uuid:{}", id_text(id))] {
        let found = handlers::get_request(&service.store, &text).expect("found");
        assert_eq!(found.request.id, id);
    }

    let other = uuid::Uuid::new_v4();
    let missing = handlers::get_request(&service.store, &other.to_string()).expect_err("missing");
    let (status, body) = missing.into_response();
    assert_eq!(status, 404);
    assert_eq!(body.error, "not_found");
    assert_eq!(body.message, format!("no saved request with id {other}"));

    let bad = handlers::get_request(&service.store, "not-a-uuid").expect_err("bad id");
    let (status, body) = bad.into_response();
    assert_eq!(status, 400);
    assert_eq!(body.error, "bad_request");
    assert_eq!(body.message, "`not-a-uuid` is not a valid request id");
}

#[test]
fn saved_requests_survive_a_restart() {
    // First run: one good request, one failed one.
    let mut first = Service::returning("Jane Doe is a Staff Engineer");
    first.store = reopen("").expect("open log");
    first.lookup("Jane Doe", "Acme");
    first.search_error = Some("Invalid API key");
    assert!(first.ask("Sam Lee", "Acme", false).is_err());

    // Second run: a fresh store reading the same file.
    let raw = first.file.clone();
    let reloaded = first.restarted();
    let saved = reloaded.store.requests(None);
    assert_eq!(saved.len(), 2);
    assert_eq!(saved[0].request.query, "What is the job title for Sam Lee at Acme?");
    assert!(matches!(saved[0].outcome, RequestOutcome::Failed { .. }));
    assert!(matches!(saved[1].outcome, RequestOutcome::Succeeded { hit_count: 1 }));

    // The search, its check and its extraction, and the failed search, which
    // neither of the two ever sees.
    assert_eq!(raw.lines().count(), 4, "one JSON line per request");
    assert!(!raw.contains("api_key"));
    assert!(!raw.contains(SERP_KEY));
}

#[test]
fn corrupt_request_log_is_reported_at_startup() {
    let error = reopen("{not json}\n").err().expect("should fail to load");
    assert!(error.contains(":1:"), "names the bad line: {error}");
    assert!(error.starts_with("requests.jsonl:1: "), "{error}");
    let later = reopen("\n  \n{not json}\n").err().expect("should fail to load");
    assert!(later.contains(":3:"), "names the bad line: {later}");
}

#[test]
fn search_results_are_checked_by_jev() {
    let mut service = Service::returning("Jane Doe is a Staff Engineer").scoring(0.98);
    let answer = service.lookup("Jane Doe", "Acme");
    assert!(matches!(
        answer.verification,
        Some(Verification::Checked { score: given, answers_question: true, .. })
            if given == score(0.98)
    ));
    assert_eq!(service.checks, 1);
    // The check reads the search hits, not the extracted title.
    let text = service.last_text.clone().expect("text sent");
    assert!(text.contains("https://example.com/team"), "{text}");
    assert!(text.contains("Jane Doe is a Staff Engineer"), "{text}");
}

#[test]
fn low_jev_score_marks_the_answer_as_unconfirmed() {
    let mut service = Service::returning("Jane Doe is a Staff Engineer").scoring(0.01);
    let answer = service.lookup("Jane Doe", "Acme");
    assert!(matches!(
        answer.verification,
        Some(Verification::Checked { answers_question: false, .. })
    ));
    // Results the check doesn't trust aren't mined for a title.
    assert!(answer.title.is_none());
    assert_eq!(answer.title_source, TitleSource::Unverified);
}

#[test]
fn jev_failure_does_not_fail_the_lookup() {
    let mut service = Service::returning("Jane Doe is a Staff Engineer").failing_check();
    let answer = service.lookup("Jane Doe", "Acme");
    assert!(answer.title.is_none());
    assert_eq!(answer.title_source, TitleSource::Unverified);
    assert!(matches!(
        &answer.verification,
        Some(Verification::Failed { message }) if message.contains("authentication_error")
    ));
}

#[test]
fn empty_search_skips_jev() {
    let mut service = Service::empty();
    let answer = service.lookup("Nobody", "Nowhere");
    assert!(matches!(
        &answer.verification,
        Some(Verification::Skipped { reason }) if reason == "search returned no text to check"
    ));
    assert_eq!(service.checks, 0);
    assert_eq!(answer.title_source, TitleSource::Unverified);
}

#[test]
fn cached_lookup_reuses_the_stored_verification() {
    let mut service = Service::returning("Jane Doe is a Staff Engineer").scoring(0.98);
    service.lookup("Jane Doe", "Acme");
    service.lookup("Jane Doe", "Acme");
    let answer = service.lookup("Jane Doe", "Acme");
    assert_eq!(answer.source, Source::SerpApiCached);
    assert!(matches!(
        answer.verification,
        Some(Verification::Checked { score: given, .. }) if given == score(0.98)
    ));
    assert_eq!(service.checks, 1, "the check should only be asked once");
}

#[test]
fn directory_hits_are_not_sent_to_jev() {
    let mut service = Service::empty();
    let answer = service.lookup("Ada Lovelace", "Analytical Engine Co");
    assert!(answer.verification.is_none());
    assert_eq!(service.checks, 0);
}

#[test]
fn jev_request_is_saved_with_its_serp_request() {
    let mut service = Service::returning("Jane Doe is a Staff Engineer").scoring(0.98);
    service.lookup("Jane Doe", "Acme");
    let list = handlers::list_requests(&service.store, &RequestListQuery { limit: None });
    let entry = &list[0];
    let jev = entry.jev.as_ref().expect("check saved");
    assert_eq!(jev.serp_request_id, entry.request.id);
    assert_eq!(jev.request.model, "jev-latest");
    assert_eq!(
        jev.request.instructions,
        "Does this text answer the question What is the job title of Jane Doe at Acme?"
    );
    // The exact text that was judged, for comparison with the hits.
    assert!(jev.request.state.contains("Jane Doe is a Staff Engineer"));
    assert_eq!(jev.http_status, Some(200));
    assert!(matches!(
        jev.outcome,
        JevOutcome::Succeeded { score: given, .. } if given == score(0.98)
    ));
    // Also reachable through the single-request endpoint.
    let one = handlers::get_request(&service.store, &id_text(entry.request.id)).expect("found");
    assert!(matches!(
        one.jev.expect("check saved").outcome,
        JevOutcome::Succeeded { score: given, .. } if given == score(0.98)
    ));
}

#[test]
fn failed_jev_request_is_saved() {
    let mut service = Service::returning("Jane Doe is a Staff Engineer").failing_check();
    service.lookup("Jane Doe", "Acme");
    let jev = service.store.requests(None)[0]
        .jev
        .clone()
        .expect("failed check must still be saved");
    assert_eq!(jev.http_status, Some(401));
    assert!(matches!(
        jev.outcome,
        JevOutcome::Failed { ref message } if message.contains("authentication_error")
    ));
}

#[test]
fn no_jev_entry_when_jev_is_not_called() {
    let mut service = Service::empty();
    service.lookup("Nobody", "Nowhere");
    let list = handlers::list_requests(&service.store, &RequestListQuery { limit: None });
    assert_eq!(list.len(), 1);
    assert!(list[0].jev.is_none());
}

const OLD_LINE: &str = r#"{"request":{"id":"6f1c2c1e-1111-4a4a-9b9b-000000000001","endpoint":"https://serpapi.com/search","engine":"google","query":"What is the job title for Old Entry at Acme?","num":10,"sent_at":"2026-09-21T10:00:00Z"},"http_status":200,"outcome":{"status":"succeeded","hit_count":3}}"#;

#[test]
fn jev_requests_survive_a_restart_and_old_logs_still_load() {
    // A line from before checks were saved.
    let mut service = Service::returning("Jane Doe is a Staff Engineer").scoring(0.97);
    service.file = log_entry(OLD_LINE.to_string());
    service.store = reopen(&service.file).expect("open log");
    service.lookup("Jane Doe", "Acme");
    assert_eq!(
        service.file.lines().count(),
        4,
        "old line, search line, check line and extraction line"
    );

    let saved = service.restarted().store.requests(None);
    assert_eq!(saved.len(), 2, "check lines nest rather than becoming entries");
    let jev = saved[0].jev.as_ref().expect("check nested under its search");
    assert_eq!(jev.serp_request_id, saved[0].request.id);
    assert!(matches!(jev.outcome, JevOutcome::Succeeded { .. }));
    assert!(saved[1].jev.is_none(), "old entry has no check");
    assert!(matches!(saved[1].outcome, RequestOutcome::Succeeded { hit_count: 3 }));
}

#[test]
fn orphaned_jev_line_is_reported_at_startup() {
    let line = r#"{"serp_request_id":"6f1c2c1e-1111-4a4a-9b9b-00000000dead","request":{"id":"6f1c2c1e-2222-4a4a-9b9b-000000000002","endpoint":"https://api.typesafe.ai/v1/systemone","model":"jev-latest","question_key":"answers_job_title","instructions":"x","state":"x","sent_at":"2026-09-21T10:00:00Z"},"http_status":200,"outcome":{"status":"succeeded","score":0.9,"answers_question":true,"model":"jev-1.13.0"}}"#;
    let error = reopen(&log_entry(line.to_string())).err().expect("should fail to load");
    assert!(error.contains("unknown SerpAPI request"), "{error}");
    assert_eq!(
        error,
        "requests.jsonl:1: Jev request 6f1c2c1e-2222-4a4a-9b9b-000000000002 refers to unknown SerpAPI request 6f1c2c1e-1111-4a4a-9b9b-00000000dead"
    );
}

fn jane(score: f64) -> Service {
    Service::returning(
        "Jane Doe is the Vice President of Engineering at Acme Corp and joined in 2019.",
    )
    .scoring(score)
}

#[test]
fn gliner_extracts_the_title_when_jev_is_confident() {
    let mut service = jane(0.98).finding("Vice President of Engineering");
    let answer = service.lookup("Jane Doe", "Acme");
    assert_eq!(answer.title.as_deref(), Some("Vice President of Engineering"));
    assert_eq!(answer.title_source, TitleSource::Gliner);
    assert_eq!(answer.title_confidence, Some(probability(0.85)));
    assert_eq!(service.extractions, 1);
    assert_eq!(
        service.last_name.as_deref(),
        Some("Jane Doe"),
        "the extractor must be told whose title to find"
    );
}

#[test]
fn gliner_needs_a_score_strictly_above_seventy_percent() {
    let mut service = jane(0.70).finding("Vice President of Engineering");
    let answer = service.lookup("Jane Doe", "Acme");
    assert_eq!(answer.title_source, TitleSource::Unverified);
    assert!(answer.title.is_none());
    assert!(answer.title_confidence.is_none());
    assert_eq!(service.extractions, 0, "0.70 is not above the threshold");

    let just_above = f64::from_bits(0.70f64.to_bits() + 1);
    let mut service = jane(just_above).finding("Vice President of Engineering");
    assert_eq!(service.lookup("Jane Doe", "Acme").title_source, TitleSource::Gliner);
}

#[test]
fn low_jev_score_returns_no_title() {
    let mut service = jane(0.01).finding("Vice President of Engineering");
    let answer = service.lookup("Jane Doe", "Acme");
    assert_eq!(answer.title_source, TitleSource::Unverified);
    assert!(answer.title.is_none());
    assert_eq!(service.extractions, 0);
}

#[test]
fn gliner_finding_nothing_returns_no_title() {
    let mut service = jane(0.98);
    let answer = service.lookup("Jane Doe", "Acme");
    assert_eq!(answer.title_source, TitleSource::NotFound);
    assert!(answer.title.is_none());
    assert_eq!(service.extractions, 1);
}

#[test]
fn gliner_failure_returns_no_title() {
    let mut service = jane(0.98).failing_extraction();
    let answer = service.lookup("Jane Doe", "Acme");
    assert_eq!(answer.title_source, TitleSource::ExtractionFailed);
    assert!(answer.title.is_none());
}

#[test]
fn failed_jev_check_skips_gliner() {
    let mut service = Service::returning("Jane Doe is a Staff Engineer")
        .failing_check()
        .finding("Vice President of Engineering");
    let answer = service.lookup("Jane Doe", "Acme");
    assert_eq!(answer.title_source, TitleSource::Unverified);
    assert!(answer.title.is_none());
    assert_eq!(service.extractions, 0);
}

#[test]
fn cached_lookup_keeps_the_gliner_title_without_rerunning_it() {
    let mut service = jane(0.98).finding("Vice President of Engineering");
    service.lookup("Jane Doe", "Acme");
    let answer = service.lookup("Jane Doe", "Acme");
    assert_eq!(answer.source, Source::SerpApiCached);
    assert_eq!(answer.title_source, TitleSource::Gliner);
    assert_eq!(answer.title.as_deref(), Some("Vice President of Engineering"));
    assert_eq!(service.extractions, 1);
}

#[test]
fn directory_titles_are_labelled_as_such() {
    let answer = Service::empty().lookup("Ada Lovelace", "Analytical Engine Co");
    assert_eq!(answer.title_source, TitleSource::Directory);
}

#[test]
fn gliner_extraction_is_saved_with_its_serp_request() {
    let mut service = jane(0.98).finding("Vice President of Engineering");
    service.lookup("Jane Doe", "Acme");
    let list = handlers::list_requests(&service.store, &RequestListQuery { limit: None });
    let entry = &list[0];
    let gliner = entry.gliner.as_ref().expect("extraction saved");
    assert_eq!(gliner.serp_request_id, entry.request.id);
    assert_eq!(gliner.request.searched_name, "Jane Doe");
    assert_eq!(gliner.request.labels, vec!["job title", "person"]);
    assert_eq!(gliner.request.threshold, probability(0.5));
    // The exact text that was read, for comparison with the hits.
    assert!(gliner.request.inputs[0].contains("Vice President of Engineering at Acme Corp"));
    assert_eq!(gliner.duration_ms, 42);
    match &gliner.outcome {
        GlinerOutcome::Succeeded { spans, chosen } => {
            assert_eq!(
                chosen.as_ref().map(|title| title.text.as_str()),
                Some("Vice President of Engineering")
            );
            assert_eq!(spans.len(), 2, "person and title spans are both kept");
            let title_span = spans.iter().find(|span| span.label == "job title").unwrap();
            assert_eq!(title_span.attribution, Some(Attribution::SearchedPerson));
            let person_span = spans.iter().find(|span| span.label == "person").unwrap();
            assert!(person_span.attribution.is_none());
        }
        other => panic!("unexpected {other:?}"),
    }
    // The check sits alongside it on the same entry.
    assert_eq!(entry.jev.as_ref().expect("check saved").serp_request_id, entry.request.id);
    // And the single-request endpoint returns it too.
    let one = handlers::get_request(&service.store, &id_text(entry.request.id)).expect("found");
    assert!(matches!(
        one.gliner.expect("extraction saved").outcome,
        GlinerOutcome::Succeeded { chosen: Some(title), .. }
            if title.text == "Vice President of Engineering"
    ));
}

#[test]
fn gliner_finding_nothing_is_saved_with_no_choice() {
    let mut service = jane(0.98);
    service.lookup("Jane Doe", "Acme");
    let gliner = service.store.requests(None)[0].gliner.clone().expect("extraction saved");
    assert!(matches!(gliner.outcome, GlinerOutcome::Succeeded { chosen: None, .. }));
}

#[test]
fn failed_gliner_extraction_is_saved() {
    let mut service = jane(0.98).failing_extraction();
    service.lookup("Jane Doe", "Acme");
    let gliner = service.store.requests(None)[0]
        .gliner
        .clone()
        .expect("a failed extraction must still be saved");
    assert!(matches!(
        gliner.outcome,
        GlinerOutcome::Failed { ref message } if message.contains("model exploded")
    ));
    assert_eq!(gliner.request.searched_name, "Jane Doe");
}

#[test]
fn no_gliner_entry_when_gliner_does_not_run() {
    // A score of exactly 0.70 is not enough to run the extractor.
    let mut service = jane(0.70).finding("Vice President of Engineering");
    service.lookup("Jane Doe", "Acme");
    // A cached repeat runs nothing either.
    service.lookup("Jane Doe", "Acme");
    let list = handlers::list_requests(&service.store, &RequestListQuery { limit: None });
    assert_eq!(list.len(), 1);
    assert!(list[0].gliner.is_none());
    assert!(list[0].jev.is_some());
}

#[test]
fn gliner_extractions_survive_a_restart() {
    let mut service = Service::returning("Jane Doe is a Staff Engineer")
        .scoring(0.97)
        .finding("Staff Engineer");
    service.store = reopen("").expect("open log");
    service.lookup("Jane Doe", "Acme");
    assert_eq!(service.file.lines().count(), 3, "search, check and extraction lines");

    let saved = service.restarted().store.requests(None);
    assert_eq!(saved.len(), 1, "check and extraction lines nest under their search");
    assert!(saved[0].jev.is_some());
    let gliner = saved[0].gliner.as_ref().expect("extraction nested under its search");
    assert_eq!(gliner.serp_request_id, saved[0].request.id);
    assert!(matches!(
        &gliner.outcome,
        GlinerOutcome::Succeeded { chosen: Some(title), spans }
            if title.text == "Staff Engineer" && spans.len() == 2
    ));
}

#[test]
fn orphaned_gliner_line_is_reported_at_startup() {
    let line = r#"{"serp_request_id":"6f1c2c1e-1111-4a4a-9b9b-00000000dead","request":{"id":"6f1c2c1e-3333-4a4a-9b9b-000000000003","model":"gliner_large-v2.1","labels":["job title","person"],"threshold":0.5,"searched_name":"Jane Doe","inputs":["x"],"started_at":"2026-09-21T10:00:00Z"},"duration_ms":500,"outcome":{"status":"succeeded","spans":[],"chosen":null}}"#;
    let error = reopen(&log_entry(line.to_string())).err().expect("should fail to load");
    assert!(error.contains("GLiNER extraction"), "{error}");
}

#[test]
fn blank_query_is_a_400() {
    let mut service = Service::empty();
    let error = service.ask(" ", "Acme", false).expect_err("should be refused");
    let (status, body) = error.into_response();
    assert_eq!(status, 400);
    assert_eq!(body.error, "bad_request");
    assert_eq!(body.message, "`name` and `company` must not be empty");
    assert_eq!(service.searches, 0);
    assert!(service.ask("Jane Doe", "\t", true).is_err());
    assert_eq!(service.searches, 0);
}

#[test]
fn creates_a_title() {
    let mut service = Service::empty();
    let payload = NewTitle {
        name: "Alan Turing".to_string(),
        company: "NPL".to_string(),
        title: "Principal Scientist".to_string(),
    };
    let record = handlers::create_title(&mut service.store, &payload).expect("created");
    assert_eq!(record.title, "Principal Scientist");
    // The identifier is a random one, in its written form.
    let id = uuid::Uuid::from_u128(record.id);
    assert_eq!(id.get_version_num(), 4);
    assert_eq!(service.store.list().len(), 3);

    let answer = service.lookup("  alan TURING ", "npl");
    assert_eq!(answer.title.as_deref(), Some("Principal Scientist"));
    assert_eq!(answer.name, "Alan Turing");
    assert_eq!(service.searches, 0);
}

#[test]
fn lists_seeded_titles() {
    let store = Store::with_seed_data();
    assert_eq!(handlers::list_titles(&store).len(), 2);
}

#[test]
fn blank_titles_are_refused() {
    let mut store = Store::default();
    for (name, company, title) in [(" ", "NPL", "Scientist"), ("Alan", "", "Scientist"), ("Alan", "NPL", "\n")] {
        let payload = NewTitle {
            name: name.to_string(),
            company: company.to_string(),
            title: title.to_string(),
        };
        let error = handlers::create_title(&mut store, &payload).expect_err("refused");
        let (status, body) = error.into_response();
        assert_eq!(status, 400);
        assert_eq!(body.message, "`name`, `company` and `title` must not be empty");
    }
    assert!(store.list().is_empty());
    let payload = NewTitle {
        name: " Alan Turing\n".to_string(),
        company: "\tNPL".to_string(),
        title: " Principal Scientist ".to_string(),
    };
    let record = handlers::create_title_with_id(&mut store, &payload, 7).expect("created");
    assert_eq!((record.id, record.name.as_str()), (7, "Alan Turing"));
    assert_eq!((record.company.as_str(), record.title.as_str()), ("NPL", "Principal Scientist"));
}

#[test]
fn curated_titles_come_before_a_refresh() {
    let mut service = Service::returning("Ada Lovelace is a Countess");
    let answer = service
        .ask("Ada Lovelace", "Analytical Engine Co", true)
        .expect("lookup succeeds");
    assert_eq!(answer.source, Source::Directory);
    assert_eq!(service.searches, 0);
}

#[test]
fn lookups_ignore_white_space_around_names() {
    let mut service = Service::returning("Jane Doe is a Staff Engineer");
    let first = service.lookup("  Jane Doe\n", "\tAcme ");
    assert_eq!((first.name.as_str(), first.company.as_str()), ("Jane Doe", "Acme"));
    assert_eq!(service.lookup("Jane Doe", "Acme").source, Source::SerpApiCached);
}

#[test]
fn lookups_ignore_case_beyond_ascii() {
    let mut service = Service::returning("José is a Staff Engineer");
    let first = service.lookup(" José  Roy", "Ærø");
    let again = service.lookup("JOSÉ ROY ", "ÆRØ");
    assert_eq!(again.source, Source::SerpApiCached);
    assert_eq!(again.retrieved_at, first.retrieved_at);
    assert_eq!(service.searches, 1);
    // Somebody else is searched for.
    service.lookup("Jose Roy", "Ærø");
    assert_eq!(service.searches, 2);
}

#[test]
fn answers_tell_the_time() {
    let before = chrono::Utc::now();
    let answer = Service::returning("Jane Doe is a Staff Engineer").lookup("Jane Doe", "Acme");
    let after = chrono::Utc::now();
    assert!(before.timestamp() <= answer.retrieved_at.secs);
    assert!(answer.retrieved_at.secs <= after.timestamp());
    assert!(answer.retrieved_at.nanos < 1_000_000_000);
}

#[test]
fn requests_have_identifiers_of_their_own() {
    let mut service = Service::returning("Jane Doe is a Staff Engineer");
    service.lookup("First Person", "Acme");
    service.lookup("Second Person", "Acme");
    let list = service.store.requests(None);
    assert_ne!(list[0].request.id, list[1].request.id);
    for log in list {
        assert_eq!(uuid::Uuid::from_u128(log.request.id).get_version_num(), 4);
    }
}

#[test]
fn ports_are_read_from_text() {
    assert_eq!(config::port(None), 3000);
    assert_eq!(config::port(Some("8080")), 8080);
    assert_eq!(config::port(Some("+80")), 80);
    assert_eq!(config::port(Some("00080")), 80);
    assert_eq!(config::port(Some("65535")), 65535);
    for text in ["65536", "99999999999", "", "+", "-1", " 80", "80 ", "8o80", "++80"] {
        assert_eq!(config::parse_port(text), None, "{text}");
        assert_eq!(text.parse::<u16>().ok(), None, "{text}");
        assert_eq!(config::port(Some(text)), 3000, "{text}");
    }
}

#[test]
fn an_existing_log_is_never_overwritten() {
    assert_eq!(config::migrate_legacy_request_log(true, false), Migration::Move);
    assert_eq!(config::migrate_legacy_request_log(true, true), Migration::Leave);
    assert_eq!(config::migrate_legacy_request_log(false, true), Migration::Nothing);
    assert_eq!(config::migrate_legacy_request_log(false, false), Migration::Nothing);
}
