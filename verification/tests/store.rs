use title_finder::models::RequestOutcome;
use title_finder::models::SearchHit;
use title_finder::models::SerpRequest;
use title_finder::models::SerpRequestLog;
use title_finder::models::Timestamp;
use title_finder::models::TitleSource;
use title_finder::models::Verification;
use title_finder::search::SearchAttempt;
use title_finder::store::log_entry;
use title_finder::store::log_lines;
use title_finder::store::ChosenTitle;
use title_finder::store::LogLine;
use title_finder::store::Store;
use title_finder::verify::JevAttempt;
use title_finder::verify::JevClient;

const AT: Timestamp = Timestamp { secs: 1, nanos: 0 };

fn request(id: u128, query: &str) -> SerpRequest {
    SerpRequest {
        id,
        endpoint: "https://serpapi.com/search".to_string(),
        engine: "google".to_string(),
        query: query.to_string(),
        num: 10,
        sent_at: AT,
    }
}

fn searched(id: u128, query: &str) -> SearchAttempt {
    SearchAttempt { request: request(id, query), http_status: Some(200), result: Ok(Vec::new()) }
}

fn save(store: &mut Store, name: &str, company: &str, title: &str) {
    store.save_search_at(
        name,
        company,
        request(1, "q"),
        ChosenTitle {
            text: Some(title.to_string()),
            source: TitleSource::Gliner,
            confidence: None,
        },
        vec![SearchHit {
            title: String::new(),
            link: String::new(),
            snippet: "s".to_string(),
        }],
        Verification::Skipped { reason: "r".to_string() },
        AT,
    );
}

#[test]
fn keys_ignore_case_and_white_space() {
    assert_eq!(
        Store::search_key("Ada  Lovelace", "Analytical Engine Co"),
        Store::search_key("ada lovelace", " Analytical Engine Co ")
    );
    assert_eq!(Store::search_key(" Ada\t\u{a0}Lovelace\n", "ACME"), "ada lovelace\nacme");
    assert_eq!(Store::search_key("ÉLODIE  roy", "Ærø"), "élodie roy\nærø");
    // The last sigma of a word has a small letter of its own.
    assert_eq!(Store::search_key("ΟΔΟΣ ΟΔΟΣ", "c"), "οδος οδος\nc");
    assert_eq!(Store::search_key("AΣ B", "c"), "aς b\nc");
}

#[test]
fn keys_tell_people_apart() {
    assert_ne!(Store::search_key("ab", "c"), Store::search_key("a", "bc"));
    assert_ne!(Store::search_key("a@b", "c"), Store::search_key("a", "b@c"));
    assert_ne!(Store::search_key("a\nb", "c"), Store::search_key("a", "b\nc"));
    assert_ne!(Store::search_key("a b", "c"), Store::search_key("ab", "c"));
    let mut store = Store::default();
    save(&mut store, "a@b", "c", "Engineer");
    assert!(store.stored_search("A@B", " c").is_some());
    assert!(store.stored_search("a", "b@c").is_none());
}

#[test]
fn a_search_replaces_the_one_before() {
    let mut store = Store::default();
    save(&mut store, "Jane Doe", "Acme", "Engineer");
    save(&mut store, "JANE DOE", "acme ", "Manager");
    save(&mut store, "Sam Lee", "Acme", "Clerk");
    assert_eq!(store.stored_search_count(), 2);
    let stored = store.stored_search("jane doe", "Acme").expect("stored");
    assert_eq!(stored.title.as_deref(), Some("Manager"));
    assert_eq!(stored.retrieved_at, AT);
    assert!(store.stored_search("Jane", "Acme").is_none());
}

#[test]
fn titles_are_found_in_any_case() {
    let mut store = Store::default();
    let record = store.insert_with_id(3, "José Roy", "Ærø Acme", "CTO");
    assert_eq!(record.id, 3);
    assert_eq!(store.find("JOSÉ ROY", "ÆRØ ACME").expect("found").id, 3);
    assert_eq!(store.find("josé roy", "ærø acme").expect("found").id, 3);
    assert!(store.find("Jose Roy", "Ærø Acme").is_none());
    assert!(store.find("José Roy", "Ærø Acm").is_none());
    assert!(store.insert("A", "B", "C").id != 3);
}

#[test]
fn without_a_log_file_nothing_is_to_be_written() {
    let mut store = Store::default();
    assert!(store.request_log().is_none());
    assert!(store.record_request(&searched(1, "q")).1.is_none());
    let mut store = Store::default().with_request_log("log", Vec::new()).expect("opened");
    assert_eq!(store.request_log(), Some("log"));
    assert!(matches!(store.record_request(&searched(1, "q")).1, Some(LogLine::Serp(_))));
}

#[test]
fn a_check_goes_under_the_newest_search_it_names() {
    let mut store = Store::default();
    store.record_request(&searched(1, "first"));
    store.record_request(&searched(1, "second"));
    store.record_request(&searched(2, "third"));
    let check = |reason: &str| JevAttempt {
        request: JevClient::new("k".to_string()).request("t", "n", "c"),
        http_status: None,
        result: Ok(Verification::Skipped { reason: reason.to_string() }),
    };
    let (log, line) = store.record_jev_request(1, &check("a \"b\""));
    assert!(line.is_none());
    assert_eq!(log.serp_request_id, 1);
    let list = store.requests(None);
    assert_eq!(list[0].request.query, "third");
    assert!(list[0].jev.is_none());
    assert!(list[1].jev.is_some());
    assert!(list[2].jev.is_none());
    // A single request is the oldest that has the identifier.
    assert_eq!(store.request(1).expect("saved").request.query, "first");
    assert!(store.request(9).is_none());
    // One that names no search is recorded nowhere.
    store.record_jev_request(9, &check("r"));
    assert_eq!(store.requests(None).len(), 3);
}

#[test]
fn what_is_no_verdict_is_shown_in_full() {
    let mut store = Store::default();
    let mut shown = |result: Verification| {
        let attempt = JevAttempt {
            request: JevClient::new("k".to_string()).request("t", "n", "c"),
            http_status: None,
            result: Ok(result),
        };
        format!("{:?}", store.record_jev_request(1, &attempt).0.outcome)
    };
    let reason = "say \"no\"\n\té".to_string();
    let skipped = Verification::Skipped { reason: reason.clone() };
    let expected = format!("unexpected verification {skipped:?}");
    assert!(shown(skipped).contains(&format!("{expected:?}")));
    let failed = Verification::Failed { message: reason };
    let expected = format!("unexpected verification {failed:?}");
    assert!(shown(failed).contains(&format!("{expected:?}")));
}

#[test]
fn lines_are_read_back_as_they_are_written() {
    let mut file = String::new();
    for text in ["{\"a\":1}", "{\"b\":\"é\"}", "  {} "] {
        file.push_str(&log_entry(text.to_string()));
    }
    assert_eq!(
        log_lines(&file),
        vec![
            (1, "{\"a\":1}".to_string()),
            (2, "{\"b\":\"é\"}".to_string()),
            (3, "  {} ".to_string()),
        ]
    );
}

#[test]
fn blank_lines_and_line_endings_are_skipped() {
    assert!(log_lines("").is_empty());
    assert!(log_lines("\n\r\n \t\n").is_empty());
    assert_eq!(
        log_lines("\r\na\r\n\n b\r\nc"),
        vec![(2, "a".to_string()), (4, " b".to_string()), (5, "c".to_string())]
    );
    // A bare carriage return at the very end belongs to the line.
    assert_eq!(log_lines("a\r"), vec![(1, "a\r".to_string())]);
    assert_eq!("a\r".lines().next(), Some("a\r"));
}

#[test]
fn a_bad_line_is_located() {
    let good = LogLine::Serp(SerpRequestLog {
        request: request(1, "q"),
        http_status: None,
        outcome: RequestOutcome::Failed { message: "m".to_string() },
        jev: None,
        gliner: None,
    });
    let lines = vec![(1, Ok(good)), (12, Err("expected value".to_string()))];
    let error = Store::default().with_request_log("data/log", lines).err().expect("refused");
    assert_eq!(error, "data/log:12: expected value");
}

#[test]
fn a_loaded_log_replaces_the_requests() {
    let mut store = Store::with_seed_ids(1, 2);
    store.record_request(&searched(5, "old"));
    let line = LogLine::Serp(SerpRequestLog {
        request: request(6, "new"),
        http_status: Some(200),
        outcome: RequestOutcome::Succeeded { hit_count: 2 },
        jev: None,
        gliner: None,
    });
    let store = store.with_request_log("log", vec![(1, Ok(line))]).expect("loaded");
    assert_eq!(store.requests(None).len(), 1);
    assert_eq!(store.requests(Some(9))[0].request.query, "new");
    assert_eq!(store.list().len(), 2);
}
