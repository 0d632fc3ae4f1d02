use title_finder::error::ApiError;
use title_finder::models::Timestamp;
use title_finder::search::build_query;
use title_finder::search::AnswerBox;
use title_finder::search::OrganicResult;
use title_finder::search::SearchError;
use title_finder::search::SearchReply;
use title_finder::search::SerpApiClient;
use title_finder::search::SerpApiResponse;

fn some(text: &str) -> Option<String> {
    Some(text.to_string())
}

fn no_box() -> AnswerBox {
    AnswerBox { title: None, link: None, answer: None, snippet: None, result: None }
}

fn response(answer_box: Option<AnswerBox>) -> SerpApiResponse {
    SerpApiResponse {
        error: None,
        answer_box,
        organic_results: vec![
            OrganicResult { title: some("One"), link: some("https://one"), snippet: None },
            OrganicResult { title: None, link: None, snippet: some("two") },
        ],
    }
}

#[test]
fn the_question_names_person_and_company() {
    assert_eq!(
        build_query("Jane Doe", "Acme"),
        "What is the job title for Jane Doe at Acme?"
    );
}

#[test]
fn the_answer_box_comes_first() {
    let answer_box = AnswerBox { title: some("Box"), answer: some("CEO"), ..no_box() };
    let hits = SerpApiClient::parse(200, "", Ok(response(Some(answer_box)))).expect("hits");
    let shown: Vec<(&str, &str, &str)> = hits
        .iter()
        .map(|hit| (hit.title.as_str(), hit.link.as_str(), hit.snippet.as_str()))
        .collect();
    assert_eq!(
        shown,
        vec![("Box", "", "CEO"), ("One", "https://one", ""), ("", "", "two")]
    );
}

#[test]
fn a_box_without_text_is_no_hit() {
    let hits = SerpApiClient::parse(200, "", Ok(response(Some(no_box())))).expect("hits");
    assert_eq!(hits.len(), 2);
    assert_eq!(SerpApiClient::parse(200, "", Ok(response(None))).expect("hits").len(), 2);
}

#[test]
fn a_box_says_the_first_text_it_has() {
    let all = AnswerBox { answer: some("a"), snippet: some("s"), result: some("r"), ..no_box() };
    assert_eq!(all.text(), Some("a"));
    let two = AnswerBox { snippet: some("s"), result: some("r"), ..no_box() };
    assert_eq!(two.text(), Some("s"));
    let one = AnswerBox { result: some("r"), ..no_box() };
    assert_eq!(one.text(), Some("r"));
    assert_eq!(no_box().text(), None);
}

#[test]
fn an_error_counts_beside_a_good_status() {
    let quota = SerpApiResponse { error: some("quota exhausted"), ..response(None) };
    let error = SerpApiClient::parse(200, "", Ok(quota)).expect_err("an error");
    assert_eq!(error.to_string(), "search provider returned 200: quota exhausted");
}

#[test]
fn a_bad_status_is_an_error_without_one() {
    let error = SerpApiClient::parse(503, "", Ok(response(None))).expect_err("an error");
    assert_eq!(
        error.to_string(),
        "search provider returned 503: search provider rejected the request"
    );
}

#[test]
fn bodies_that_are_not_understood() {
    let decode = SerpApiClient::parse(299, "x", Err("bad JSON".to_string())).expect_err("an error");
    assert!(matches!(&decode, SearchError::Decode(message) if message == "bad JSON"));
    assert_eq!(decode.to_string(), "could not parse search response: bad JSON");
    // A page in place of an answer: its beginning says more than the parser.
    let page = format!("{}tail", "ü".repeat(200));
    let error = SerpApiClient::parse(300, &page, Err("bad JSON".to_string())).expect_err("an error");
    assert_eq!(
        error.to_string(),
        format!("search provider returned 300: {}", "ü".repeat(200))
    );
}

#[test]
fn requests_never_hold_the_key() {
    let client = SerpApiClient::with_base_url("hidden".to_string(), "http://localhost:1/".to_string());
    let at = Timestamp { secs: 1, nanos: 2 };
    let request = client.request_at("why?", 5, at);
    assert_eq!(request.id, 5);
    assert_eq!(request.endpoint, "http://localhost:1/search");
    assert_eq!(request.engine, "google");
    assert_eq!(request.query, "why?");
    assert_eq!(request.num, 10);
    assert_eq!(request.sent_at, at);
    assert!(!format!("{request:?}").contains("hidden"));
    // Only what is sent holds it.
    let sent = client.parameters(&request);
    let sent: Vec<(&str, &str)> =
        sent.iter().map(|(key, value)| (key.as_str(), value.as_str())).collect();
    assert_eq!(
        sent,
        vec![("engine", "google"), ("q", "why?"), ("num", "10"), ("api_key", "hidden")]
    );
    assert_eq!(
        SerpApiClient::new("hidden".to_string()).request("why?").endpoint,
        "https://serpapi.com/search"
    );
}

#[test]
fn replies_become_attempts() {
    let client = SerpApiClient::new("secret-key".to_string());
    let lost = client.attempt(client.request("q"), SearchReply::NoResponse { error: "dns".to_string() });
    assert_eq!(lost.http_status, None);
    let error = lost.result.expect_err("lost");
    assert_eq!(error.to_string(), "search request failed: dns");
    let cut = client.attempt(
        client.request("q"),
        SearchReply::NoBody { status: 200, error: "reset".to_string() },
    );
    assert_eq!(cut.http_status, Some(200));
    assert!(matches!(cut.result, Err(SearchError::Transport(message)) if message == "reset"));
    let answered = client.attempt(
        client.request("q"),
        SearchReply::Answer { status: 200, body: String::new(), payload: Ok(response(None)) },
    );
    assert_eq!(answered.http_status, Some(200));
    assert_eq!(answered.result.expect("hits").len(), 2);
    assert!(matches!(ApiError::from(error), ApiError::Upstream(message) if message == "search request failed: dns"));
}

#[test]
fn errors_never_hold_the_key() {
    let client = SerpApiClient::new("abc123".to_string());
    let text = |reply: SearchReply| {
        client.attempt(client.request("q"), reply).result.expect_err("an error").to_string()
    };
    assert_eq!(
        text(SearchReply::NoResponse {
            error: "error sending request for url (https://serpapi.com/search?q=x&api_key=abc123)".to_string(),
        }),
        "search request failed: error sending request for url (https://serpapi.com/search?q=x&api_key=)"
    );
    assert_eq!(
        text(SearchReply::NoBody { status: 200, error: "abc123".to_string() }),
        "search request failed: "
    );
    let refused = SerpApiResponse { error: some("bad key abc123!"), ..response(None) };
    assert_eq!(
        text(SearchReply::Answer { status: 401, body: String::new(), payload: Ok(refused) }),
        "search provider returned 401: bad key !"
    );
    assert_eq!(
        text(SearchReply::Answer {
            status: 200,
            body: String::new(),
            payload: Err("at abc123".to_string()),
        }),
        "could not parse search response: at "
    );
    // A key with a space in it is cut out like any other.
    let spaced = SerpApiClient::new("pass phrase".to_string());
    let reply = SearchReply::NoResponse { error: "sent pass phrase".to_string() };
    assert_eq!(
        spaced.attempt(spaced.request("q"), reply).result.expect_err("an error").to_string(),
        "search request failed: sent "
    );
    // What is left when the key is cut out does not hold it either.
    assert_eq!(client.without_key("xabcabc123123y".to_string()), "xy");
    assert_eq!(client.without_key("abc12".to_string()), "abc12");
    assert_eq!(client.without_key("éabc123ü".to_string()), "éü");
    assert_eq!(SerpApiClient::new(String::new()).without_key("text".to_string()), "text");
}
