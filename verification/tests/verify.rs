use title_finder::models::SearchHit;
use title_finder::models::Timestamp;
use title_finder::models::Verification;
use title_finder::score::Score;
use title_finder::verify::build_instructions;
use title_finder::verify::hits_to_text;
use title_finder::verify::parse_response;
use title_finder::verify::parse_response_at;
use title_finder::verify::JevAnswer;
use title_finder::verify::JevClient;
use title_finder::verify::JevErrorDetail;
use title_finder::verify::JevReply;
use title_finder::verify::JevResponse;
use title_finder::verify::VerifyError;
use title_finder::verify::ANSWER_THRESHOLD;

use serde_json::Value;

// Payloads recorded from the live API.
const ANSWERED: &str = r#"{"model":"jev-1.13.0","answers":{"answers_job_title":{"type":"noul","noul":0.98}},"usage":{"input_tokens":324,"output_tokens":22}}"#;
const NOT_ANSWERED: &str = r#"{"model":"jev-1.13.0","answers":{"answers_job_title":{"type":"noul","noul":0.01}},"usage":{"input_tokens":319,"output_tokens":22}}"#;
const BAD_KEY: &str = r#"{"detail":{"error_type":"authentication_error","message":"Cannot authenticate with the server. Please check your API key and try again."}}"#;

fn failure_in(body: &str) -> Option<JevErrorDetail> {
    let value: Value = serde_json::from_str(body).ok()?;
    let detail = value.get("detail")?.as_object()?.clone();
    let text = |key: &str| detail.get(key).and_then(Value::as_str).map(str::to_string);
    Some(JevErrorDetail { error_type: text("error_type"), message: text("message") })
}

fn answers_in(body: &str) -> Result<JevResponse, String> {
    let value: Value = serde_json::from_str(body).map_err(|error| error.to_string())?;
    let mut answers: Vec<(String, JevAnswer)> = Vec::new();
    for (key, answer) in value["answers"].as_object().ok_or("no answers")? {
        let noul = answer["noul"].as_f64().ok_or("no score")?;
        answers.push((
            key.clone(),
            JevAnswer { noul: Score { bits: noul.to_bits() }, written: format!("{noul}") },
        ));
    }
    let model = value["model"].as_str().ok_or("no model")?.to_string();
    Ok(JevResponse { model, answers })
}

fn parse(status: u16, body: &str) -> Result<Verification, VerifyError> {
    parse_response(status, body, failure_in(body), answers_in(body))
}

#[test]
fn high_score_answers_the_question() {
    match parse(200, ANSWERED).expect("parses") {
        Verification::Checked { score, answers_question, model, .. } => {
            assert_eq!(f64::from_bits(score.bits), 0.98);
            assert!(answers_question);
            assert_eq!(model, "jev-1.13.0");
        }
        other => panic!("unexpected {other:?}"),
    }
}

#[test]
fn low_score_does_not_answer_the_question() {
    assert!(matches!(
        parse(200, NOT_ANSWERED).expect("parses"),
        Verification::Checked { answers_question: false, .. }
    ));
}

#[test]
fn auth_error_carries_the_message() {
    let error = parse(401, BAD_KEY).expect_err("should fail");
    let text = error.to_string();
    assert!(text.contains("401"), "{text}");
    assert!(text.contains("authentication_error"), "{text}");
    assert_eq!(
        text,
        "Jev returned 401: authentication_error: Cannot authenticate with the server. Please check your API key and try again."
    );
}

#[test]
fn missing_answer_key_is_a_decode_error() {
    let body = r#"{"model":"jev-1.13.0","answers":{}}"#;
    assert!(matches!(parse(200, body), Err(VerifyError::Decode(_))));
    assert_eq!(
        parse(200, body).expect_err("should fail").to_string(),
        "could not parse Jev response: response has no `answers_job_title` answer"
    );
}

#[test]
fn flattens_hits_into_text() {
    let hits = vec![
        SearchHit {
            title: "Jane Doe - Acme".to_string(),
            link: "https://example.com".to_string(),
            snippet: "Jane is a Staff Engineer".to_string(),
        },
        SearchHit {
            title: String::new(),
            link: String::new(),
            snippet: "Second".to_string(),
        },
    ];

    assert_eq!(
        hits_to_text(&hits),
        "Jane Doe - Acme\nhttps://example.com\nJane is a Staff Engineer\n\nSecond"
    );
    assert_eq!(hits_to_text(&[]), "");
}

fn with_score(noul: f64) -> Result<Verification, VerifyError> {
    let response = JevResponse {
        model: "jev".to_string(),
        answers: vec![(
            "answers_job_title".to_string(),
            JevAnswer { noul: Score { bits: noul.to_bits() }, written: format!("{noul}") },
        )],
    };
    parse_response_at(204, "", None, Ok(response), Timestamp { secs: 3, nanos: 4 })
}

#[test]
fn scores_are_between_zero_and_one() {
    assert_eq!(f64::from_bits(ANSWER_THRESHOLD), 0.5);
    for (noul, answers) in [(0.0, false), (-0.0, false), (0.49, false), (0.5, true), (1.0, true)] {
        match with_score(noul).expect("a possible score") {
            Verification::Checked { score, answers_question, model, checked_at } => {
                assert_eq!(f64::from_bits(score.bits), noul);
                assert_eq!(answers_question, answers, "{noul}");
                assert_eq!(model, "jev");
                assert_eq!(checked_at, Timestamp { secs: 3, nanos: 4 });
            }
            other => panic!("unexpected {other:?}"),
        }
    }
    for noul in [1.5, -0.1, f64::NAN, f64::INFINITY] {
        let error = with_score(noul).expect_err("an impossible score");
        assert_eq!(
            error.to_string(),
            format!("could not parse Jev response: score {noul} is outside 0..=1")
        );
    }
}

#[test]
fn error_bodies_are_put_in_words() {
    let text = |body: &str| parse(500, body).expect_err("fails").to_string();
    assert_eq!(text(r#"{"detail":{"message":"no"}}"#), "Jev returned 500: no");
    assert_eq!(text(r#"{"detail":{"error_type":"kind"}}"#), "Jev returned 500: kind");
    assert_eq!(text(r#"{"detail":{}}"#), "Jev returned 500: unknown error");
    let page = "é".repeat(300);
    assert_eq!(text(&page), format!("Jev returned 500: {}", "é".repeat(200)));
    assert_eq!(
        parse(200, "oops").expect_err("fails").to_string(),
        format!(
            "could not parse Jev response: {}",
            serde_json::from_str::<Value>("oops").expect_err("no JSON")
        )
    );
}

#[test]
fn the_later_of_two_answers_counts() {
    let answer = |noul: f64| JevAnswer { noul: Score { bits: noul.to_bits() }, written: String::new() };
    let response = JevResponse {
        model: "jev".to_string(),
        answers: vec![
            ("answers_job_title".to_string(), answer(0.1)),
            ("other".to_string(), answer(7.0)),
            ("answers_job_title".to_string(), answer(0.9)),
        ],
    };
    match parse_response(200, "", None, Ok(response)).expect("a possible score") {
        Verification::Checked { score, .. } => assert_eq!(f64::from_bits(score.bits), 0.9),
        other => panic!("unexpected {other:?}"),
    }
}

#[test]
fn a_check_asks_about_the_text() {
    assert_eq!(
        build_instructions("Jane Doe", "Acme"),
        "Does this text answer the question What is the job title of Jane Doe at Acme?"
    );
    let client = JevClient::with_base_url("key".to_string(), "http://localhost:9//".to_string());
    assert_eq!(client.base_url, "http://localhost:9");
    let at = Timestamp { secs: 1, nanos: 2 };
    let request = client.request_at("some text", "Jane Doe", "Acme", 5, at);
    assert_eq!(request.id, 5);
    assert_eq!(request.endpoint, "http://localhost:9/v1/systemone");
    assert_eq!(request.model, "jev-latest");
    assert_eq!(request.question_key, "answers_job_title");
    assert_eq!(request.state, "some text");
    assert_eq!(request.sent_at, at);
    assert_eq!(
        JevClient::new("key".to_string()).request("t", "n", "c").endpoint,
        "https://api.typesafe.ai/v1/systemone"
    );
}

#[test]
fn a_check_without_a_response_is_a_transport_error() {
    let client = JevClient::new("key".to_string());
    let request = || client.request("t", "n", "c");
    let lost = client.attempt(request(), JevReply::NoResponse { error: "timeout".to_string() });
    assert_eq!(lost.http_status, None);
    assert_eq!(lost.result.expect_err("lost").to_string(), "Jev request failed: timeout");
    let cut = client.attempt(
        request(),
        JevReply::NoBody { status: 200, error: "reset".to_string() },
    );
    assert_eq!(cut.http_status, Some(200));
    assert_eq!(cut.result.expect_err("cut").to_string(), "Jev request failed: reset");
    let answered = client.attempt(
        request(),
        JevReply::Answer {
            status: 200,
            body: ANSWERED.to_string(),
            failure: failure_in(ANSWERED),
            payload: answers_in(ANSWERED),
        },
    );
    assert_eq!(answered.http_status, Some(200));
    assert!(answered.result.is_ok());
}

#[test]
fn errors_never_hold_the_token() {
    let client = JevClient::new("tok-77".to_string());
    let text = |reply: JevReply| {
        let request = client.request("t", "n", "c");
        client.attempt(request, reply).result.expect_err("an error").to_string()
    };
    assert_eq!(
        text(JevReply::NoResponse { error: "sent tok-77".to_string() }),
        "Jev request failed: sent "
    );
    let body = r#"{"detail":{"error_type":"auth","message":"unknown key tok-77"}}"#;
    assert_eq!(
        text(JevReply::Answer {
            status: 401,
            body: body.to_string(),
            failure: failure_in(body),
            payload: answers_in(body),
        }),
        "Jev returned 401: auth: unknown key "
    );
    assert_eq!(
        text(JevReply::Answer {
            status: 200,
            body: String::new(),
            failure: None,
            payload: Err("tok-77?".to_string()),
        }),
        "could not parse Jev response: ?"
    );
    assert_eq!(client.without_key("tok-tok-7777".to_string()), "");
}

#[test]
fn a_body_asks_one_question() {
    let client = JevClient::new("k".to_string());
    let body = JevClient::body(&client.request("some text", "Jane Doe", "Acme"));
    assert_eq!(body.state, "some text");
    assert_eq!(body.model, "jev-latest");
    assert_eq!(body.question_key, "answers_job_title");
    assert_eq!(body.question_type, "noul");
    assert_eq!(
        body.instructions,
        "Does this text answer the question What is the job title of Jane Doe at Acme?"
    );
}
