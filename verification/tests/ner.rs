use title_finder::models::Attribution;
use title_finder::models::SearchHit;
use title_finder::models::Timestamp;
use title_finder::ner::attribute;
use title_finder::ner::attribute_all;
use title_finder::ner::check_model_files;
use title_finder::ner::gap;
use title_finder::ner::hits_to_sequences;
use title_finder::ner::model_name;
use title_finder::ner::name_tokens;
use title_finder::ner::overlaps;
use title_finder::ner::path_str;
use title_finder::ner::pick_attributed;
use title_finder::ner::pick_for_person;
use title_finder::ner::refers_to;
use title_finder::ner::searched_mentions;
use title_finder::ner::word_occurrences;
use title_finder::ner::Candidate;
use title_finder::ner::ExtractError;
use title_finder::ner::FoundSpan;
use title_finder::ner::GlinerExtractor;
use title_finder::ner::ModelReply;
use title_finder::ner::SpanKind;
use title_finder::ner::SpanKind::Person;
use title_finder::ner::SpanKind::Title;
use title_finder::ner::PERSON_LABEL;
use title_finder::ner::THRESHOLD;
use title_finder::ner::TITLE_LABEL;
use title_finder::score::Probability;

type Row<'a> = (SpanKind, &'a str, usize, usize, f32);

/// Candidates from `(kind, text, start, end, probability)` in one hit. The
/// fixtures below are real outputs of the model.
fn spans(sequence: usize, rows: &[Row]) -> Vec<Candidate> {
    rows.iter()
        .map(|(kind, text, start, end, probability)| Candidate {
            sequence,
            start: *start,
            end: *end,
            text: text.to_string(),
            kind: *kind,
            probability: Probability { bits: probability.to_bits() },
        })
        .collect()
}

fn pick(text: &str, rows: &[Row], name: &str) -> Option<String> {
    pick_for_person(&spans(0, rows), &[text.to_string()], name).map(|title| title.text)
}

#[test]
fn ner_takes_the_most_confident_of_the_persons_titles() {
    let text = "Satya Nadella - Microsoft\nSatya Nadella is the Chairman and Chief Executive Officer of Microsoft and joined the company in 1992.";
    let rows = [
        (Person, "Satya Nadella", 0, 13, 1.00),
        (Person, "Satya Nadella", 26, 39, 1.00),
        (Title, "Chairman", 47, 55, 0.72),
        (Title, "Chief Executive Officer", 60, 83, 0.91),
    ];

    assert_eq!(
        pick(text, &rows, "Satya Nadella").as_deref(),
        Some("Chief Executive Officer")
    );
}

#[test]
fn skips_titles_nearer_someone_else() {
    let text = "Former CFO Mark Chen left in 2021; Lisa Park now leads finance as Chief Financial Officer.";
    let rows = [
        (Title, "Former CFO", 0, 10, 0.60),
        (Person, "Mark Chen", 11, 20, 0.95),
        (Person, "Lisa Park", 35, 44, 0.99),
        (Title, "Chief Financial Officer", 66, 89, 0.94),
    ];

    assert_eq!(
        pick(text, &rows, "Lisa Park").as_deref(),
        Some("Chief Financial Officer")
    );
    assert_eq!(pick(text, &rows, "Mark Chen").as_deref(), Some("Former CFO"));
}

#[test]
fn separates_titles_listed_side_by_side() {
    let text = "Amy Hood, CFO, and Satya Nadella, CEO, presented the results.";
    let rows = [
        (Person, "Amy Hood", 0, 8, 0.99),
        (Title, "CFO", 10, 13, 0.98),
        (Person, "Satya Nadella", 19, 32, 0.99),
        (Title, "CEO", 34, 37, 0.98),
    ];

    assert_eq!(pick(text, &rows, "Satya Nadella").as_deref(), Some("CEO"));
    assert_eq!(pick(text, &rows, "Amy Hood").as_deref(), Some("CFO"));
}

#[test]
fn never_takes_another_persons_title() {
    let text = "Jane reports to John Smith, the VP of Sales at Acme.";
    let rows = [
        (Person, "Jane", 0, 4, 0.97),
        (Person, "John Smith", 16, 26, 0.97),
        (Title, "VP of Sales", 32, 43, 0.97),
    ];

    assert_eq!(pick(text, &rows, "Jane Doe"), None);
    assert_eq!(
        pick(text, &rows, "John Smith").as_deref(),
        Some("VP of Sales")
    );
}

#[test]
fn known_limitation_nearest_person_can_be_wrong() {
    // "succeeded Steve Ballmer as CEO": CEO is Nadella's, but Ballmer is
    // nearer. Pinned so a smarter rule shows up as a deliberate change.
    let text = "Satya Nadella, who succeeded Steve Ballmer as CEO in 2014, has reshaped Microsoft.";
    let rows = [
        (Person, "Satya Nadella", 0, 13, 0.99),
        (Person, "Steve Ballmer", 29, 42, 0.97),
        (Title, "CEO", 46, 49, 0.97),
    ];

    assert_eq!(pick(text, &rows, "Satya Nadella"), None);
}

#[test]
fn a_title_with_nobody_mentioned_is_only_a_fallback() {
    let answer_box = "Chief Executive Officer".to_string();
    let profile = "Satya Nadella - Executive Vice President".to_string();

    let mut candidates = spans(0, &[(Title, "Chief Executive Officer", 0, 23, 0.95)]);
    candidates.extend(spans(
        1,
        &[
            (Person, "Satya Nadella", 0, 13, 0.99),
            (Title, "Executive Vice President", 16, 40, 0.60),
        ],
    ));

    // The attributed title wins even though the unattributed one scores higher.
    let picked = pick_for_person(&candidates, &[answer_box.clone(), profile], "Satya Nadella");
    assert_eq!(
        picked.map(|title| title.text).as_deref(),
        Some("Executive Vice President")
    );

    // With nothing attributed, the unattributed title is used.
    let alone = pick_for_person(&candidates[..1], &[answer_box], "Satya Nadella");
    assert_eq!(
        alone.map(|title| title.text).as_deref(),
        Some("Chief Executive Officer")
    );
}

#[test]
fn finds_the_person_by_literal_name_when_gliner_misses_them() {
    // No person span at all, but the surname appears in the text.
    let text = "Nadella: Chief Executive Officer since 2014";
    let rows = [(Title, "Chief Executive Officer", 9, 32, 0.9)];

    assert_eq!(
        pick(text, &rows, "Satya Nadella").as_deref(),
        Some("Chief Executive Officer")
    );
}

#[test]
fn name_matching() {
    assert!(refers_to("Satya Nadella", "Satya Nadella"));
    assert!(refers_to("Nadella", "Satya Nadella"));
    assert!(refers_to("Mr. Nadella", "Satya Nadella"));
    assert!(refers_to("satya nadella", "Satya Nadella"));
    assert!(!refers_to("Steve Ballmer", "Satya Nadella"));
    assert!(!refers_to("Satya Nadella Jr", "Satya Nadella"));
    assert!(!refers_to("Mr.", "Satya Nadella"));
}

#[test]
fn word_occurrences_respect_boundaries() {
    assert_eq!(
        word_occurrences("Park Lane and Lisa Park", "park"),
        vec![(0, 4), (19, 23)]
    );
    assert!(word_occurrences("Parkinson", "park").is_empty());
}

#[test]
fn sequences_follow_hit_order_and_skip_links() {
    let hits = vec![
        SearchHit {
            title: "Jane Doe - Acme".to_string(),
            link: "https://example.com".to_string(),
            snippet: "Jane is a Staff Engineer".to_string(),
        },
        SearchHit {
            title: String::new(),
            link: "https://example.com/empty".to_string(),
            snippet: String::new(),
        },
        SearchHit {
            title: String::new(),
            link: String::new(),
            snippet: "Second".to_string(),
        },
    ];

    assert_eq!(
        hits_to_sequences(&hits),
        vec!["Jane Doe - Acme\nJane is a Staff Engineer", "Second"]
    );
}

#[test]
fn occurrences_count_bytes_and_look_past_ascii() {
    // Two bytes for each of the accented letters before the name.
    assert_eq!(word_occurrences("É. café Park", "PARK"), vec![(10, 14)]);
    // A letter beyond ASCII is a letter: no word ends beside it.
    assert!(word_occurrences("éPark Parké", "park").is_empty());
    // Case is ignored in ASCII only.
    assert_eq!(word_occurrences("JOSÉ josÉ", "josÉ"), vec![(0, 5), (6, 11)]);
    assert!(word_occurrences("JOSÉ", "josé").is_empty());
    // Punctuation, ideographs and digits.
    assert_eq!(word_occurrences("(park)", "park"), vec![(1, 5)]);
    assert!(word_occurrences("park9 東park", "park").is_empty());
    assert!(word_occurrences("anything", "").is_empty());
    assert!(word_occurrences("", "park").is_empty());
    // Occurrences do not overlap.
    assert_eq!(word_occurrences("a a a", "a a"), vec![(0, 3)]);
}

#[test]
fn a_word_is_found_behind_one_that_is_none() {
    // The first occurrence is part of a longer word, and reaches into the next.
    assert_eq!(word_occurrences("ba a a", "a a"), vec![(3, 6)]);
    assert_eq!(word_occurrences("Ali Li Li", "Li Li"), vec![(4, 9)]);
    assert_eq!(word_occurrences("xpark-park", "park"), vec![(6, 10)]);
}

#[test]
fn names_are_cut_into_words() {
    assert_eq!(name_tokens("Dr. Jane  O'Neil-Smith, PhD"), vec!["jane", "o'neil-smith", "phd"]);
    assert_eq!(name_tokens("MRS JANE DOE"), vec!["jane", "doe"]);
    assert_eq!(name_tokens("\u{2003}\"Élodie\" ÅSA\u{a0}"), vec!["élodie", "åsa"]);
    assert!(name_tokens("Mr. ... Sir,").is_empty());
    assert!(refers_to("JOSÉ", "José García"));
    assert!(!refers_to("", "José García"));
}

#[test]
fn gaps_are_measured_in_bytes() {
    assert_eq!(gap((0, 3), (10, 12)), 7);
    assert_eq!(gap((10, 12), (0, 3)), 7);
    assert_eq!(gap((0, 3), (3, 5)), 0);
    assert_eq!(gap((0, 9), (3, 5)), 0);
    assert!(!overlaps((0, 3), (3, 5)));
    assert!(overlaps((0, 4), (3, 5)));
}

#[test]
fn ties_go_to_the_searched_person() {
    assert_eq!(attribute((10, 12), &[(0, 5)], &[(17, 20)]), Attribution::SearchedPerson);
    assert_eq!(attribute((10, 12), &[(0, 4)], &[(17, 20)]), Attribution::SomeoneElse);
    assert_eq!(attribute((10, 12), &[(0, 4), (12, 13)], &[(17, 20)]), Attribution::SearchedPerson);
    assert_eq!(attribute((10, 12), &[], &[(17, 20)]), Attribution::SomeoneElse);
    assert_eq!(attribute((10, 12), &[(90, 99)], &[]), Attribution::SearchedPerson);
    assert_eq!(attribute((10, 12), &[], &[]), Attribution::Nobody);
}

#[test]
fn attributions_line_up_with_spans() {
    let mut candidates = spans(0, &[(Title, "CEO", 0, 3, 0.9), (Person, "Amy Hood", 5, 13, 0.9)]);
    candidates.extend(spans(1, &[(Title, "CFO", 0, 3, 0.9)]));
    candidates.extend(spans(7, &[(Title, "COO", 0, 3, 0.9)]));
    let texts = ["CEO, Amy Hood".to_string(), "CFO".to_string()];
    assert_eq!(
        attribute_all(&candidates, &texts, "Satya Nadella"),
        vec![Some(Attribution::SomeoneElse), None, Some(Attribution::Nobody), None]
    );
    assert_eq!(
        attribute_all(&candidates, &texts, "Amy Hood"),
        vec![Some(Attribution::SearchedPerson), None, Some(Attribution::Nobody), None]
    );
}

#[test]
fn the_earliest_of_equally_confident_titles_wins() {
    let own = Some(Attribution::SearchedPerson);
    let candidates = spans(
        0,
        &[
            (Title, "  ", 0, 2, 0.99),
            (Title, " First\n", 3, 8, 0.80),
            (Title, "Second", 9, 15, 0.80),
            (Title, "Other", 16, 21, 0.95),
        ],
    );
    let attributions = [own, own, own, Some(Attribution::SomeoneElse)];
    let picked = pick_attributed(&candidates, &attributions).expect("a title");
    assert_eq!(picked.text, "First");
    assert_eq!(picked.probability, Probability { bits: 0.80f32.to_bits() });
    // A span without an attribution beside it is not looked at.
    assert!(pick_attributed(&candidates, &attributions[..1]).is_none());
}

#[test]
fn a_title_without_a_probability_does_not_win_later() {
    let own = Some(Attribution::SearchedPerson);
    let candidates = spans(0, &[(Title, "First", 0, 5, 0.1), (Title, "Second", 6, 12, f32::NAN)]);
    assert_eq!(pick_attributed(&candidates, &[own, own]).expect("a title").text, "First");
    let candidates = spans(0, &[(Title, "First", 0, 5, -0.0), (Title, "Second", 6, 12, 0.0)]);
    assert_eq!(pick_attributed(&candidates, &[own, own]).expect("a title").text, "First");
    let candidates = spans(0, &[(Title, "First", 0, 5, -1.0), (Title, "Second", 6, 12, -0.5)]);
    assert_eq!(pick_attributed(&candidates, &[own, own]).expect("a title").text, "Second");
}

#[test]
fn surnames_are_searched_for_and_first_names_are_not() {
    let rows = [(Title, "CEO", 6, 9, 0.9)];
    let whose = |text: &str, name: &str| {
        attribute_all(&spans(0, &rows), &[text.to_string()], name)[0].expect("a title")
    };
    assert_eq!(whose("Lee:  CEO", "Wei Lee"), Attribution::SearchedPerson);
    assert_eq!(whose("Li is CEO", "Wei Li"), Attribution::SearchedPerson);
    assert_eq!(whose("Lü:   CEO", "Wei Lü"), Attribution::SearchedPerson);
    assert_eq!(whose("Wei:  CEO", "Wei Li"), Attribution::Nobody);
    assert_eq!(searched_mentions("Li: CEO", &vec![], "Bo Li"), vec![(0, 2)]);
    assert_eq!(searched_mentions("Bo: CEO", &vec![], "Bo Li"), vec![]);
    // The full name counts as such and for its surname.
    assert_eq!(searched_mentions("Bo Li", &vec![], " Bo Li "), vec![(0, 5), (3, 5)]);
    // A name of one word is the full name.
    assert_eq!(searched_mentions("Bo: CEO", &vec![], "Bo"), vec![(0, 2)]);
}

#[test]
fn models_are_named_after_their_directory() {
    assert_eq!(
        model_name(Some("gliner_large-v2.1".to_string()), "models/gliner_large-v2.1"),
        "gliner_large-v2.1"
    );
    assert_eq!(model_name(None, "models/.."), "models/..");
}

fn found(class: &str, text: &str, start: usize, end: usize, probability: f32) -> FoundSpan {
    FoundSpan {
        sequence: 0,
        start,
        end,
        text: text.to_string(),
        class: class.to_string(),
        probability: Probability { bits: probability.to_bits() },
    }
}

fn hit(title: &str, snippet: &str) -> SearchHit {
    SearchHit {
        title: title.to_string(),
        link: "https://example.com".to_string(),
        snippet: snippet.to_string(),
    }
}

#[test]
fn an_extraction_keeps_every_span_and_the_title() {
    let extractor = GlinerExtractor { model_name: "gliner_large-v2.1".to_string() };
    let hits = [hit("", "Amy Hood, CFO, and Satya Nadella, CEO, presented the results.")];
    let at = Timestamp { secs: 1, nanos: 2 };
    let request = extractor.request_at(&hits, "Satya Nadella", 9, at);
    assert_eq!(request.id, 9);
    assert_eq!(request.model, "gliner_large-v2.1");
    assert_eq!(request.labels, vec![TITLE_LABEL, PERSON_LABEL]);
    assert_eq!(request.threshold.bits, THRESHOLD);
    assert_eq!(f32::from_bits(THRESHOLD), 0.5);
    assert_eq!(request.started_at, at);
    assert!(GlinerExtractor::needs_model(&request));

    let reply = ModelReply::Spans(vec![
        found("person", "Amy Hood", 0, 8, 0.99),
        found("job title", "CFO", 10, 13, 0.98),
        found("company", "Microsoft", 14, 17, 0.98),
        found("person", "Satya Nadella", 19, 32, 0.99),
        found("job title", "CEO", 34, 37, 0.97),
    ]);
    let attempt = GlinerExtractor::attempt(request, 42, reply);
    assert_eq!(attempt.duration_ms, 42);
    let output = attempt.result.expect("spans were found");
    let saved: Vec<(&str, &str, Option<Attribution>)> = output
        .spans
        .iter()
        .map(|span| (span.text.as_str(), span.label.as_str(), span.attribution))
        .collect();
    assert_eq!(
        saved,
        vec![
            ("Amy Hood", "person", None),
            ("CFO", "job title", Some(Attribution::SomeoneElse)),
            ("Satya Nadella", "person", None),
            ("CEO", "job title", Some(Attribution::SearchedPerson)),
        ]
    );
    assert_eq!(output.chosen.expect("a title").text, "CEO");
}

#[test]
fn an_extraction_can_fail() {
    let extractor = GlinerExtractor { model_name: "stub".to_string() };
    let request = extractor.request(&[hit("a", "b")], "Jane Doe");
    let failed = GlinerExtractor::run(&request, ModelReply::Failed { error: "no".to_string() });
    assert_eq!(
        failed.expect_err("failed").to_string(),
        "GLiNER extraction failed: no"
    );
    let panicked = GlinerExtractor::run(&request, ModelReply::Panicked { error: "boom".to_string() });
    assert_eq!(
        panicked.expect_err("panicked").to_string(),
        "GLiNER extraction failed: inference task panicked: boom"
    );
}

#[test]
fn nothing_is_extracted_from_nothing() {
    let extractor = GlinerExtractor { model_name: "stub".to_string() };
    let request = extractor.request(&[hit("", "")], "Jane Doe");
    assert!(!GlinerExtractor::needs_model(&request));
    let reply = ModelReply::Failed { error: "never run".to_string() };
    let output = GlinerExtractor::run(&request, reply).expect("no inputs");
    assert!(output.spans.is_empty());
    assert!(output.chosen.is_none());
}

#[test]
fn missing_model_files_are_named() {
    let there = ("models/tokenizer.json".to_string(), true);
    let missing = ("models/onnx/model.onnx".to_string(), false);
    assert!(check_model_files(&[there.clone()]).is_ok());
    let error = check_model_files(&[there, missing]).expect_err("a file is missing");
    assert_eq!(
        error.to_string(),
        "GLiNER extraction failed: models/onnx/model.onnx not found — run ./scripts/download-gliner.sh"
    );
    assert_eq!(path_str(Some("a/b"), "a/b").expect("text"), "a/b");
    let ExtractError(message) = path_str(None, "a/?").expect_err("not text");
    assert_eq!(message, "path is not UTF-8: a/?");
}
