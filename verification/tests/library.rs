use mtg_set_colors::card::Card;
use mtg_set_colors::errors::PipelineError;
use mtg_set_colors::fetch::{cards_from_entries, parse_response, request_url, EntryFields};
use mtg_set_colors::persist::{output_filename, render_cards};
use mtg_set_colors::rarity::{dedup_rarities, Rarity};
use mtg_set_colors::report::failure_summary;
use mtg_set_colors::setcode::parse_set;

#[test]
fn classifier_empty_is_colorless() {
    assert_eq!(Card::get_color(vec![]), 'C');
}

#[test]
fn classifier_singleton_is_that_color() {
    assert_eq!(Card::get_color(vec!['U']), 'U');
    assert_eq!(Card::get_color(vec!['G']), 'G');
}

#[test]
fn classifier_two_or_more_is_multicolor() {
    assert_eq!(Card::get_color(vec!['U', 'G']), 'M');
    assert_eq!(Card::get_color(vec!['W', 'U', 'B', 'R', 'G']), 'M');
}

#[test]
fn card_serializes_to_one_line() {
    let card = Card { name: String::from("Foo"), color: 'U' };
    assert_eq!(card.to_line(), "Foo;U");
}

#[test]
fn line_parses_back_to_the_card() {
    let card = Card { name: String::from("Fblthp, the Lost"), color: 'U' };
    let line = card.to_line();
    let back = Card::parse_line(&line).expect("the line must parse");
    assert_eq!(back.name, "Fblthp, the Lost");
    assert_eq!(back.color, 'U');
}

#[test]
fn malformed_lines_parse_to_nothing() {
    assert!(Card::parse_line("no separator").is_none());
    assert!(Card::parse_line("name;UG").is_none());
    assert!(Card::parse_line("name;").is_none());
}

#[test]
fn rarity_letters_parse_case_insensitively() {
    assert_eq!(Rarity::from_letter("M"), Ok(Rarity::M));
    assert_eq!(Rarity::from_letter("m"), Ok(Rarity::M));
    assert_eq!(Rarity::from_letter("r"), Ok(Rarity::R));
    assert_eq!(Rarity::from_letter("U"), Ok(Rarity::U));
    assert_eq!(Rarity::from_letter("c"), Ok(Rarity::C));
}

#[test]
fn other_rarity_input_is_rejected() {
    assert_eq!(
        Rarity::from_letter("X"),
        Err(String::from("Invalid rarity. Chose one or more among M,R,U,C"))
    );
    assert!(Rarity::from_letter("MR").is_err());
    assert!(Rarity::from_letter("").is_err());
}

#[test]
fn duplicate_rarities_run_once() {
    let requested = vec![Rarity::M, Rarity::M, Rarity::R];
    let unique = dedup_rarities(&requested);
    assert_eq!(unique, vec![Rarity::M, Rarity::R]);
}

#[test]
fn dedup_keeps_the_distinct_rarities_in_order() {
    let requested = vec![Rarity::C, Rarity::R, Rarity::C, Rarity::M, Rarity::R];
    let unique = dedup_rarities(&requested);
    assert_eq!(unique, vec![Rarity::C, Rarity::R, Rarity::M]);
}

#[test]
fn short_set_code_is_rejected() {
    assert_eq!(parse_set("AB"), Err(String::from("Set must be a trigram")));
}

#[test]
fn long_set_code_is_rejected() {
    assert_eq!(parse_set("ABCD"), Err(String::from("Set must be a trigram")));
}

#[test]
fn padded_set_code_is_rejected() {
    assert_eq!(
        parse_set(" AB"),
        Err(String::from("Set cannot have leading and trailing space"))
    );
    assert_eq!(
        parse_set("AB "),
        Err(String::from("Set cannot have leading and trailing space"))
    );
}

#[test]
fn good_set_code_is_accepted() {
    assert_eq!(parse_set("NEO"), Ok(String::from("NEO")));
}

#[test]
fn filename_is_deterministic() {
    assert_eq!(output_filename("ABC", &Rarity::M), "ABC.M.csv");
    assert_eq!(output_filename("NEO", &Rarity::R), "NEO.R.csv");
}

#[test]
fn url_embeds_set_rarity_and_booster_filter() {
    assert_eq!(
        request_url("NEO", &Rarity::R),
        "https://api.scryfall.com/cards/search?q=set%3ANEO+r%3AR+is%3Abooster"
    );
}

#[test]
fn mocked_response_renders_the_expected_file() {
    let body = r#"{"data":[{"name":"Foo","colors":["U"]},{"name":"Bar","colors":[]}]}"#;
    let cards = parse_response(body).expect("the mocked response must parse");
    assert_eq!(cards.len(), 2);
    assert_eq!(render_cards(&cards), "Foo;U\nBar;C\n");
    assert_eq!(output_filename("NEO", &Rarity::R), "NEO.R.csv");
}

#[test]
fn color_identity_is_the_fallback_source() {
    let body = r#"{"data":[{"name":"X","colors":null,"color_identity":["B","G"]}]}"#;
    let cards = parse_response(body).expect("the response must parse");
    assert_eq!(cards[0].to_line(), "X;M");
}

#[test]
fn absent_color_sources_mean_colorless() {
    let body = r#"{"data":[{"name":"Wastes"}]}"#;
    let cards = parse_response(body).expect("the response must parse");
    assert_eq!(cards[0].to_line(), "Wastes;C");
}

#[test]
fn invalid_json_is_a_malformed_response() {
    let r = parse_response("not json at all");
    assert!(matches!(r, Err(PipelineError::MalformedResponse(_))));
}

#[test]
fn missing_data_array_is_a_malformed_response() {
    let r = parse_response(r#"{"object":"error"}"#);
    assert!(matches!(r, Err(PipelineError::MalformedResponse(_))));
    let r = parse_response(r#"{"data":"oops"}"#);
    assert!(matches!(r, Err(PipelineError::MalformedResponse(_))));
}

#[test]
fn non_string_name_is_a_malformed_response() {
    let r = parse_response(r#"{"data":[{"name":5,"colors":[]}]}"#);
    assert!(matches!(r, Err(PipelineError::MalformedResponse(_))));
}

#[test]
fn non_array_color_source_is_a_malformed_response() {
    let r = parse_response(r#"{"data":[{"name":"X","colors":"U"}]}"#);
    assert!(matches!(r, Err(PipelineError::MalformedResponse(_))));
}

#[test]
fn empty_color_entry_is_a_malformed_response() {
    let entries = vec![EntryFields {
        name: String::from("X"),
        colors: Some(vec![String::from("")]),
    }];
    let r = cards_from_entries(entries);
    assert!(matches!(r, Err(PipelineError::MalformedResponse(_))));
}

#[test]
fn entries_classify_by_their_resolved_source() {
    let entries = vec![
        EntryFields { name: String::from("A"), colors: Some(vec![String::from("W")]) },
        EntryFields { name: String::from("B"), colors: None },
    ];
    let cards = cards_from_entries(entries).expect("well-formed entries must map");
    assert_eq!(cards[0].to_line(), "A;W");
    assert_eq!(cards[1].to_line(), "B;C");
}

#[test]
fn error_messages_name_their_kind() {
    let e = PipelineError::InvalidInput(String::from("bad set code"));
    assert_eq!(e.message(), "invalid input: bad set code");
    let e = PipelineError::NetworkFailure(String::from("connection refused"));
    assert_eq!(e.message(), "network failure: connection refused");
    let e = PipelineError::MalformedResponse(String::from("no data field"));
    assert_eq!(e.message(), "malformed response: no data field");
    let e = PipelineError::FilesystemFailure(String::from("disk full"));
    assert_eq!(e.message(), "filesystem failure: disk full");
}

#[test]
fn one_failed_rarity_still_leaves_the_others_written() {
    let good = r#"{"data":[{"name":"Foo","colors":["U"]}]}"#;
    let results: Vec<(Rarity, Result<Vec<Card>, PipelineError>)> = vec![
        (Rarity::M, parse_response(good)),
        (Rarity::U, Err(PipelineError::NetworkFailure(String::from("timed out")))),
        (Rarity::R, parse_response(good)),
    ];
    let mut failures: Vec<(Rarity, PipelineError)> = Vec::new();
    let mut written: Vec<String> = Vec::new();
    for (rarity, result) in results {
        match result {
            Ok(cards) => written.push(render_cards(&cards)),
            Err(e) => failures.push((rarity, e)),
        }
    }
    assert_eq!(written.len(), 2);
    assert_eq!(failures.len(), 1);
    assert_eq!(
        failure_summary(&failures),
        "rarity U: network failure: timed out\n"
    );
}

#[test]
fn empty_card_list_renders_a_lone_newline() {
    assert_eq!(render_cards(&vec![]), "\n");
}
