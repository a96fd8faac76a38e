use movie_rating_site::search::{build_url, filter_search_term, search_url_text, SearchError};
use reqwest::Url;

#[test]
fn test_2_word() {
    let input_str = "Star wars";
    let (_, url) = build_url(input_str.into()).unwrap();
    let expected = Url::parse("https://sg.media-imdb.com/suggests/s/Star wars.json").unwrap();
    assert_eq!(url, expected);
}

#[test]
fn test_accent_marks() {
    let input_str = "Vietnam aux lèvres";
    let (_, url) = build_url(input_str.into()).unwrap();
    let expected =
        Url::parse("https://sg.media-imdb.com/suggests/v/Vietnam aux lèvres.json").unwrap();
    assert_eq!(url, expected);
}

#[test]
fn test_symbol() {
    let input_str = "Romeo + Juliet";
    let (_, url) = build_url(input_str.into()).unwrap();
    let expected = Url::parse("https://sg.media-imdb.com/suggests/r/Romeo + Juliet.json").unwrap();
    assert_eq!(url, expected);
}

#[test]
fn test_weird_symbols() {
    let input_str = "!23";
    let (_, url) = build_url(input_str.into()).unwrap();
    let expected = Url::parse("https://sg.media-imdb.com/suggests/2/23.json").unwrap();
    assert_eq!(url, expected);
}

#[test]
fn test_no_letters_or_numbers() {
    let input_str = "@@#*)(*!)*";
    let url_result = build_url(input_str.into());
    assert!(url_result.is_err());
}

#[test]
fn test_all_caps() {
    let input_str = "STAR WARS";
    let (_, url) = build_url(input_str.into()).unwrap();
    let expected = Url::parse("https://sg.media-imdb.com/suggests/s/STAR WARS.json").unwrap();
    assert_eq!(url, expected);
}

#[test]
fn build_url_hands_back_the_cut_term() {
    let (term, _) = build_url("  ...Dune".into()).unwrap();
    assert_eq!(term, "Dune");
    assert_eq!(build_url("".into()).unwrap_err(), SearchError::EmptySearchTerm);
    assert_eq!(build_url("?!".into()).unwrap_err(), SearchError::EmptySearchTerm);
}

#[test]
fn filter_cuts_up_to_first_letter_or_digit() {
    assert_eq!(filter_search_term("!23".to_string()).unwrap(), "23");
    assert_eq!(filter_search_term("Star wars".to_string()).unwrap(), "Star wars");
    assert_eq!(filter_search_term(" - éclair".to_string()).unwrap(), "éclair");
    assert_eq!(
        filter_search_term("@@#*)(*!)*".to_string()).unwrap_err(),
        SearchError::EmptySearchTerm
    );
    // Cutting twice gives what cutting once gives.
    let once = filter_search_term("**x y".to_string()).unwrap();
    assert_eq!(filter_search_term(once.clone()).unwrap(), once);
}

#[test]
fn search_url_text_is_exact() {
    assert_eq!(
        search_url_text("STAR WARS"),
        "https://sg.media-imdb.com/suggests/s/STAR WARS.json"
    );
    assert_eq!(search_url_text("23"), "https://sg.media-imdb.com/suggests/2/23.json");
    assert_eq!(search_url_text(""), "https://sg.media-imdb.com/suggests/_/.json");
    assert_eq!(
        search_url_text("Écoute"),
        "https://sg.media-imdb.com/suggests/É/Écoute.json"
    );
}
