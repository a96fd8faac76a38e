use movie_rating_site::imdb_types::{ImageData, ImageField, JsonQuery, MediaType, MovieInfo};
use movie_rating_site::results::{body_fits, movies_from_query, trim_body_string, ResultsError};

fn image(url: &str) -> ImageData {
    ImageData { url: url.to_string(), width: 10, height: 20 }
}

fn info(q: Option<&str>, i: Option<ImageField>, id: &str, title: &str) -> MovieInfo {
    MovieInfo {
        l: Some(title.to_string()),
        i,
        y: Some(1999),
        q: q.map(|s| s.to_string()),
        s: Some("Keanu Reeves".to_string()),
        id: Some(id.to_string()),
    }
}

#[test]
fn trims_the_wrapper() {
    let body = "imdb$Dune({\"v\":1})".to_string();
    assert_eq!(trim_body_string(body, "Dune".to_string()), "{\"v\":1}");
    let body = "imdb$é({})".to_string();
    assert_eq!(trim_body_string(body, "é".to_string()), "{}");
}

#[test]
fn media_types() {
    assert_eq!(MediaType::new(Some("feature".to_string())), MediaType::Movie);
    assert_eq!(MediaType::new(Some("TV mini series".to_string())), MediaType::MiniSeries);
    assert_eq!(MediaType::new(Some("TV series".to_string())), MediaType::TV);
    assert_eq!(MediaType::new(Some("video game".to_string())), MediaType::Other);
    assert_eq!(MediaType::new(None), MediaType::NoMedia);
}

#[test]
fn keeps_movies_and_series_in_order() {
    let q = JsonQuery {
        v: 1,
        q: "matrix".to_string(),
        d: Some(vec![
            info(Some("feature"), Some(ImageField::Parsed(image("a.jpg"))), "tt1", "The Matrix"),
            info(Some("video game"), None, "vg", "Game"),
            info(None, None, "x", "Person"),
            info(Some("TV series"), Some(ImageField::Parsed(image("b.jpg"))), "tt2", "Show"),
        ]),
    };
    let movies = movies_from_query(&q).unwrap();
    assert_eq!(movies.len(), 2);
    assert_eq!(movies[0].movie_id, "tt1");
    assert_eq!(movies[0].movie_title, "The Matrix");
    assert_eq!(movies[0].movie_year, 1999);
    assert_eq!(movies[0].movie_stars, "Keanu Reeves");
    assert_eq!(movies[0].movie_images.url, "a.jpg");
    assert_eq!(movies[1].movie_id, "tt2");
}

#[test]
fn missing_stars_become_empty() {
    let mut m = info(Some("feature"), Some(ImageField::Parsed(image("a.jpg"))), "tt1", "T");
    m.s = None;
    let q = JsonQuery { v: 1, q: "t".to_string(), d: Some(vec![m]) };
    assert_eq!(movies_from_query(&q).unwrap()[0].movie_stars, "");
}

#[test]
fn no_suggestions_give_no_movies() {
    let q = JsonQuery { v: 1, q: "zzzz".to_string(), d: None };
    assert!(movies_from_query(&q).unwrap().is_empty());
}

#[test]
fn a_bad_picture_refuses_the_answer() {
    let q = JsonQuery {
        v: 1,
        q: "m".to_string(),
        d: Some(vec![
            info(Some("feature"), Some(ImageField::Parsed(image("a.jpg"))), "tt1", "A"),
            info(Some("feature"), Some(ImageField::Invalid), "tt2", "B"),
        ]),
    };
    assert_eq!(movies_from_query(&q).unwrap_err(), ResultsError::InvalidImage);
}

#[test]
fn a_found_movie_prints_like_the_site_prints_it() {
    let m = movie_rating_site::shared_types::MovieDisplay {
        movie_id: "tt1".to_string(),
        movie_title: "Dune".to_string(),
        movie_year: 2021,
        movie_images: image("d.jpg"),
        movie_stars: String::new(),
    };
    assert_eq!(
        m.display_string(),
        "\"Dune\", 2021, ImageData { url: \"d.jpg\", width: 10, height: 20 }"
    );
}

#[test]
fn trimming_gives_back_the_json_whatever_the_callback_name() {
    let body = "imdb$Romio___Juliet({\"v\":1,\"q\":\"x\"})".to_string();
    assert_eq!(trim_body_string(body, "Romio + Juliet".to_string()), "{\"v\":1,\"q\":\"x\"}");
    let body = "imdb$ab()".to_string();
    assert_eq!(trim_body_string(body, "xy".to_string()), "");
}

#[test]
fn body_fits_says_when_the_cut_can_be_made() {
    assert!(body_fits("imdb$Dune({})", "Dune"));
    assert!(body_fits("imdb$Dune()", "Dune"));
    assert!(!body_fits("imdb$Dune)", "Dune"));
    assert!(!body_fits("", ""));
    assert!(!body_fits("imdb$xé)", "a"));
    assert!(body_fits("imdb$é({})", "é"));
}
