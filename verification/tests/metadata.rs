use radiod::metadata::{parse_metadata, ScraperResponse};

fn scraper_with_structured() -> ScraperResponse {
    ScraperResponse {
        title: Some("Aitch - Rain (feat. Tay Keith)".to_string()),
        i_artist: Some("AJ Tracey".to_string()),
        i_name: Some("Rain (feat. Tay Keith)".to_string()),
        i_img: Some("https://example.com/art.jpg".to_string()),
        track_id: Some("1369276698548314001".to_string()),
    }
}

fn scraper_title_only(title: &str) -> ScraperResponse {
    ScraperResponse {
        title: Some(title.to_string()),
        i_artist: Some(String::new()),
        i_name: Some(String::new()),
        i_img: Some("https://example.com/img.jpg".to_string()),
        track_id: Some("123".to_string()),
    }
}

#[test]
fn parse_structured_artist_and_name() {
    let result = parse_metadata(scraper_with_structured());
    assert_eq!(result.artist, "AJ Tracey");
    assert_eq!(result.title, "Rain (feat. Tay Keith)");
    assert_eq!(result.track_id, "1369276698548314001");
    assert_eq!(result.art_url, "https://example.com/art.jpg");
    assert!(result.album.is_none());
    assert!(result.duration_secs.is_none());
}

#[test]
fn parse_fallback_split_on_dash() {
    let result = parse_metadata(scraper_title_only("Aitch - Rain (feat. Tay Keith)"));
    assert_eq!(result.artist, "Aitch");
    assert_eq!(result.title, "Rain (feat. Tay Keith)");
}

#[test]
fn parse_fallback_no_separator() {
    let result = parse_metadata(scraper_title_only("Some Song Title"));
    assert_eq!(result.artist, "");
    assert_eq!(result.title, "Some Song Title");
}

#[test]
fn parse_fallback_empty_title() {
    let result = parse_metadata(scraper_title_only(""));
    assert_eq!(result.artist, "");
    assert_eq!(result.title, "");
}

#[test]
fn parse_empty_artist_still_uses_structured_name() {
    let response = ScraperResponse {
        title: Some("Fallback Title".to_string()),
        i_artist: Some(String::new()),
        i_name: Some("Structured Title".to_string()),
        i_img: Some(String::new()),
        track_id: Some("456".to_string()),
    };
    let result = parse_metadata(response);
    assert_eq!(result.artist, "Fallback Title".split_once(" - ").map(|_| "").unwrap_or(""));
    assert_eq!(result.title, "Fallback Title");
}

#[test]
fn parse_empty_name_still_uses_fallback() {
    let response = ScraperResponse {
        title: Some("Artist - Song".to_string()),
        i_artist: Some(String::new()),
        i_name: Some(String::new()),
        i_img: Some(String::new()),
        track_id: Some("789".to_string()),
    };
    let result = parse_metadata(response);
    assert_eq!(result.artist, "Artist");
    assert_eq!(result.title, "Song");
}

use radiod::metadata::{is_permanent_failure, scraper_url, Metadata};

#[test]
fn missing_fields_give_empty_texts() {
    let result = parse_metadata(ScraperResponse {
        title: None,
        i_artist: None,
        i_name: Some("Name".into()),
        i_img: None,
        track_id: None,
    });
    assert_eq!(result.artist, "");
    assert_eq!(result.title, "");
    assert_eq!(result.track_id, "");
    assert_eq!(result.art_url, "");
}

#[test]
fn split_uses_first_separator() {
    let result = parse_metadata(scraper_title_only("A - B - C"));
    assert_eq!(result.artist, "A");
    assert_eq!(result.title, "B - C");
}

#[test]
fn scraper_url_joins_country_and_alias() {
    assert_eq!(scraper_url("uk", "bbcradio1"), "http://scraper.onlineradiobox.com/uk.bbcradio1");
}

#[test]
fn permanent_failures() {
    assert!(is_permanent_failure("scraper returned 404 Not Found for uk.x"));
    assert!(is_permanent_failure("scraper returned 410 Gone for uk.x"));
    assert!(is_permanent_failure("station uk/x is geo-blocked"));
    assert!(!is_permanent_failure("scraper returned 500 Internal Server Error for uk.x"));
    assert!(!is_permanent_failure(""));
}

#[test]
fn default_metadata_is_empty() {
    let m = Metadata::default();
    assert_eq!(m.title, "");
    assert!(m.album.is_none());
    assert!(m.duration_secs.is_none());
}
