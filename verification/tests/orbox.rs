use radiod::orbox::{stream_url_from_widget, widget_url, StreamUrlError, WidgetResponse};

fn widget(url: &str, geo: bool) -> WidgetResponse {
    WidgetResponse { stream_url: url.into(), stream_type: 6, is_geo_blocked: geo, is_restricted: false }
}

#[test]
fn widget_endpoint() {
    assert_eq!(widget_url("uk", "bbcdance"), "https://onlineradiobox.com/json/uk/bbcdance/widget/");
}

#[test]
fn stream_url_is_taken_from_widget() {
    assert_eq!(
        stream_url_from_widget(widget("https://example.com/stream", false), "uk", "x").unwrap(),
        "https://example.com/stream"
    );
}

#[test]
fn geo_blocked_is_refused_first() {
    match stream_url_from_widget(widget("", true), "uk", "x") {
        Err(e @ StreamUrlError::GeoBlocked { .. }) => assert_eq!(e.message(), "station uk/x is geo-blocked"),
        other => panic!("unexpected {:?}", other),
    }
}

#[test]
fn empty_stream_url_is_refused() {
    match stream_url_from_widget(widget("", false), "uk", "x") {
        Err(e @ StreamUrlError::EmptyStreamUrl { .. }) => {
            assert_eq!(e.message(), "empty stream URL for station uk/x")
        }
        other => panic!("unexpected {:?}", other),
    }
}
