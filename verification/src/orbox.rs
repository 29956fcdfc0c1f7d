//! Online Radio Box stream resolution: the widget endpoint and what its answer
//! must hold.

use vstd::prelude::*;
use crate::text::string_from;

verus! {

broadcast use vstd::string::group_string_axioms;

/// The widget endpoint's answer about a station's stream.
#[derive(Debug)]
pub struct WidgetResponse {
    pub stream_url: String,
    pub stream_type: i32,
    pub is_geo_blocked: bool,
    pub is_restricted: bool,
}

/// The widget endpoint for a station:
/// `https://onlineradiobox.com/json/<country>/<alias>/widget/`.
pub open spec fn widget_url_text(country: Seq<char>, alias: Seq<char>) -> Seq<char> {
    "https://onlineradiobox.com/json/"@ + country + "/"@ + alias + "/widget/"@
}

/// The widget endpoint for a station.
pub fn widget_url(country: &str, alias: &str) -> (r: String)
    ensures
        r@ == widget_url_text(country@, alias@),
{
    let mut r = String::new();
    r.push_str("https://onlineradiobox.com/json/");
    r.push_str(country);
    r.push_str("/");
    r.push_str(alias);
    r.push_str("/widget/");
    assert(Seq::<char>::empty() + "https://onlineradiobox.com/json/"@ == "https://onlineradiobox.com/json/"@);
    r
}

/// Why a widget answer gives no stream.
#[derive(Debug)]
pub enum StreamUrlError {
    GeoBlocked { country: String, alias: String },
    EmptyStreamUrl { country: String, alias: String },
}

/// A stream error as character sequences.
pub enum StreamUrlErrorView {
    GeoBlocked { country: Seq<char>, alias: Seq<char> },
    EmptyStreamUrl { country: Seq<char>, alias: Seq<char> },
}

impl View for StreamUrlError {
    type V = StreamUrlErrorView;

    open spec fn view(&self) -> StreamUrlErrorView {
        match self {
            StreamUrlError::GeoBlocked { country, alias } =>
                StreamUrlErrorView::GeoBlocked { country: country@, alias: alias@ },
            StreamUrlError::EmptyStreamUrl { country, alias } =>
                StreamUrlErrorView::EmptyStreamUrl { country: country@, alias: alias@ },
        }
    }
}

/// The message of a stream error.
pub open spec fn stream_error_text(e: StreamUrlErrorView) -> Seq<char> {
    match e {
        StreamUrlErrorView::GeoBlocked { country, alias } =>
            "station "@ + country + "/"@ + alias + " is geo-blocked"@,
        StreamUrlErrorView::EmptyStreamUrl { country, alias } =>
            "empty stream URL for station "@ + country + "/"@ + alias,
    }
}

impl StreamUrlError {
    /// The human-readable message of the error.
    pub fn message(&self) -> (r: String)
        ensures
            r@ == stream_error_text(self@),
    {
        let mut r = String::new();
        match self {
            StreamUrlError::GeoBlocked { country, alias } => {
                r.push_str("station ");
                r.push_str(country.as_str());
                r.push_str("/");
                r.push_str(alias.as_str());
                r.push_str(" is geo-blocked");
                assert(Seq::<char>::empty() + "station "@ == "station "@);
            },
            StreamUrlError::EmptyStreamUrl { country, alias } => {
                r.push_str("empty stream URL for station ");
                r.push_str(country.as_str());
                r.push_str("/");
                r.push_str(alias.as_str());
                assert(Seq::<char>::empty() + "empty stream URL for station "@
                    == "empty stream URL for station "@);
            },
        }
        r
    }
}

/// The stream URL of a widget answer: refused when the station is
/// geo-blocked, then when the URL is empty.
pub fn stream_url_from_widget(widget: WidgetResponse, country: &str, alias: &str) -> (r: Result<String, StreamUrlError>)
    ensures
        match r {
            Ok(u) => !widget.is_geo_blocked && widget.stream_url@.len() > 0 && u@ == widget.stream_url@,
            Err(e) => if widget.is_geo_blocked {
                e@ == (StreamUrlErrorView::GeoBlocked { country: country@, alias: alias@ })
            } else {
                widget.stream_url@.len() == 0
                    && e@ == (StreamUrlErrorView::EmptyStreamUrl { country: country@, alias: alias@ })
            },
        },
{
    if widget.is_geo_blocked {
        return Err(StreamUrlError::GeoBlocked {
            country: string_from(country),
            alias: string_from(alias),
        });
    }
    if widget.stream_url.as_str().is_empty() {
        return Err(StreamUrlError::EmptyStreamUrl {
            country: string_from(country),
            alias: string_from(alias),
        });
    }
    Ok(widget.stream_url)
}

} // verus!
