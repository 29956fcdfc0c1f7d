use radiod::station::StationUri;

#[test]
fn parse_orbox_uri() {
    let uri: StationUri = "orbox:uk/bbcradio1".parse().unwrap();
    assert_eq!(
        uri,
        StationUri::Orbox {
            country: "uk".into(),
            alias: "bbcradio1".into()
        }
    );
    assert_eq!(uri.to_uri_string(), "orbox:uk/bbcradio1");
}

#[test]
fn parse_direct_uri() {
    let uri: StationUri = "direct:https://example.com/stream".parse().unwrap();
    assert_eq!(
        uri,
        StationUri::Direct {
            url: "https://example.com/stream".into()
        }
    );
    assert_eq!(uri.to_uri_string(), "direct:https://example.com/stream");
}

#[test]
fn reject_unknown_scheme() {
    let result: Result<StationUri, _> = "http://example.com".parse();
    assert!(result.is_err());
}

#[test]
fn reject_empty_orbox() {
    let result: Result<StationUri, _> = "orbox:/".parse();
    assert!(result.is_err());
}

use radiod::station::StationUriParseError;

fn orbox(country: &str, alias: &str) -> StationUri {
    StationUri::Orbox { country: country.into(), alias: alias.into() }
}

#[test]
fn parse_skips_leading_double_slashes() {
    assert_eq!(StationUri::parse("orbox://uk/bbcradio2").unwrap(), orbox("uk", "bbcradio2"));
    assert_eq!(
        StationUri::parse("direct:////host/stream").unwrap(),
        StationUri::Direct { url: "host/stream".into() }
    );
}

#[test]
fn parse_trims_country_and_alias() {
    assert_eq!(StationUri::parse("orbox: uk / bbc1\t").unwrap(), orbox("uk", "bbc1"));
}

#[test]
fn alias_keeps_later_slashes() {
    assert_eq!(StationUri::parse("orbox:uk/a/b").unwrap(), orbox("uk", "a/b"));
}

#[test]
fn unknown_scheme_names_text_before_colon() {
    match StationUri::parse("http://example.com") {
        Err(StationUriParseError::UnknownScheme(s)) => assert_eq!(s, "http"),
        other => panic!("unexpected {:?}", other),
    }
    match StationUri::parse("plainword") {
        Err(e @ StationUriParseError::UnknownScheme(_)) => assert_eq!(
            e.message(),
            "unknown URI scheme 'plainword', expected 'orbox:' or 'direct:'"
        ),
        other => panic!("unexpected {:?}", other),
    }
}

#[test]
fn orbox_without_slash_is_invalid() {
    match StationUri::parse("orbox:uk") {
        Err(e @ StationUriParseError::InvalidFormat(_)) => assert_eq!(
            e.message(),
            "invalid URI format: expected 'orbox:<country>/<alias>', got 'orbox:uk'"
        ),
        other => panic!("unexpected {:?}", other),
    }
}

#[test]
fn orbox_with_empty_part_is_invalid() {
    match StationUri::parse("orbox:uk/  ") {
        Err(StationUriParseError::InvalidFormat(m)) => {
            assert_eq!(m, "country and alias must not be empty in 'orbox:uk/  '")
        }
        other => panic!("unexpected {:?}", other),
    }
}

#[test]
fn empty_direct_is_invalid() {
    match StationUri::parse("direct://") {
        Err(StationUriParseError::InvalidFormat(m)) => assert_eq!(m, "direct URI must include a URL"),
        other => panic!("unexpected {:?}", other),
    }
}

#[test]
fn reparse_gives_same_station() {
    for text in ["orbox: uk/ bbc1 ", "orbox:////fr/fip", "direct:////x/y", "direct:https://a.b/c"] {
        let first = StationUri::parse(text).unwrap();
        let again = StationUri::parse(&first.to_uri_string()).unwrap();
        assert_eq!(first, again);
    }
}
