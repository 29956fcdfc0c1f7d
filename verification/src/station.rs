//! Station URIs: `orbox:<country>/<alias>` and `direct:<url>`.

use vstd::prelude::*;
use crate::text::{
    is_first_index, lemma_first_index_unique, lemma_split_once_head, lemma_trim_idempotent, lemma_trim_leading_double_slashes_idempotent, lemma_trim_within,
    starts_with, string_from, before_first, chars_of, find_char, has_prefix_at, split_once, string_of, string_of_range,
    strip_prefix, trim, trim_bounds, trim_leading_double_slashes,
};

verus! {

broadcast use vstd::string::group_string_axioms;

/// Where a station's stream comes from.
#[derive(Debug, Clone, PartialEq, Eq)]
pub enum StationUri {
    /// Resolved to a stream URL through the Online Radio Box API.
    Orbox { country: String, alias: String },
    /// Played as given.
    Direct { url: String },
}

/// Why a string is not a station URI.
#[derive(Debug)]
pub enum StationUriParseError {
    /// The text before the first `:` is neither `orbox` nor `direct`.
    UnknownScheme(String),
    /// The scheme is known but the rest does not fit it.
    InvalidFormat(String),
}

/// A station URI as character sequences.
pub enum StationUriView {
    Orbox { country: Seq<char>, alias: Seq<char> },
    Direct { url: Seq<char> },
}

/// A parse error as character sequences.
pub enum StationUriParseErrorView {
    UnknownScheme(Seq<char>),
    InvalidFormat(Seq<char>),
}

impl View for StationUri {
    type V = StationUriView;

    open spec fn view(&self) -> StationUriView {
        match self {
            StationUri::Orbox { country, alias } => StationUriView::Orbox { country: country@, alias: alias@ },
            StationUri::Direct { url } => StationUriView::Direct { url: url@ },
        }
    }
}

impl View for StationUriParseError {
    type V = StationUriParseErrorView;

    open spec fn view(&self) -> StationUriParseErrorView {
        match self {
            StationUriParseError::UnknownScheme(s) => StationUriParseErrorView::UnknownScheme(s@),
            StationUriParseError::InvalidFormat(s) => StationUriParseErrorView::InvalidFormat(s@),
        }
    }
}

/// The result of parsing `s` as a station URI.
pub open spec fn parse_station_uri(s: Seq<char>) -> Result<StationUriView, StationUriParseErrorView> {
    match strip_prefix(s, "orbox:"@) {
        Some(rest) => {
            match split_once(trim_leading_double_slashes(rest), '/') {
                None => Err(StationUriParseErrorView::InvalidFormat(
                    "expected 'orbox:<country>/<alias>', got '"@ + s + "'"@,
                )),
                Some((c, a)) => {
                    let country = trim(c);
                    let alias = trim(a);
                    if country.len() == 0 || alias.len() == 0 {
                        Err(StationUriParseErrorView::InvalidFormat(
                            "country and alias must not be empty in '"@ + s + "'"@,
                        ))
                    } else {
                        Ok(StationUriView::Orbox { country, alias })
                    }
                }
            }
        }
        None => match strip_prefix(s, "direct:"@) {
            Some(rest) => {
                let url = trim_leading_double_slashes(rest);
                if url.len() == 0 {
                    Err(StationUriParseErrorView::InvalidFormat("direct URI must include a URL"@))
                } else {
                    Ok(StationUriView::Direct { url })
                }
            }
            None => Err(StationUriParseErrorView::UnknownScheme(before_first(s, ':'))),
        },
    }
}

/// The text form of a station URI.
pub open spec fn station_uri_text(u: StationUriView) -> Seq<char> {
    match u {
        StationUriView::Orbox { country, alias } => "orbox:"@ + country + "/"@ + alias,
        StationUriView::Direct { url } => "direct:"@ + url,
    }
}

/// The message of a parse error.
pub open spec fn parse_error_text(e: StationUriParseErrorView) -> Seq<char> {
    match e {
        StationUriParseErrorView::UnknownScheme(scheme) =>
            "unknown URI scheme '"@ + scheme + "', expected 'orbox:' or 'direct:'"@,
        StationUriParseErrorView::InvalidFormat(msg) => "invalid URI format: "@ + msg,
    }
}

/// A station URI whose text form parses back to it: non-empty parts without
/// surrounding white space, a country without `/`, a URL not starting with `//`.
pub open spec fn is_canonical_station_uri(u: StationUriView) -> bool {
    match u {
        StationUriView::Orbox { country, alias } => {
            &&& country.len() > 0
            &&& alias.len() > 0
            &&& trim(country) == country
            &&& trim(alias) == alias
            &&& !country.contains('/')
        },
        StationUriView::Direct { url } => {
            &&& url.len() > 0
            &&& trim_leading_double_slashes(url) == url
        },
    }
}

/// Every URI that parsing produces is canonical.
pub proof fn lemma_parsed_uri_is_canonical(s: Seq<char>)
    requires
        parse_station_uri(s) is Ok,
    ensures
        is_canonical_station_uri(parse_station_uri(s)->Ok_0),
{
    match strip_prefix(s, "orbox:"@) {
        Some(rest) => {
            let r = trim_leading_double_slashes(rest);
            let (c, a) = split_once(r, '/')->Some_0;
            lemma_trim_idempotent(c);
            lemma_trim_idempotent(a);
            lemma_split_once_head(r, '/');
            lemma_trim_within(c, '/');
        },
        None => {
            let rest = strip_prefix(s, "direct:"@)->Some_0;
            lemma_trim_leading_double_slashes_idempotent(rest);
        },
    }
}

/// A canonical URI's text form parses back to the same URI.
pub proof fn lemma_canonical_uri_round_trip(u: StationUriView)
    requires
        is_canonical_station_uri(u),
    ensures
        parse_station_uri(station_uri_text(u)) == Ok::<StationUriView, StationUriParseErrorView>(u),
{
    reveal_strlit("orbox:");
    reveal_strlit("direct:");
    reveal_strlit("/");
    let t = station_uri_text(u);
    match u {
        StationUriView::Orbox { country, alias } => {
            let body = country + "/"@ + alias;
            assert(t.take(6) == "orbox:"@);
            assert(t.skip(6) == body);
            assert(starts_with(t, "orbox:"@));
            assert(body[0] == country[0]);
            assert(country[0] != '/') by {
                assert(country.contains(country[0]));
            }
            assert(trim_leading_double_slashes(body) == body);
            let n = country.len() as int;
            assert(is_first_index(body, '/', n)) by {
                assert forall|j: int| 0 <= j < n implies body[j] != '/' by {
                    assert(body[j] == country[j]);
                    assert(country.contains(country[j]));
                }
            }
            lemma_first_index_unique(body, '/', n);
            assert(body.take(n) == country);
            assert(body.skip(n + 1) == alias);
        },
        StationUriView::Direct { url } => {
            assert(t[0] == 'd');
            assert(!starts_with(t, "orbox:"@)) by {
                if starts_with(t, "orbox:"@) {
                    assert(t.take(6)[0] == 'o');
                }
            }
            assert(t.take(7) == "direct:"@);
            assert(t.skip(7) == url);
        },
    }
}

/// A parsed station URI, written out and parsed again, gives the same URI.
pub proof fn law_reparse_station_uri(s: Seq<char>)
    requires
        parse_station_uri(s) is Ok,
    ensures
        parse_station_uri(station_uri_text(parse_station_uri(s)->Ok_0)) == parse_station_uri(s),
{
    lemma_parsed_uri_is_canonical(s);
    lemma_canonical_uri_round_trip(parse_station_uri(s)->Ok_0);
}

/// A `String` holding `a`, `b` and `c` in that order.
fn concat3(a: &str, b: &str, c: &str) -> (s: String)
    ensures
        s@ == a@ + b@ + c@,
{
    let mut s = String::new();
    s.push_str(a);
    s.push_str(b);
    s.push_str(c);
    assert(Seq::<char>::empty() + a@ == a@);
    s
}

/// A `String` holding `a` followed by `b`.
fn concat2(a: &str, b: &str) -> (s: String)
    ensures
        s@ == a@ + b@,
{
    let mut s = string_from(a);
    s.push_str(b);
    s
}

/// Index just past the leading `"//"` pairs of `v[from..]`.
fn skip_double_slashes(v: &Vec<char>, from: usize) -> (r: usize)
    requires
        from <= v.len(),
    ensures
        from <= r <= v.len(),
        v@.skip(r as int) == trim_leading_double_slashes(v@.skip(from as int)),
{
    let mut i = from;
    while v.len() - i >= 2 && v[i] == '/' && v[i + 1] == '/'
        invariant
            from <= i <= v.len(),
            trim_leading_double_slashes(v@.skip(i as int)) == trim_leading_double_slashes(v@.skip(from as int)),
        decreases v.len() - i,
    {
        assert(v@.skip(i as int).skip(2) == v@.skip(i + 2));
        i += 2;
    }
    i
}

impl StationUri {
    /// Parses a station URI (`orbox:<country>/<alias>` or `direct:<url>`).
    pub fn parse(s: &str) -> (r: Result<StationUri, StationUriParseError>)
        ensures
            match r {
                Ok(u) => parse_station_uri(s@) == Ok::<StationUriView, StationUriParseErrorView>(u@),
                Err(e) => parse_station_uri(s@) == Err::<StationUriView, StationUriParseErrorView>(e@),
            },
    {
        let v = chars_of(s);
        let orbox = chars_of("orbox:");
        let direct = chars_of("direct:");
        assert(v@.skip(0) == v@);
        if has_prefix_at(&v, 0, &orbox) {
            let start = skip_double_slashes(&v, orbox.len());
            let ghost rest = v@.skip(start as int);
            match find_char(&v, start, '/') {
                None => {
                    Err(StationUriParseError::InvalidFormat(
                        concat3("expected 'orbox:<country>/<alias>', got '", s, "'"),
                    ))
                }
                Some(k) => {
                    let slash = start + k;
                    assert(rest.take(k as int) == v@.subrange(start as int, slash as int));
                    assert(rest.skip(k + 1) == v@.subrange(slash + 1, v.len() as int));
                    let (c0, c1) = trim_bounds(&v, start, slash);
                    let (a0, a1) = trim_bounds(&v, slash + 1, v.len());
                    if c0 == c1 || a0 == a1 {
                        Err(StationUriParseError::InvalidFormat(
                            concat3("country and alias must not be empty in '", s, "'"),
                        ))
                    } else {
                        let country = string_of_range(&v, c0, c1);
                        let alias = string_of_range(&v, a0, a1);
                        assert(strip_prefix(s@, "orbox:"@) == Some(v@.skip(orbox.len() as int)));
                        assert(trim_leading_double_slashes(v@.skip(orbox.len() as int)) == rest);
                        assert(split_once(rest, '/') == Some((rest.take(k as int), rest.skip(k + 1))));
                        Ok(StationUri::Orbox { country, alias })
                    }
                }
            }
        } else if has_prefix_at(&v, 0, &direct) {
            let start = skip_double_slashes(&v, direct.len());
            if start == v.len() {
                Err(StationUriParseError::InvalidFormat(string_from("direct URI must include a URL")))
            } else {
                let url = string_of_range(&v, start, v.len());
                assert(v@.skip(start as int) == v@.subrange(start as int, v.len() as int));
                Ok(StationUri::Direct { url })
            }
        } else {
            let scheme = match find_char(&v, 0, ':') {
                Some(k) => string_of_range(&v, 0, k),
                None => string_of(&v),
            };
            Err(StationUriParseError::UnknownScheme(scheme))
        }
    }

    /// The text form: `orbox:<country>/<alias>` or `direct:<url>`.
    pub fn to_uri_string(&self) -> (r: String)
        ensures
            r@ == station_uri_text(self@),
    {
        match self {
            StationUri::Orbox { country, alias } => {
                let mut r = concat3("orbox:", country.as_str(), "/");
                r.push_str(alias.as_str());
                r
            }
            StationUri::Direct { url } => concat2("direct:", url.as_str()),
        }
    }
}

impl StationUriParseError {
    /// The human-readable message of the error.
    pub fn message(&self) -> (r: String)
        ensures
            r@ == parse_error_text(self@),
    {
        match self {
            StationUriParseError::UnknownScheme(scheme) => concat3(
                "unknown URI scheme '",
                scheme.as_str(),
                "', expected 'orbox:' or 'direct:'",
            ),
            StationUriParseError::InvalidFormat(msg) => concat2("invalid URI format: ", msg.as_str()),
        }
    }
}

impl std::str::FromStr for StationUri {
    type Err = StationUriParseError;

    fn from_str(s: &str) -> (r: Result<Self, Self::Err>)
        ensures
            match r {
                Ok(u) => parse_station_uri(s@) == Ok::<StationUriView, StationUriParseErrorView>(u@),
                Err(e) => parse_station_uri(s@) == Err::<StationUriView, StationUriParseErrorView>(e@),
            },
    {
        StationUri::parse(s)
    }
}

} // verus!
