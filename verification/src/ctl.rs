//! The text that the `radiod-ctl` control tool prints.

use vstd::prelude::*;
use vstd::utf8::encode_utf8;
use crate::text::{decimal, pad_right, push_decimal, push_padded, repeat};

verus! {

broadcast use vstd::string::group_string_axioms;

/// The texts of `l` joined by `sep`.
pub open spec fn join(l: Seq<Seq<char>>, sep: Seq<char>) -> Seq<char>
    decreases l.len(),
{
    if l.len() == 0 {
        Seq::empty()
    } else if l.len() == 1 {
        l[0]
    } else {
        join(l.drop_last(), sep) + sep + l.last()
    }
}

/// The views of a list of strings.
pub open spec fn strings_view(l: Seq<String>) -> Seq<Seq<char>> {
    l.map_values(|s: String| s@)
}

/// The strings of `l` joined by `sep`.
pub fn join_strings(l: &Vec<String>, sep: &str) -> (r: String)
    ensures
        r@ == join(strings_view(l@), sep@),
{
    let ghost lv = strings_view(l@);
    let mut r = String::new();
    let mut i: usize = 0;
    while i < l.len()
        invariant
            i <= l.len(),
            lv == strings_view(l@),
            r@ == join(lv.take(i as int), sep@),
        decreases l.len() - i,
    {
        if i > 0 {
            r.push_str(sep);
        }
        r.push_str(l[i].as_str());
        proof {
            let t = lv.take(i + 1);
            assert(t.drop_last() == lv.take(i as int));
            assert(t.last() == l@[i as int]@);
            if i == 0 {
                assert(Seq::<char>::empty() + l@[0]@ == l@[0]@);
            }
        }
        i += 1;
    }
    assert(lv.take(l.len() as int) == lv);
    r
}

/// One output line, made of a literal label and a value.
fn labelled(label: &str, value: &str) -> (r: String)
    ensures
        r@ == label@ + value@,
{
    let mut r = String::new();
    r.push_str(label);
    r.push_str(value);
    assert(Seq::<char>::empty() + label@ == label@);
    r
}

/// The views of a list of output lines.
pub open spec fn lines_view(l: Seq<String>) -> Seq<Seq<char>> {
    l.map_values(|s: String| s@)
}

/// `s` as a single line when `keep`, else no line.
pub open spec fn line_if(keep: bool, s: Seq<char>) -> Seq<Seq<char>> {
    if keep { seq![s] } else { Seq::empty() }
}

/// What `now-playing` prints for a title, its artists, album and art URL.
pub open spec fn now_playing_text(
    title: Seq<char>,
    artists: Seq<Seq<char>>,
    album: Seq<char>,
    art_url: Seq<char>,
) -> Seq<Seq<char>> {
    let artist = join(artists, ", "@);
    if title.len() == 0 && artist.len() == 0 {
        seq!["No track metadata available."@]
    } else {
        line_if(title.len() > 0, "Title:  "@ + title)
            + line_if(artist.len() > 0, "Artist: "@ + artist)
            + line_if(album.len() > 0, "Album:  "@ + album)
            + line_if(art_url.len() > 0, "Art:    "@ + art_url)
    }
}

/// Each line that `now-playing` prints for a track is one of the four
/// labelled lines, and only for a non-empty value.
proof fn lemma_now_playing_line_kinds(
    title: Seq<char>,
    artists: Seq<Seq<char>>,
    album: Seq<char>,
    art_url: Seq<char>,
    i: int,
)
    requires
        title.len() > 0 || join(artists, ", "@).len() > 0,
        0 <= i < now_playing_text(title, artists, album, art_url).len(),
    ensures
        ({
            let artist = join(artists, ", "@);
            let line = now_playing_text(title, artists, album, art_url)[i];
            ||| title.len() > 0 && line == "Title:  "@ + title
            ||| artist.len() > 0 && line == "Artist: "@ + artist
            ||| album.len() > 0 && line == "Album:  "@ + album
            ||| art_url.len() > 0 && line == "Art:    "@ + art_url
        }),
{
    let artist = join(artists, ", "@);
    let a = line_if(title.len() > 0, "Title:  "@ + title);
    let b = line_if(artist.len() > 0, "Artist: "@ + artist);
    let c = line_if(album.len() > 0, "Album:  "@ + album);
    let d = line_if(art_url.len() > 0, "Art:    "@ + art_url);
    let text = now_playing_text(title, artists, album, art_url);
    assert(text == a + b + c + d);
    if i < a.len() {
        assert(text[i] == a[i]);
    } else if i < a.len() + b.len() {
        assert(text[i] == b[i - a.len()]);
    } else if i < a.len() + b.len() + c.len() {
        assert(text[i] == c[i - a.len() - b.len()]);
    } else {
        assert(text[i] == d[i - a.len() - b.len() - c.len()]);
    }
}

/// What `now-playing` prints: with neither title nor artist, a single line
/// saying so; else the title line first when there is a title, the art line
/// last when there is an art URL, and each of the lines `Title:`, `Artist:`
/// (the artists joined by `", "`), `Album:` and `Art:` exactly when its value
/// is non-empty, each independent of the others.
pub proof fn law_now_playing_lines(
    title: Seq<char>,
    artists: Seq<Seq<char>>,
    album: Seq<char>,
    art_url: Seq<char>,
)
    ensures
        ({
            let artist = join(artists, ", "@);
            let text = now_playing_text(title, artists, album, art_url);
            &&& title.len() == 0 && artist.len() == 0 ==> text == seq!["No track metadata available."@]
            &&& title.len() > 0 || artist.len() > 0 ==> {
                &&& title.len() > 0 ==> text[0] == "Title:  "@ + title
                &&& art_url.len() > 0 ==> text.len() > 0 && text.last() == "Art:    "@ + art_url
                &&& text.contains("Title:  "@ + title) <==> title.len() > 0
                &&& text.contains("Artist: "@ + artist) <==> artist.len() > 0
                &&& text.contains("Album:  "@ + album) <==> album.len() > 0
                &&& text.contains("Art:    "@ + art_url) <==> art_url.len() > 0
            }
        }),
{
    reveal_strlit("Title:  ");
    reveal_strlit("Artist: ");
    reveal_strlit("Album:  ");
    reveal_strlit("Art:    ");
    let artist = join(artists, ", "@);
    let text = now_playing_text(title, artists, album, art_url);
    if title.len() > 0 || artist.len() > 0 {
        let a = line_if(title.len() > 0, "Title:  "@ + title);
        let b = line_if(artist.len() > 0, "Artist: "@ + artist);
        let c = line_if(album.len() > 0, "Album:  "@ + album);
        let d = line_if(art_url.len() > 0, "Art:    "@ + art_url);
        assert(text == a + b + c + d);
        let lt = "Title:  "@ + title;
        let lr = "Artist: "@ + artist;
        let lb = "Album:  "@ + album;
        let la = "Art:    "@ + art_url;
        assert(lt[0] == 'T' && lr[0] == 'A' && lb[0] == 'A' && la[0] == 'A');
        assert(lr[1] == 'r' && lb[1] == 'l' && la[1] == 'r');
        assert(lr[3] == 'i' && la[3] == ':');
        if title.len() > 0 {
            assert(text[0] == lt);
        }
        if artist.len() > 0 {
            assert(text[a.len() as int] == lr);
        }
        if album.len() > 0 {
            assert(text[(a.len() + b.len()) as int] == lb);
        }
        if art_url.len() > 0 {
            assert(text[(a.len() + b.len() + c.len()) as int] == la);
        }
        assert forall|x: Seq<char>| #[trigger] text.contains(x) implies
            (x == lt ==> title.len() > 0) && (x == lr ==> artist.len() > 0)
                && (x == lb ==> album.len() > 0) && (x == la ==> art_url.len() > 0) by {
            let i = choose|i: int| 0 <= i < text.len() && text[i] == x;
            lemma_now_playing_line_kinds(title, artists, album, art_url, i);
        }
    }
}

/// Appends `label` + `value` to `lines` when `value` is non-empty.
fn push_if_nonempty(lines: &mut Vec<String>, label: &str, value: &String)
    ensures
        lines_view(final(lines)@) == lines_view(old(lines)@) + line_if(value@.len() > 0, label@ + value@),
{
    let ghost before = lines_view(lines@);
    if !value.as_str().is_empty() {
        lines.push(labelled(label, value.as_str()));
        assert(lines_view(lines@) == before.push(label@ + value@));
        assert(before + seq![label@ + value@] == before.push(label@ + value@));
    } else {
        assert(before + Seq::<Seq<char>>::empty() == before);
    }
}

/// The lines `now-playing` prints (see `now_playing_text`).
pub fn now_playing_lines(title: &String, artists: &Vec<String>, album: &String, art_url: &String) -> (r: Vec<String>)
    ensures
        lines_view(r@) == now_playing_text(title@, strings_view(artists@), album@, art_url@),
{
    let artist = join_strings(artists, ", ");
    let mut lines: Vec<String> = Vec::new();
    if title.as_str().is_empty() && artist.as_str().is_empty() {
        lines.push(labelled("No track metadata available.", ""));
        proof {
            reveal_strlit("");
            assert("No track metadata available."@ + ""@ == "No track metadata available."@);
            assert(lines_view(lines@) == seq!["No track metadata available."@]);
        }
        return lines;
    }
    assert(lines_view(lines@) == Seq::<Seq<char>>::empty());
    push_if_nonempty(&mut lines, "Title:  ", title);
    push_if_nonempty(&mut lines, "Artist: ", &artist);
    push_if_nonempty(&mut lines, "Album:  ", album);
    push_if_nonempty(&mut lines, "Art:    ", art_url);
    proof {
        assert(Seq::<Seq<char>>::empty() + line_if(title@.len() > 0, "Title:  "@ + title@)
            == line_if(title@.len() > 0, "Title:  "@ + title@));
    }
    lines
}

/// The number of UTF-8 bytes of `s`.
pub open spec fn byte_len(s: Seq<char>) -> nat {
    encode_utf8(s).len()
}

/// The largest byte length among the names of `stations`, at least `floor`.
pub open spec fn widest_name(stations: Seq<(Seq<char>, Seq<char>)>, floor: nat) -> nat
    decreases stations.len(),
{
    if stations.len() == 0 {
        floor
    } else {
        let rest = widest_name(stations.drop_last(), floor);
        let n = byte_len(stations.last().0);
        if n > rest { n } else { rest }
    }
}

/// The views of name/URI pairs.
pub open spec fn pairs_view(l: Seq<(String, String)>) -> Seq<(Seq<char>, Seq<char>)> {
    l.map_values(|p: (String, String)| (p.0@, p.1@))
}

/// One row of the station table: a `*` marking the current station, the
/// name padded to the column width, and the URI.
pub open spec fn station_row(name: Seq<char>, uri: Seq<char>, current_uri: Seq<char>, width: nat) -> Seq<char> {
    (if uri == current_uri { "*"@ } else { " "@ }) + " "@ + pad_right(name, width) + "  "@ + uri
}

/// What `list-stations` prints for the stations (name, URI) when the
/// current station's URI is `current_uri`: a header, a rule and one row per
/// station, the name column as wide as the longest name in bytes and at
/// least 4.
pub open spec fn station_list_text(stations: Seq<(Seq<char>, Seq<char>)>, current_uri: Seq<char>) -> Seq<Seq<char>> {
    if stations.len() == 0 {
        seq!["No stations configured."@]
    } else {
        let w = widest_name(stations, 4);
        seq![
            pad_right("Name"@, w) + "  URI"@,
            repeat('-', w) + "  ---"@,
        ] + Seq::new(stations.len(), |i: int| station_row(stations[i].0, stations[i].1, current_uri, w))
    }
}

/// The lines `list-stations` prints (see `station_list_text`).
pub fn station_list_lines(stations: &Vec<(String, String)>, current_uri: &String) -> (r: Vec<String>)
    requires
        forall|i: int| 0 <= i < stations@.len() ==> byte_len(#[trigger] stations@[i].0@) <= usize::MAX,
    ensures
        lines_view(r@) == station_list_text(pairs_view(stations@), current_uri@),
{
    let ghost sv = pairs_view(stations@);
    let mut lines: Vec<String> = Vec::new();
    if stations.len() == 0 {
        lines.push(labelled("No stations configured.", ""));
        proof {
            reveal_strlit("");
            assert("No stations configured."@ + ""@ == "No stations configured."@);
            assert(lines_view(lines@) == seq!["No stations configured."@]);
        }
        return lines;
    }
    let mut width: usize = 4;
    let mut i: usize = 0;
    while i < stations.len()
        invariant
            i <= stations.len(),
            sv == pairs_view(stations@),
            width == widest_name(sv.take(i as int), 4),
            forall|x: int| 0 <= x < stations@.len() ==> byte_len(#[trigger] stations@[x].0@) <= usize::MAX,
        decreases stations.len() - i,
    {
        let n = stations[i].0.as_str().len();
        assert(byte_len(stations@[i as int].0@) <= usize::MAX);
        assert(n == byte_len(sv[i as int].0));
        if n > width {
            width = n;
        }
        assert(sv.take(i + 1).drop_last() == sv.take(i as int));
        assert(sv.take(i + 1).last() == sv[i as int]);
        i += 1;
    }
    assert(sv.take(stations.len() as int) == sv);
    let ghost w = width as nat;

    let mut header = String::new();
    let name_label = labelled("Name", "");
    proof {
        reveal_strlit("");
        assert("Name"@ + ""@ == "Name"@);
    }
    push_padded(&mut header, &name_label, width);
    header.push_str("  URI");
    assert(Seq::<char>::empty() + pad_right("Name"@, w) == pad_right("Name"@, w));
    lines.push(header);

    let mut rule = String::new();
    let mut k: usize = 0;
    while k < width
        invariant
            k <= width,
            rule@ == repeat('-', k as nat),
        decreases width - k,
    {
        rule.push('-');
        assert(repeat('-', (k + 1) as nat) == repeat('-', k as nat).push('-'));
        k += 1;
    }
    rule.push_str("  ---");
    lines.push(rule);

    let ghost head = lines_view(lines@);
    assert(head == seq![pad_right("Name"@, w) + "  URI"@, repeat('-', w) + "  ---"@]);
    let mut j: usize = 0;
    while j < stations.len()
        invariant
            j <= stations.len(),
            sv == pairs_view(stations@),
            w == width as nat,
            head.len() == 2,
            lines_view(lines@) == head + Seq::new(j as nat, |x: int| station_row(sv[x].0, sv[x].1, current_uri@, w)),
        decreases stations.len() - j,
    {
        let mut row = String::new();
        if stations[j].1 == *current_uri {
            row.push_str("*");
        } else {
            row.push_str(" ");
        }
        row.push_str(" ");
        push_padded(&mut row, &stations[j].0, width);
        row.push_str("  ");
        row.push_str(stations[j].1.as_str());
        proof {
            let m = if sv[j as int].1 == current_uri@ { "*"@ } else { " "@ };
            assert(Seq::<char>::empty() + m == m);
            assert(row@ == station_row(sv[j as int].0, sv[j as int].1, current_uri@, w));
        }
        let ghost prev = lines@;
        lines.push(row);
        assert(lines@ == prev.push(row));
        assert(lines_view(lines@) == lines_view(prev).push(row@));
        assert(Seq::new((j + 1) as nat, |x: int| station_row(sv[x].0, sv[x].1, current_uri@, w))
            == Seq::new(j as nat, |x: int| station_row(sv[x].0, sv[x].1, current_uri@, w))
                .push(station_row(sv[j as int].0, sv[j as int].1, current_uri@, w)));
        j += 1;
    }
    lines
}

/// `widest_name` is the largest of `floor` and the byte lengths of the names.
proof fn lemma_widest_name(stations: Seq<(Seq<char>, Seq<char>)>, floor: nat)
    ensures
        widest_name(stations, floor) >= floor,
        forall|i: int| 0 <= i < stations.len() ==> byte_len(#[trigger] stations[i].0) <= widest_name(stations, floor),
        widest_name(stations, floor) == floor
            || exists|i: int| 0 <= i < stations.len() && byte_len(#[trigger] stations[i].0) == widest_name(stations, floor),
    decreases stations.len(),
{
    if stations.len() > 0 {
        let init = stations.drop_last();
        lemma_widest_name(init, floor);
        let w = widest_name(stations, floor);
        let k = stations.len() - 1;
        assert forall|i: int| 0 <= i < stations.len() implies byte_len(#[trigger] stations[i].0) <= w by {
            if i < k {
                assert(stations[i] == init[i]);
            }
        }
        if w != floor && w != byte_len(stations[k].0) {
            let j = choose|j: int| 0 <= j < init.len() && byte_len(#[trigger] init[j].0) == widest_name(init, floor);
            assert(stations[j] == init[j]);
        }
    }
}

/// The station table: with no stations, a single line saying so; else a
/// header, a rule and one row per station in order, where the name column is
/// exactly as wide as needed (at least 4, at least the byte length of every
/// name, and equal to 4 or to the byte length of some name), and each row
/// marks the station whose URI is the current one with `*`.
pub proof fn law_station_list_layout(stations: Seq<(Seq<char>, Seq<char>)>, current_uri: Seq<char>)
    ensures
        stations.len() == 0 ==> station_list_text(stations, current_uri) == seq!["No stations configured."@],
        stations.len() > 0 ==> {
            let w = widest_name(stations, 4);
            let text = station_list_text(stations, current_uri);
            &&& w >= 4
            &&& forall|i: int| 0 <= i < stations.len() ==> byte_len(#[trigger] stations[i].0) <= w
            &&& (w == 4 || exists|i: int| 0 <= i < stations.len() && byte_len(#[trigger] stations[i].0) == w)
            &&& text.len() == stations.len() + 2
            &&& text[0] == pad_right("Name"@, w) + "  URI"@
            &&& text[1] == repeat('-', w) + "  ---"@
            &&& forall|i: int| 0 <= i < stations.len() ==> #[trigger] text[i + 2]
                == (if stations[i].1 == current_uri { "*"@ } else { " "@ }) + " "@ + pad_right(stations[i].0, w)
                    + "  "@ + stations[i].1
        },
{
    lemma_widest_name(stations, 4);
}

/// What `status` prints: the playback status, the current station's name
/// when there is one, and the volume in percent.
pub open spec fn status_text(status: Seq<char>, name: Seq<char>, vol_pct: nat) -> Seq<char> {
    if name.len() == 0 {
        status + " (vol "@ + decimal(vol_pct) + "%)"@
    } else {
        status + ": "@ + name + " (vol "@ + decimal(vol_pct) + "%)"@
    }
}

/// The line `status` prints (see `status_text`).
pub fn status_line(status: &String, name: &String, vol_pct: u32) -> (r: String)
    ensures
        r@ == status_text(status@, name@, vol_pct as nat),
{
    let mut r = labelled(status.as_str(), "");
    proof {
        reveal_strlit("");
        assert(status@ + ""@ == status@);
    }
    if !name.as_str().is_empty() {
        r.push_str(": ");
        r.push_str(name.as_str());
    }
    r.push_str(" (vol ");
    push_decimal(&mut r, vol_pct as u64);
    r.push_str("%)");
    r
}

/// The decimal rendering of a signed integer.
pub open spec fn signed_decimal(n: int) -> Seq<char> {
    if n < 0 { "-"@ + decimal((-n) as nat) } else { decimal(n as nat) }
}

/// The decimal rendering of a signed integer.
fn push_signed(out: &mut String, n: i64)
    ensures
        final(out)@ == old(out)@ + signed_decimal(n as int),
{
    if n < 0 {
        out.push_str("-");
        let m: u64 = if n == i64::MIN { 9223372036854775808u64 } else { (-n) as u64 };
        push_decimal(out, m);
        assert(old(out)@ + "-"@ + decimal(m as nat) == old(out)@ + ("-"@ + decimal(m as nat)));
    } else {
        push_decimal(out, n as u64);
    }
}

/// What `info` needs from the daemon; the two floating-point properties come
/// already written out (`rate` as `{}`, `volume` as `{:.2}`).
pub struct InfoReport {
    pub playback_status: String,
    pub loop_status: String,
    pub rate: String,
    pub shuffle: bool,
    pub volume: String,
    pub position: i64,
    pub title: String,
    pub artists: Vec<String>,
    pub album: String,
    pub art_url: String,
    pub station_name: String,
    pub station_uri: String,
    pub station_count: usize,
}

/// `true` or `false`.
pub open spec fn bool_text(b: bool) -> Seq<char> {
    if b { "true"@ } else { "false"@ }
}

/// What `info` prints.
pub open spec fn info_text(r: InfoReport) -> Seq<Seq<char>> {
    let artist = join(strings_view(r.artists@), ", "@);
    seq![
        "Identity:       radiod"@,
        "DesktopEntry:   radiod"@,
        "PlaybackStatus: "@ + r.playback_status@,
        "LoopStatus:     "@ + r.loop_status@,
        "Rate:           "@ + r.rate@,
        "Shuffle:        "@ + bool_text(r.shuffle),
        "Volume:         "@ + r.volume@,
        "Position:       "@ + signed_decimal(r.position as int),
    ]
        + line_if(r.title@.len() > 0, "Title:          "@ + r.title@)
        + line_if(artist.len() > 0, "Artist:         "@ + artist)
        + line_if(r.album@.len() > 0, "Album:          "@ + r.album@)
        + line_if(r.art_url@.len() > 0, "ArtUrl:         "@ + r.art_url@)
        + line_if(r.station_name@.len() > 0, "Station:        "@ + r.station_name@ + " ("@ + r.station_uri@ + ")"@)
        + seq!["Station count:  "@ + decimal(r.station_count as nat)]
}

/// The lines `info` prints (see `info_text`).
pub fn info_lines(r: &InfoReport) -> (lines: Vec<String>)
    ensures
        lines_view(lines@) == info_text(*r),
{
    let mut lines: Vec<String> = Vec::new();
    lines.push(labelled("Identity:       radiod", ""));
    lines.push(labelled("DesktopEntry:   radiod", ""));
    lines.push(labelled("PlaybackStatus: ", r.playback_status.as_str()));
    lines.push(labelled("LoopStatus:     ", r.loop_status.as_str()));
    lines.push(labelled("Rate:           ", r.rate.as_str()));
    lines.push(labelled("Shuffle:        ", if r.shuffle { "true" } else { "false" }));
    lines.push(labelled("Volume:         ", r.volume.as_str()));
    let mut pos = labelled("Position:       ", "");
    proof {
        reveal_strlit("");
        assert("Identity:       radiod"@ + ""@ == "Identity:       radiod"@);
        assert("DesktopEntry:   radiod"@ + ""@ == "DesktopEntry:   radiod"@);
        assert("Position:       "@ + ""@ == "Position:       "@);
    }
    push_signed(&mut pos, r.position);
    lines.push(pos);
    let ghost fixed = lines_view(lines@);
    assert(fixed == seq![
        "Identity:       radiod"@,
        "DesktopEntry:   radiod"@,
        "PlaybackStatus: "@ + r.playback_status@,
        "LoopStatus:     "@ + r.loop_status@,
        "Rate:           "@ + r.rate@,
        "Shuffle:        "@ + bool_text(r.shuffle),
        "Volume:         "@ + r.volume@,
        "Position:       "@ + signed_decimal(r.position as int),
    ]);
    let artist = join_strings(&r.artists, ", ");
    push_if_nonempty(&mut lines, "Title:          ", &r.title);
    push_if_nonempty(&mut lines, "Artist:         ", &artist);
    push_if_nonempty(&mut lines, "Album:          ", &r.album);
    push_if_nonempty(&mut lines, "ArtUrl:         ", &r.art_url);
    let ghost before_station = lines_view(lines@);
    if !r.station_name.as_str().is_empty() {
        let mut st = labelled("Station:        ", r.station_name.as_str());
        st.push_str(" (");
        st.push_str(r.station_uri.as_str());
        st.push_str(")");
        lines.push(st);
        assert(lines_view(lines@) == before_station + line_if(true, "Station:        "@ + r.station_name@ + " ("@ + r.station_uri@ + ")"@));
    } else {
        assert(lines_view(lines@) == before_station + line_if(false, "Station:        "@ + r.station_name@ + " ("@ + r.station_uri@ + ")"@));
    }
    let mut count = labelled("Station count:  ", "");
    proof {
        assert("Station count:  "@ + ""@ == "Station count:  "@);
    }
    push_decimal(&mut count, r.station_count as u64);
    let ghost before_count = lines_view(lines@);
    lines.push(count);
    assert(lines_view(lines@) == before_count + seq!["Station count:  "@ + decimal(r.station_count as nat)]);
    assert(lines_view(lines@) == info_text(*r));
    lines
}

} // verus!
