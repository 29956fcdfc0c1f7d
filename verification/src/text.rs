//! Character-sequence helpers shared by the parsers and formatters.
//!
//! Strings are handled through their view, a `Seq<char>`; executable code
//! works on `Vec<char>` copies and builds `String`s one piece at a time.

use vstd::prelude::*;

verus! {

broadcast use vstd::string::group_string_axioms;

/// `String::push` (std): appends one `char` to the end of the string.
pub assume_specification[ String::push ](s: &mut String, ch: char)
    ensures
        final(s)@ == old(s)@.push(ch),
;

/// `String::push_str` (std): appends the characters of `string` to the end.
pub assume_specification[ String::push_str ](s: &mut String, string: &str)
    ensures
        final(s)@ == old(s)@ + string@,
;

// ---------------------------------------------------------------------------
// specifications
// ---------------------------------------------------------------------------

/// The Unicode `White_Space` property, which `char::is_whitespace` tests.
pub open spec fn is_white_space(c: char) -> bool {
    let u = c as u32;
    ||| 0x09 <= u <= 0x0d
    ||| u == 0x20
    ||| u == 0x85
    ||| u == 0xa0
    ||| u == 0x1680
    ||| 0x2000 <= u <= 0x200a
    ||| u == 0x2028
    ||| u == 0x2029
    ||| u == 0x202f
    ||| u == 0x205f
    ||| u == 0x3000
}

/// `s` without its leading white space.
pub open spec fn trim_start(s: Seq<char>) -> Seq<char>
    decreases s.len(),
{
    if s.len() > 0 && is_white_space(s[0]) {
        trim_start(s.drop_first())
    } else {
        s
    }
}

/// `s` without its trailing white space.
pub open spec fn trim_end(s: Seq<char>) -> Seq<char>
    decreases s.len(),
{
    if s.len() > 0 && is_white_space(s.last()) {
        trim_end(s.drop_last())
    } else {
        s
    }
}

/// `s` without leading and trailing white space (`str::trim`).
pub open spec fn trim(s: Seq<char>) -> Seq<char> {
    trim_end(trim_start(s))
}

/// `p` is a prefix of `s`.
pub open spec fn starts_with(s: Seq<char>, p: Seq<char>) -> bool {
    p.len() <= s.len() && s.take(p.len() as int) == p
}

/// `s` without its leading prefix `p` (`str::strip_prefix`).
pub open spec fn strip_prefix(s: Seq<char>, p: Seq<char>) -> Option<Seq<char>> {
    if starts_with(s, p) {
        Some(s.skip(p.len() as int))
    } else {
        None
    }
}

/// `s` with every leading `"//"` removed (`str::trim_start_matches("//")`).
pub open spec fn trim_leading_double_slashes(s: Seq<char>) -> Seq<char>
    decreases s.len(),
{
    if s.len() >= 2 && s[0] == '/' && s[1] == '/' {
        trim_leading_double_slashes(s.skip(2))
    } else {
        s
    }
}

/// `i` is the position of the first `c` in `s`.
pub open spec fn is_first_index(s: Seq<char>, c: char, i: int) -> bool {
    &&& 0 <= i < s.len()
    &&& s[i] == c
    &&& forall|j: int| 0 <= j < i ==> s[j] != c
}

/// The position of the first `c` in `s`, if `s` holds one.
pub open spec fn first_index_of(s: Seq<char>, c: char) -> Option<int> {
    if exists|i: int| is_first_index(s, c, i) {
        Some(choose|i: int| is_first_index(s, c, i))
    } else {
        None
    }
}

/// `s` split around the first `c` (`str::split_once(c)`).
pub open spec fn split_once(s: Seq<char>, c: char) -> Option<(Seq<char>, Seq<char>)> {
    match first_index_of(s, c) {
        Some(i) => Some((s.take(i), s.skip(i + 1))),
        None => None,
    }
}

/// `s` up to its first `c`, or all of `s` (`s.split(c).next().unwrap()`).
pub open spec fn before_first(s: Seq<char>, c: char) -> Seq<char> {
    match first_index_of(s, c) {
        Some(i) => s.take(i),
        None => s,
    }
}

/// `p` occurs in `s` as a contiguous run (`str::contains`).
pub open spec fn contains(s: Seq<char>, p: Seq<char>) -> bool {
    exists|i: int| 0 <= i <= s.len() - p.len() && #[trigger] s.subrange(i, i + p.len()) == p
}

/// `i` is the position of the first occurrence of `p` in `s`.
pub open spec fn is_first_occurrence(s: Seq<char>, p: Seq<char>, i: int) -> bool {
    &&& 0 <= i <= s.len() - p.len()
    &&& s.subrange(i, i + p.len()) == p
    &&& forall|j: int| 0 <= j < i ==> #[trigger] s.subrange(j, j + p.len()) != p
}

/// The position of the first occurrence of `p` in `s`, if any.
pub open spec fn first_occurrence(s: Seq<char>, p: Seq<char>) -> Option<int> {
    if exists|i: int| is_first_occurrence(s, p, i) {
        Some(choose|i: int| is_first_occurrence(s, p, i))
    } else {
        None
    }
}

/// `s` split around the first occurrence of `p` (`str::split_once(p)`).
pub open spec fn split_once_str(s: Seq<char>, p: Seq<char>) -> Option<(Seq<char>, Seq<char>)> {
    match first_occurrence(s, p) {
        Some(i) => Some((s.take(i), s.skip(i + p.len()))),
        None => None,
    }
}

/// The ASCII digit for `d` (`d < 10`).
pub open spec fn digit_char(d: nat) -> char {
    if d == 0 { '0' }
    else if d == 1 { '1' }
    else if d == 2 { '2' }
    else if d == 3 { '3' }
    else if d == 4 { '4' }
    else if d == 5 { '5' }
    else if d == 6 { '6' }
    else if d == 7 { '7' }
    else if d == 8 { '8' }
    else { '9' }
}

/// The decimal rendering of `n`, without sign or leading zeros
/// (`n.to_string()` for an unsigned integer).
pub open spec fn decimal(n: nat) -> Seq<char>
    decreases n,
{
    if n < 10 {
        seq![digit_char(n)]
    } else {
        decimal(n / 10).push(digit_char(n % 10))
    }
}

/// `n` copies of `c`.
pub open spec fn repeat(c: char, n: nat) -> Seq<char> {
    Seq::new(n, |i: int| c)
}

/// `s` padded on the right with spaces to at least `width` characters
/// (the `{:<width$}` format).
pub open spec fn pad_right(s: Seq<char>, width: nat) -> Seq<char> {
    if s.len() >= width {
        s
    } else {
        s + repeat(' ', (width - s.len()) as nat)
    }
}

// ---------------------------------------------------------------------------
// lemmas
// ---------------------------------------------------------------------------

/// `trim_start(s)` drops exactly the leading run of white space.
pub proof fn lemma_trim_start_shape(s: Seq<char>) -> (k: int)
    ensures
        0 <= k <= s.len(),
        trim_start(s) == s.skip(k),
        forall|j: int| 0 <= j < k ==> is_white_space(#[trigger] s[j]),
        k < s.len() ==> !is_white_space(s[k]),
    decreases s.len(),
{
    if s.len() > 0 && is_white_space(s[0]) {
        let k1 = lemma_trim_start_shape(s.drop_first());
        assert(s.drop_first().skip(k1) == s.skip(k1 + 1));
        assert forall|j: int| 0 <= j < k1 + 1 implies is_white_space(#[trigger] s[j]) by {
            if j > 0 {
                assert(s[j] == s.drop_first()[j - 1]);
            }
        }
        k1 + 1
    } else {
        assert(s.skip(0) == s);
        0
    }
}

/// `trim_end(s)` drops exactly the trailing run of white space.
pub proof fn lemma_trim_end_shape(s: Seq<char>) -> (k: int)
    ensures
        0 <= k <= s.len(),
        trim_end(s) == s.take(k),
        forall|j: int| k <= j < s.len() ==> is_white_space(#[trigger] s[j]),
        k > 0 ==> !is_white_space(s[k - 1]),
    decreases s.len(),
{
    if s.len() > 0 && is_white_space(s.last()) {
        let k1 = lemma_trim_end_shape(s.drop_last());
        assert(s.drop_last().take(k1) == s.take(k1));
        assert forall|j: int| k1 <= j < s.len() implies is_white_space(#[trigger] s[j]) by {
            if j < s.len() - 1 {
                assert(s[j] == s.drop_last()[j]);
            }
        }
        k1
    } else {
        assert(s.take(s.len() as int) == s);
        s.len() as int
    }
}

/// `trim(s)` is a contiguous part of `s` that neither starts nor ends with
/// white space.
pub proof fn lemma_trim_shape(s: Seq<char>) -> (r: (int, int))
    ensures
        0 <= r.0 <= r.1 <= s.len(),
        trim(s) == s.subrange(r.0, r.1),
        trim(s).len() > 0 ==> !is_white_space(trim(s)[0]) && !is_white_space(trim(s).last()),
{
    let k1 = lemma_trim_start_shape(s);
    let t = s.skip(k1);
    let k2 = lemma_trim_end_shape(t);
    assert(t.take(k2) == s.subrange(k1, k1 + k2));
    if k2 > 0 {
        assert(trim(s)[0] == s[k1]);
    }
    (k1, k1 + k2)
}

/// A sequence without white space at either end is its own trim.
pub proof fn lemma_trim_fixed(t: Seq<char>)
    requires
        t.len() == 0 || (!is_white_space(t[0]) && !is_white_space(t.last())),
    ensures
        trim(t) == t,
{
}

/// Trimming twice is trimming once.
pub proof fn lemma_trim_idempotent(s: Seq<char>)
    ensures
        trim(trim(s)) == trim(s),
{
    lemma_trim_shape(s);
    lemma_trim_fixed(trim(s));
}

/// Every character of `trim(s)` is a character of `s`.
pub proof fn lemma_trim_within(s: Seq<char>, c: char)
    ensures
        trim(s).contains(c) ==> s.contains(c),
{
    let r = lemma_trim_shape(s);
    if trim(s).contains(c) {
        let i = choose|i: int| 0 <= i < trim(s).len() && trim(s)[i] == c;
        assert(s[r.0 + i] == c);
    }
}

/// After the leading `"//"` pairs are removed, none is left.
pub proof fn lemma_trim_leading_double_slashes_idempotent(s: Seq<char>)
    ensures
        trim_leading_double_slashes(trim_leading_double_slashes(s)) == trim_leading_double_slashes(s),
    decreases s.len(),
{
    if s.len() >= 2 && s[0] == '/' && s[1] == '/' {
        lemma_trim_leading_double_slashes_idempotent(s.skip(2));
    }
}

/// The first `c` is at `i`, so `first_index_of` finds `i`.
pub proof fn lemma_first_index_unique(s: Seq<char>, c: char, i: int)
    requires
        is_first_index(s, c, i),
    ensures
        first_index_of(s, c) == Some(i),
{
    let w = choose|w: int| is_first_index(s, c, w);
    assert(w == i) by {
        if w < i {
            assert(s[w] != c);
        } else if i < w {
            assert(s[i] != c);
        }
    }
}

/// The part before the first `c` holds no `c`.
pub proof fn lemma_split_once_head(s: Seq<char>, c: char)
    ensures
        split_once(s, c) matches Some((h, t)) ==> !h.contains(c),
{
    if let Some(i) = first_index_of(s, c) {
        let w = choose|w: int| is_first_index(s, c, w);
        assert(is_first_index(s, c, w));
        if s.take(i).contains(c) {
            let j = choose|j: int| 0 <= j < s.take(i).len() && s.take(i)[j] == c;
            assert(s[j] == c);
        }
    }
}

// ---------------------------------------------------------------------------
// executable helpers
// ---------------------------------------------------------------------------

/// The characters of `s`, in order.
pub fn chars_of(s: &str) -> (v: Vec<char>)
    ensures
        v@ == s@,
{
    let mut v: Vec<char> = Vec::new();
    for c in it: s.chars()
        invariant
            it.seq() == s@,
            v@ == it.seq().take(it.index() as int),
    {
        v.push(c);
    }
    v
}

/// A `String` holding the characters `v[from..to]`.
pub fn string_of_range(v: &Vec<char>, from: usize, to: usize) -> (s: String)
    requires
        from <= to <= v.len(),
    ensures
        s@ == v@.subrange(from as int, to as int),
{
    let mut s = String::new();
    let mut i = from;
    while i < to
        invariant
            from <= i <= to <= v.len(),
            s@ == v@.subrange(from as int, i as int),
        decreases to - i,
    {
        s.push(v[i]);
        assert(v@.subrange(from as int, i + 1) == v@.subrange(from as int, i as int).push(v@[i as int]));
        i += 1;
    }
    s
}

/// A `String` holding the characters of `v`.
pub fn string_of(v: &Vec<char>) -> (s: String)
    ensures
        s@ == v@,
{
    let s = string_of_range(v, 0, v.len());
    assert(v@.subrange(0, v@.len() as int) == v@);
    s
}

/// A `String` holding the characters of `a`.
pub fn string_from(a: &str) -> (s: String)
    ensures
        s@ == a@,
{
    let mut s = String::new();
    s.push_str(a);
    assert(Seq::<char>::empty() + a@ == a@);
    s
}

/// A copy of `s`.
pub fn copy_string(s: &String) -> (r: String)
    ensures
        r@ == s@,
{
    let mut r = String::new();
    r.push_str(s.as_str());
    assert(Seq::<char>::empty() + s@ == s@);
    r
}

/// `char::is_whitespace`: the Unicode `White_Space` property.
pub fn char_is_white_space(c: char) -> (b: bool)
    ensures
        b == is_white_space(c),
{
    let u = c as u32;
    (0x09 <= u && u <= 0x0d) || u == 0x20 || u == 0x85 || u == 0xa0 || u == 0x1680
        || (0x2000 <= u && u <= 0x200a) || u == 0x2028 || u == 0x2029 || u == 0x202f
        || u == 0x205f || u == 0x3000
}

/// Bounds `[start, end)` of `v[from..to]` with white space trimmed off both ends.
pub fn trim_bounds(v: &Vec<char>, from: usize, to: usize) -> (r: (usize, usize))
    requires
        from <= to <= v.len(),
    ensures
        from <= r.0 <= r.1 <= to,
        v@.subrange(r.0 as int, r.1 as int) == trim(v@.subrange(from as int, to as int)),
{
    let ghost s = v@.subrange(from as int, to as int);
    let mut i = from;
    while i < to && char_is_white_space(v[i])
        invariant
            from <= i <= to <= v.len(),
            s == v@.subrange(from as int, to as int),
            trim_start(s) == trim_start(v@.subrange(i as int, to as int)),
        decreases to - i,
    {
        assert(v@.subrange(i as int, to as int).drop_first() == v@.subrange(i + 1, to as int));
        i += 1;
    }
    assert(trim_start(s) == v@.subrange(i as int, to as int));
    let mut j = to;
    while j > i && char_is_white_space(v[j - 1])
        invariant
            from <= i <= j <= to <= v.len(),
            trim(s) == trim_end(v@.subrange(i as int, j as int)),
        decreases j - i,
    {
        assert(v@.subrange(i as int, j as int).drop_last() == v@.subrange(i as int, j - 1));
        j -= 1;
    }
    (i, j)
}

/// Position of the first `c` in `v[from..]`, counted from `from`.
pub fn find_char(v: &Vec<char>, from: usize, c: char) -> (r: Option<usize>)
    requires
        from <= v.len(),
    ensures
        match r {
            Some(i) => first_index_of(v@.skip(from as int), c) == Some(i as int),
            None => first_index_of(v@.skip(from as int), c) is None,
        },
{
    let ghost s = v@.skip(from as int);
    let mut i = from;
    while i < v.len()
        invariant
            from <= i <= v.len(),
            s == v@.skip(from as int),
            forall|j: int| 0 <= j < i - from ==> s[j] != c,
        decreases v.len() - i,
    {
        if v[i] == c {
            proof {
                let k = (i - from) as int;
                assert(is_first_index(s, c, k));
                let w = choose|w: int| is_first_index(s, c, w);
                assert(w == k) by {
                    if w < k {
                        assert(s[w] != c);
                    } else if k < w {
                        assert(s[k] != c);
                    }
                }
            }
            return Some(i - from);
        }
        i += 1;
    }
    assert(!exists|w: int| is_first_index(s, c, w));
    None
}

/// `p` is a prefix of `v[from..]`.
pub fn has_prefix_at(v: &Vec<char>, from: usize, p: &Vec<char>) -> (b: bool)
    requires
        from <= v.len(),
    ensures
        b == starts_with(v@.skip(from as int), p@),
{
    let ghost s = v@.skip(from as int);
    if p.len() > v.len() - from {
        return false;
    }
    let mut k: usize = 0;
    while k < p.len()
        invariant
            from + p.len() <= v.len(),
            s == v@.skip(from as int),
            k <= p.len(),
            forall|j: int| 0 <= j < k ==> s[j] == p@[j],
        decreases p.len() - k,
    {
        if v[from + k] != p[k] {
            assert(s.take(p.len() as int)[k as int] != p@[k as int]);
            return false;
        }
        k += 1;
    }
    assert(s.take(p.len() as int) == p@);
    true
}

/// The first occurrence of `p` at `i` is what `first_occurrence` finds.
pub proof fn lemma_first_occurrence_unique(s: Seq<char>, p: Seq<char>, i: int)
    requires
        is_first_occurrence(s, p, i),
    ensures
        first_occurrence(s, p) == Some(i),
{
    let w = choose|w: int| is_first_occurrence(s, p, w);
    assert(w == i) by {
        if w < i {
            assert(s.subrange(w, w + p.len()) != p);
        } else if i < w {
            assert(s.subrange(i, i + p.len()) != p);
        }
    }
}

/// Position of the first occurrence of `p` in `v`.
pub fn find_run(v: &Vec<char>, p: &Vec<char>) -> (r: Option<usize>)
    ensures
        match r {
            Some(i) => i + p.len() <= v.len() && is_first_occurrence(v@, p@, i as int)
                && first_occurrence(v@, p@) == Some(i as int),
            None => first_occurrence(v@, p@) is None && !contains(v@, p@),
        },
{
    if p.len() > v.len() {
        assert(!exists|i: int| is_first_occurrence(v@, p@, i));
        return None;
    }
    let last = v.len() - p.len();
    let mut i: usize = 0;
    loop
        invariant
            last == v.len() - p.len(),
            i <= last,
            forall|j: int| 0 <= j < i ==> #[trigger] v@.subrange(j, j + p@.len()) != p@,
        ensures
            forall|j: int| 0 <= j <= last ==> #[trigger] v@.subrange(j, j + p@.len()) != p@,
        decreases last - i,
    {
        if has_prefix_at(v, i, p) {
            assert(v@.skip(i as int).take(p.len() as int) == v@.subrange(i as int, i + p.len()));
            assert(is_first_occurrence(v@, p@, i as int));
            proof {
                lemma_first_occurrence_unique(v@, p@, i as int);
            }
            return Some(i);
        }
        assert(v@.skip(i as int).take(p.len() as int) == v@.subrange(i as int, i + p.len()));
        if i == last {
            break;
        }
        i += 1;
    }
    assert(!exists|w: int| is_first_occurrence(v@, p@, w));
    assert(!contains(v@, p@)) by {
        if contains(v@, p@) {
            let w = choose|w: int| 0 <= w <= v@.len() - p@.len() && #[trigger] v@.subrange(w, w + p@.len()) == p@;
            assert(v@.subrange(w, w + p@.len()) != p@);
        }
    }
    None
}

/// Whether the characters of `p` occur as a contiguous run in `v`.
pub fn contains_run(v: &Vec<char>, p: &Vec<char>) -> (b: bool)
    ensures
        b == contains(v@, p@),
{
    if p.len() > v.len() {
        assert(!contains(v@, p@));
        return false;
    }
    let last = v.len() - p.len();
    let mut i: usize = 0;
    loop
        invariant
            last == v.len() - p.len(),
            i <= last,
            forall|j: int| 0 <= j < i ==> #[trigger] v@.subrange(j, j + p@.len()) != p@,
        ensures
            forall|j: int| 0 <= j <= last ==> #[trigger] v@.subrange(j, j + p@.len()) != p@,
        decreases last - i,
    {
        if has_prefix_at(v, i, p) {
            assert(v@.skip(i as int).take(p.len() as int) == v@.subrange(i as int, i + p.len()));
            return true;
        }
        assert(v@.skip(i as int).take(p.len() as int) == v@.subrange(i as int, i + p.len()));
        if i == last {
            break;
        }
        i += 1;
    }
    assert(!contains(v@, p@)) by {
        if contains(v@, p@) {
            let w = choose|w: int| 0 <= w <= v@.len() - p@.len() && #[trigger] v@.subrange(w, w + p@.len()) == p@;
            assert(v@.subrange(w, w + p@.len()) != p@);
        }
    }
    false
}

/// Appends the decimal rendering of `n` to `out`.
pub fn push_decimal(out: &mut String, n: u64)
    ensures
        final(out)@ == old(out)@ + decimal(n as nat),
    decreases n,
{
    if n >= 10 {
        push_decimal(out, n / 10);
    }
    let d = n % 10;
    let c = if d == 0 { '0' }
        else if d == 1 { '1' }
        else if d == 2 { '2' }
        else if d == 3 { '3' }
        else if d == 4 { '4' }
        else if d == 5 { '5' }
        else if d == 6 { '6' }
        else if d == 7 { '7' }
        else if d == 8 { '8' }
        else { '9' };
    out.push(c);
    assert(c == digit_char((n % 10) as nat));
    if n >= 10 {
        assert(decimal(n as nat) == decimal((n / 10) as nat).push(digit_char((n % 10) as nat)));
    }
}

/// Appends `s` padded with spaces to `width` characters.
pub fn push_padded(out: &mut String, s: &String, width: usize)
    ensures
        final(out)@ == old(out)@ + pad_right(s@, width as nat),
{
    let n = chars_of(s.as_str()).len();
    out.push_str(s.as_str());
    let mut k = n;
    let ghost base = old(out)@;
    while k < width
        invariant
            n == s@.len(),
            k <= width || k == n,
            k >= n,
            out@ == base + s@ + repeat(' ', (k - n) as nat),
        decreases width - k,
    {
        out.push(' ');
        assert(repeat(' ', (k + 1 - n) as nat) == repeat(' ', (k - n) as nat).push(' '));
        assert(base + s@ + repeat(' ', (k + 1 - n) as nat) == (base + s@ + repeat(' ', (k - n) as nat)).push(' '));
        k += 1;
    }
    if n >= width {
        assert(repeat(' ', 0) == Seq::<char>::empty());
        assert(base + s@ + Seq::<char>::empty() == base + s@);
    } else {
        assert(k == width);
        assert(base + s@ + repeat(' ', (width - n) as nat) == base + (s@ + repeat(' ', (width - n) as nat)));
    }
}

} // verus!
