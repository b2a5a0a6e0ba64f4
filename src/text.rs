//! Text and path helpers over character sequences.
use vstd::prelude::*;

verus! {

/// A line as it stands between `start` and a terminating newline at `end`,
/// without the carriage return of a `\r\n` ending.
pub open spec fn line_before_newline(s: Seq<char>, start: int, end: int) -> Seq<char> {
    if start < end && s[end - 1] == '\r' {
        s.subrange(start, end - 1)
    } else {
        s.subrange(start, end)
    }
}

/// The lines of `s`, scanning from `i` with the current line begun at `start`.
/// Lines end at `\n` (or `\r\n`); text after the last newline is a final line
/// when it is not empty.
pub open spec fn lines_scan(s: Seq<char>, start: int, i: int) -> Seq<Seq<char>>
    decreases s.len() - i,
{
    if i >= s.len() {
        if start < s.len() {
            seq![s.subrange(start, s.len() as int)]
        } else {
            seq![]
        }
    } else if s[i] == '\n' {
        seq![line_before_newline(s, start, i)] + lines_scan(s, i + 1, i + 1)
    } else {
        lines_scan(s, start, i + 1)
    }
}

/// The lines of a text.
pub open spec fn lines_of(s: Seq<char>) -> Seq<Seq<char>> {
    lines_scan(s, 0, 0)
}

/// Whether a piece between two `/` is a path component: empty pieces and `.`
/// stand for nothing.
pub open spec fn is_component(p: Seq<char>) -> bool {
    p.len() > 0 && p != seq!['.']
}

/// The components of a path, scanning from `i` with the current piece begun at `start`.
pub open spec fn components_scan(s: Seq<char>, start: int, i: int) -> Seq<Seq<char>>
    decreases s.len() - i,
{
    if i >= s.len() {
        if is_component(s.subrange(start, s.len() as int)) {
            seq![s.subrange(start, s.len() as int)]
        } else {
            seq![]
        }
    } else if s[i] == '/' {
        let p = s.subrange(start, i);
        if is_component(p) {
            seq![p] + components_scan(s, i + 1, i + 1)
        } else {
            components_scan(s, i + 1, i + 1)
        }
    } else {
        components_scan(s, start, i + 1)
    }
}

/// The components of a path written with `/` separators: its non-empty pieces
/// other than `.`.
pub open spec fn components_of(s: Seq<char>) -> Seq<Seq<char>> {
    components_scan(s, 0, 0)
}

/// Whether a path is absolute, that is begins at the root.
pub open spec fn is_absolute(s: Seq<char>) -> bool {
    s.len() > 0 && s[0] == '/'
}

/// The characters of an optional string.
pub open spec fn opt_view(o: Option<String>) -> Option<Seq<char>> {
    match o {
        Some(s) => Some(s@),
        None => None,
    }
}

/// The characters of `s`, one by one.
pub fn chars_of(s: &str) -> (r: Vec<char>)
    ensures
        r@ == s@,
{
    let mut r: Vec<char> = Vec::new();
    for c in it: s.chars()
        invariant
            r@ == it.seq().take(it.index()),
    {
        r.push(c);
    }
    r
}

/// An owned copy of the characters of `s` from `from` up to `to`.
pub fn substring(s: &str, from: usize, to: usize) -> (r: String)
    requires
        from <= to <= s@.len(),
    ensures
        r@ == s@.subrange(from as int, to as int),
{
    String::from_str(s.substring_char(from, to))
}

/// Whether `p` is a prefix of `s`.
pub fn has_prefix(s: &str, p: &str) -> (r: bool)
    ensures
        r == p@.is_prefix_of(s@),
{
    let sc = chars_of(s);
    let pc = chars_of(p);
    if pc.len() > sc.len() {
        return false;
    }
    let mut i: usize = 0;
    while i < pc.len()
        invariant
            pc@ == p@,
            sc@ == s@,
            pc.len() <= sc.len(),
            i <= pc.len(),
            forall|k: int| 0 <= k < i ==> sc@[k] == pc@[k],
        decreases pc.len() - i,
    {
        if sc[i] != pc[i] {
            assert(s@.subrange(0, p@.len() as int)[i as int] != p@[i as int]);
            return false;
        }
        i = i + 1;
    }
    assert(p@ =~= s@.subrange(0, p@.len() as int));
    true
}

/// Whether `p` is a suffix of `s`.
pub fn has_suffix(s: &str, p: &str) -> (r: bool)
    ensures
        r == p@.is_suffix_of(s@),
{
    let sc = chars_of(s);
    let pc = chars_of(p);
    if pc.len() > sc.len() {
        return false;
    }
    let off: usize = sc.len() - pc.len();
    let mut i: usize = 0;
    while i < pc.len()
        invariant
            pc@ == p@,
            sc@ == s@,
            pc.len() <= sc.len(),
            off == sc.len() - pc.len(),
            i <= pc.len(),
            forall|k: int| 0 <= k < i ==> sc@[off + k] == pc@[k],
        decreases pc.len() - i,
    {
        if sc[off + i] != pc[i] {
            assert(s@.subrange(off as int, s@.len() as int)[i as int] != p@[i as int]);
            return false;
        }
        i = i + 1;
    }
    assert(p@ =~= s@.subrange(off as int, s@.len() as int));
    true
}

/// Whether two strings hold the same characters.
pub fn same_text(a: &str, b: &str) -> (r: bool)
    ensures
        r == (a@ == b@),
{
    let same_len = chars_of(a).len() == chars_of(b).len();
    if same_len && has_prefix(a, b) {
        assert(b@ =~= a@);
        true
    } else {
        false
    }
}

/// The lines of `s`, as `lines_of` gives them.
pub fn split_lines(s: &str) -> (r: Vec<String>)
    ensures
        r@.map_values(|l: String| l@) == lines_of(s@),
{
    let cs = chars_of(s);
    let n = cs.len();
    let mut r: Vec<String> = Vec::new();
    let mut start: usize = 0;
    let mut i: usize = 0;
    while i < n
        invariant
            cs@ == s@,
            n == s@.len(),
            start <= i <= n,
            lines_of(s@) == r@.map_values(|l: String| l@) + lines_scan(s@, start as int, i as int),
        decreases n - i,
    {
        if cs[i] == '\n' {
            let line = if start < i && cs[i - 1] == '\r' {
                substring(s, start, i - 1)
            } else {
                substring(s, start, i)
            };
            assert(line@ == line_before_newline(s@, start as int, i as int));
            let ghost before = r@;
            r.push(line);
            assert(r@.map_values(|l: String| l@) =~= before.map_values(|l: String| l@).push(line@));
            assert(lines_of(s@) =~= r@.map_values(|l: String| l@) + lines_scan(s@, (i + 1) as int, (i + 1) as int));
            start = i + 1;
        }
        i = i + 1;
    }
    if start < n {
        let line = substring(s, start, n);
        let ghost before = r@;
        r.push(line);
        assert(r@.map_values(|l: String| l@) =~= before.map_values(|l: String| l@).push(line@));
    }
    assert(lines_of(s@) =~= r@.map_values(|l: String| l@));
    r
}

/// Whether `cs[start..end]` is a path component.
fn piece_is_component(cs: &Vec<char>, start: usize, end: usize) -> (r: bool)
    requires
        start <= end <= cs@.len(),
    ensures
        r == is_component(cs@.subrange(start as int, end as int)),
{
    let ghost p = cs@.subrange(start as int, end as int);
    if end == start {
        false
    } else if end == start + 1 && cs[start] == '.' {
        assert(p =~= seq!['.']);
        false
    } else {
        assert(p.len() != seq!['.'].len() || p[0] != seq!['.'][0]);
        true
    }
}

/// The components of the path `s`, as `components_of` gives them.
pub fn split_components(s: &str) -> (r: Vec<String>)
    ensures
        r@.map_values(|c: String| c@) == components_of(s@),
{
    let cs = chars_of(s);
    let n = cs.len();
    let mut r: Vec<String> = Vec::new();
    let mut start: usize = 0;
    let mut i: usize = 0;
    while i < n
        invariant
            cs@ == s@,
            n == s@.len(),
            start <= i <= n,
            components_of(s@) == r@.map_values(|c: String| c@) + components_scan(s@, start as int, i as int),
        decreases n - i,
    {
        if cs[i] == '/' {
            let ghost before = r@;
            if piece_is_component(&cs, start, i) {
                let piece = substring(s, start, i);
                r.push(piece);
                assert(r@.map_values(|c: String| c@) =~= before.map_values(|c: String| c@).push(piece@));
            }
            assert(components_of(s@) =~= r@.map_values(|c: String| c@) + components_scan(s@, (i + 1) as int, (i + 1) as int));
            start = i + 1;
        }
        i = i + 1;
    }
    let ghost before = r@;
    if piece_is_component(&cs, start, n) {
        let piece = substring(s, start, n);
        r.push(piece);
        assert(r@.map_values(|c: String| c@) =~= before.map_values(|c: String| c@).push(piece@));
    }
    assert(components_of(s@) =~= r@.map_values(|c: String| c@));
    r
}

/// The rest of `s` after the prefix `p`, when `s` begins with `p`.
pub fn strip_prefix(s: &str, p: &str) -> (r: Option<String>)
    ensures
        r is Some <==> p@.is_prefix_of(s@),
        r matches Some(rest) ==> rest@ == s@.skip(p@.len() as int),
{
    if has_prefix(s, p) {
        let from = chars_of(p).len();
        let to = chars_of(s).len();
        Some(substring(s, from, to))
    } else {
        None
    }
}

/// Whether `c` is white space in Unicode's sense (the property `White_Space`).
pub open spec fn is_white_space(c: char) -> bool {
    ('\u{9}' <= c && c <= '\u{d}') || c == ' ' || c == '\u{85}' || c == '\u{a0}' || c == '\u{1680}'
        || ('\u{2000}' <= c && c <= '\u{200a}') || c == '\u{2028}' || c == '\u{2029}' || c
        == '\u{202f}' || c == '\u{205f}' || c == '\u{3000}'
}

/// Whether `s` holds a character that is not white space.
pub open spec fn has_visible_text(s: Seq<char>) -> bool {
    exists|i: int| 0 <= i < s.len() && !is_white_space(#[trigger] s[i])
}

/// Whether `c` is white space.
fn white_space(c: char) -> (r: bool)
    ensures
        r == is_white_space(c),
{
    ('\u{9}' <= c && c <= '\u{d}') || c == ' ' || c == '\u{85}' || c == '\u{a0}' || c == '\u{1680}'
        || ('\u{2000}' <= c && c <= '\u{200a}') || c == '\u{2028}' || c == '\u{2029}' || c
        == '\u{202f}' || c == '\u{205f}' || c == '\u{3000}'
}

/// Whether `s` is more than white space.
pub fn visible_text(s: &str) -> (r: bool)
    ensures
        r == has_visible_text(s@),
{
    let cs = chars_of(s);
    let mut i: usize = 0;
    while i < cs.len()
        invariant
            cs@ == s@,
            i <= cs.len(),
            forall|k: int| 0 <= k < i ==> is_white_space(#[trigger] s@[k]),
        decreases cs.len() - i,
    {
        if !white_space(cs[i]) {
            return true;
        }
        i = i + 1;
    }
    false
}

/// A copy of a list of strings.
pub fn copy_strings(v: &Vec<String>) -> (r: Vec<String>)
    ensures
        r@ == v@,
{
    let mut r: Vec<String> = Vec::new();
    let mut i: usize = 0;
    while i < v.len()
        invariant
            i <= v.len(),
            r@ == v@.take(i as int),
        decreases v.len() - i,
    {
        r.push(v[i].clone());
        assert(r@ =~= v@.take(i + 1));
        i = i + 1;
    }
    assert(v@.take(v.len() as int) =~= v@);
    r
}

} // verus!
