//! Tolerant text scanning of discovery responses and description documents.
//!
//! Both scans are deliberately naive: a header is any line that starts with
//! its name, a tag is the text between the first literal opening delimiter
//! and the next literal closing one. Malformed input yields `None`.
use vstd::prelude::*;
use crate::text::{
    chars_of, find, find_from, lower_code, occurs_at, starts_with_ignore_case, string_of, trim,
    trim_bounds,
};

verus! {

pub open spec fn view_opt(o: Option<String>) -> Option<Seq<char>> {
    match o {
        Some(s) => Some(s@),
        None => None,
    }
}

/// The value of header `name` on one line: the line, trimmed, must start with
/// `name` (ignoring ASCII case) and hold a colon; the value is what follows
/// the first colon, trimmed.
pub open spec fn header_value(line: Seq<char>, name: Seq<char>) -> Option<Seq<char>> {
    let l = trim(line);
    if starts_with_ignore_case(l, name) {
        match find_from(l, seq![':'], 0) {
            Some(c) => Some(trim(l.subrange(c + 1 as int, l.len() as int))),
            None => None,
        }
    } else {
        None
    }
}

/// Scans `rest` line by line, `line` being the part of the current line
/// already read; the first line that holds the header gives its value.
pub open spec fn header_scan(rest: Seq<char>, line: Seq<char>, name: Seq<char>) -> Option<
    Seq<char>,
>
    decreases rest.len(),
{
    if rest.len() == 0 {
        header_value(line, name)
    } else if rest[0] == '\n' {
        match header_value(line, name) {
            Some(v) => Some(v),
            None => header_scan(rest.drop_first(), seq![], name),
        }
    } else {
        header_scan(rest.drop_first(), line.push(rest[0]), name)
    }
}

/// The value of the first line of `text` that holds header `name`.
pub open spec fn header_of(text: Seq<char>, name: Seq<char>) -> Option<Seq<char>> {
    header_scan(text, seq![], name)
}

pub open spec fn open_tag(tag: Seq<char>) -> Seq<char> {
    seq!['<'] + tag + seq!['>']
}

pub open spec fn close_tag(tag: Seq<char>) -> Seq<char> {
    seq!['<', '/'] + tag + seq!['>']
}

/// The trimmed text between the first `<tag>` and the first `</tag>` after it.
pub open spec fn tag_text(doc: Seq<char>, tag: Seq<char>) -> Option<Seq<char>> {
    match find_from(doc, open_tag(tag), 0) {
        None => None,
        Some(o) => {
            let start = o + open_tag(tag).len();
            match find_from(doc, close_tag(tag), start) {
                None => None,
                Some(e) => Some(trim(doc.subrange(start as int, e as int))),
            }
        },
    }
}

pub open spec fn scheme_separator() -> Seq<char> {
    seq![':', '/', '/']
}

/// What follows the first `://` of a URL.
pub open spec fn after_scheme(url: Seq<char>) -> Option<Seq<char>> {
    match find_from(url, scheme_separator(), 0) {
        Some(k) => Some(url.subrange(k + 3 as int, url.len() as int)),
        None => None,
    }
}

/// The authority of a URL: what follows `://` up to the first `/`.
pub open spec fn host_port_of(url: Seq<char>) -> Option<Seq<char>> {
    match after_scheme(url) {
        Some(rest) => Some(
            match find_from(rest, seq!['/'], 0) {
                Some(k) => rest.subrange(0, k as int),
                None => rest,
            },
        ),
        None => None,
    }
}

/// The path of a URL: from the first `/` after `://` on, or `/` alone.
pub open spec fn path_of(url: Seq<char>) -> Option<Seq<char>> {
    match after_scheme(url) {
        Some(rest) => Some(
            match find_from(rest, seq!['/'], 0) {
                Some(k) => rest.subrange(k as int, rest.len() as int),
                None => seq!['/'],
            },
        ),
        None => None,
    }
}

fn folded_code(c: char) -> (r: u32)
    ensures
        r == lower_code(c),
{
    let u = c as u32;
    if 0x41 <= u && u <= 0x5A {
        u + 0x20
    } else {
        u
    }
}

fn starts_with_folded(s: &[char], p: &[char]) -> (r: bool)
    ensures
        r == starts_with_ignore_case(s@, p@),
{
    if p.len() > s.len() {
        return false;
    }
    let mut i: usize = 0;
    while i < p.len()
        invariant
            p@.len() <= s@.len(),
            i <= p@.len(),
            forall|j: int| 0 <= j < i ==> lower_code(#[trigger] s@[j]) == lower_code(p@[j]),
        decreases p@.len() - i,
    {
        if folded_code(s[i]) != folded_code(p[i]) {
            return false;
        }
        i = i + 1;
    }
    true
}

/// The header value that the line `t[lo..hi]` holds, if any.
fn line_header(t: &[char], lo: usize, hi: usize, name: &[char]) -> (r: Option<String>)
    requires
        lo <= hi <= t@.len(),
    ensures
        view_opt(r) == header_value(t@.subrange(lo as int, hi as int), name@),
{
    let (a, b) = trim_bounds(t, lo, hi);
    let l = &t[a..b];
    if !starts_with_folded(l, name) {
        return None;
    }
    let colon = vec![':'];
    proof {
        assert(colon@ == seq![':']);
    }
    match find(l, colon.as_slice(), 0) {
        Some(c) => {
            proof {
                crate::text::lemma_find_from(l@, colon@, 0);
            }
            let (x, y) = trim_bounds(l, c + 1, l.len());
            Some(string_of(&l[x..y]))
        },
        None => None,
    }
}

/// The value of the first line of `resp` whose trimmed text starts with
/// `header` (ASCII case ignored) and holds a colon: what follows that first
/// colon, trimmed.
pub fn extract_header(resp: &str, header: &str) -> (r: Option<String>)
    ensures
        view_opt(r) == header_of(resp@, header@),
{
    let t = chars_of(resp);
    let h = chars_of(header);
    let mut ls: usize = 0;
    let mut i: usize = 0;
    assert(t@.skip(0) =~= t@);
    assert(t@.subrange(0, 0) =~= seq![]);
    while i < t.len()
        invariant
            ls <= i <= t@.len(),
            header_of(resp@, header@) == header_scan(
                t@.skip(i as int),
                t@.subrange(ls as int, i as int),
                h@,
            ),
            t@ == resp@,
            h@ == header@,
        decreases t@.len() - i,
    {
        assert(t@.skip(i as int).drop_first() =~= t@.skip(i + 1));
        if t[i] == '\n' {
            let v = line_header(t.as_slice(), ls, i, h.as_slice());
            if v.is_some() {
                return v;
            }
            ls = i + 1;
            assert(t@.subrange(ls as int, ls as int) =~= seq![]);
        } else {
            assert(t@.subrange(ls as int, i as int).push(t@[i as int]) =~= t@.subrange(
                ls as int,
                i + 1,
            ));
        }
        i = i + 1;
    }
    assert(t@.skip(i as int) =~= seq![]);
    line_header(t.as_slice(), ls, t.len(), h.as_slice())
}

proof fn lemma_scan_within_line(chunk: Seq<char>, after: Seq<char>, acc: Seq<char>, name: Seq<char>)
    requires
        forall|i: int| 0 <= i < chunk.len() ==> chunk[i] != '\n',
    ensures
        header_scan(chunk + after, acc, name) == header_scan(after, acc + chunk, name),
    decreases chunk.len(),
{
    if chunk.len() > 0 {
        assert((chunk + after)[0] == chunk[0]);
        assert((chunk + after).drop_first() =~= chunk.drop_first() + after);
        assert(acc.push(chunk[0]) + chunk.drop_first() =~= acc + chunk);
        lemma_scan_within_line(chunk.drop_first(), after, acc.push(chunk[0]), name);
    } else {
        assert(chunk + after =~= after);
        assert(acc + chunk =~= acc);
    }
}

proof fn lemma_scan_past_lines(before: Seq<char>, rest: Seq<char>, acc: Seq<char>, name: Seq<char>)
    requires
        before.len() > 0,
        before.last() == '\n',
        header_scan(before, acc, name) is None,
    ensures
        header_scan(before + rest, acc, name) == header_scan(rest, seq![], name),
    decreases before.len(),
{
    assert((before + rest)[0] == before[0]);
    assert((before + rest).drop_first() =~= before.drop_first() + rest);
    if before.len() == 1 {
        assert(before.drop_first() + rest =~= rest);
    } else {
        assert(before.drop_first().last() == '\n');
        if before[0] == '\n' {
            lemma_scan_past_lines(before.drop_first(), rest, seq![], name);
        } else {
            lemma_scan_past_lines(before.drop_first(), rest, acc.push(before[0]), name);
        }
    }
}

/// A line holds header `name` when, trimmed, it starts with `name` (ASCII
/// case ignored) and has a colon.
pub open spec fn holds_header(line: Seq<char>, name: Seq<char>) -> bool {
    starts_with_ignore_case(trim(line), name) && trim(line).contains(':')
}

/// `text[a..b]` is one whole line of `text`.
pub open spec fn is_line(text: Seq<char>, a: int, b: int) -> bool {
    0 <= a <= b <= text.len() && (a == 0 || text[a - 1] == '\n') && (b == text.len() || text[b]
        == '\n') && forall|k: int| a <= k < b ==> text[k] != '\n'
}

proof fn lemma_no_header_value(line: Seq<char>, name: Seq<char>)
    requires
        !holds_header(line, name),
    ensures
        header_value(line, name) is None,
{
    let l = trim(line);
    crate::text::lemma_find_from(l, seq![':'], 0);
    if starts_with_ignore_case(l, name) {
        if let Some(k) = find_from(l, seq![':'], 0) {
            assert(l.subrange(k as int, k + 1 as int)[0] == l[k as int]);
            assert(l.contains(':'));
        }
    }
}

proof fn lemma_scan_finds_nothing(text: Seq<char>, a: int, i: int, name: Seq<char>)
    requires
        0 <= a <= i <= text.len(),
        a == 0 || text[a - 1] == '\n',
        forall|k: int| a <= k < i ==> text[k] != '\n',
        forall|x: int, y: int| is_line(text, x, y) ==> !holds_header(#[trigger] text.subrange(x, y), name),
    ensures
        header_scan(text.skip(i), text.subrange(a, i), name) is None,
    decreases text.len() - i,
{
    if i == text.len() {
        assert(is_line(text, a, i));
        lemma_no_header_value(text.subrange(a, i), name);
    } else {
        assert(text.skip(i)[0] == text[i]);
        assert(text.skip(i).drop_first() =~= text.skip(i + 1));
        if text[i] == '\n' {
            assert(is_line(text, a, i));
            lemma_no_header_value(text.subrange(a, i), name);
            assert(text.subrange(i + 1, i + 1) =~= seq![]);
            lemma_scan_finds_nothing(text, i + 1, i + 1, name);
        } else {
            assert(text.subrange(a, i).push(text[i]) =~= text.subrange(a, i + 1));
            lemma_scan_finds_nothing(text, a, i + 1, name);
        }
    }
}

/// A text none of whose lines holds header `name` yields no value for it.
pub proof fn lemma_header_absent(text: Seq<char>, name: Seq<char>)
    requires
        forall|a: int, b: int| is_line(text, a, b) ==> !holds_header(#[trigger] text.subrange(a, b), name),
    ensures
        header_of(text, name) is None,
{
    assert(text.skip(0) =~= text);
    assert(text.subrange(0, 0) =~= seq![]);
    lemma_scan_finds_nothing(text, 0, 0, name);
}

proof fn lemma_header_value_of_holding_line(line: Seq<char>, name: Seq<char>)
    requires
        holds_header(line, name),
    ensures
        header_value(line, name) is Some,
{
    let l = trim(line);
    crate::text::lemma_find_from(l, seq![':'], 0);
    let k = choose|k: int| 0 <= k < l.len() && l[k] == ':';
    assert(l.subrange(k, k + 1) =~= seq![':']);
    assert(occurs_at(l, seq![':'], k));
}

proof fn lemma_scan_finds_header(text: Seq<char>, a: int, i: int, x: int, y: int, name: Seq<char>)
    requires
        0 <= a <= i <= text.len(),
        a == 0 || text[a - 1] == '\n',
        forall|k: int| a <= k < i ==> text[k] != '\n',
        is_line(text, x, y),
        a <= x,
        holds_header(text.subrange(x, y), name),
    ensures
        header_scan(text.skip(i), text.subrange(a, i), name) is Some,
    decreases text.len() - i,
{
    if i == text.len() {
        if x > a {
            assert(text[x - 1] == '\n');
        }
        if y < i {
            assert(text[y] == '\n');
        }
        lemma_header_value_of_holding_line(text.subrange(a, i), name);
    } else {
        assert(text.skip(i)[0] == text[i]);
        assert(text.skip(i).drop_first() =~= text.skip(i + 1));
        if text[i] == '\n' {
            if x <= i {
                if x > a {
                    assert(text[x - 1] == '\n');
                }
                if y > i {
                    assert(text[i] != '\n');
                }
                if y < i {
                    assert(text[y] == '\n');
                }
                lemma_header_value_of_holding_line(text.subrange(a, i), name);
            } else if header_value(text.subrange(a, i), name) is None {
                assert(text.subrange(i + 1, i + 1) =~= seq![]);
                lemma_scan_finds_header(text, i + 1, i + 1, x, y, name);
            }
        } else {
            assert(text.subrange(a, i).push(text[i]) =~= text.subrange(a, i + 1));
            lemma_scan_finds_header(text, a, i + 1, x, y, name);
        }
    }
}

/// A text with a line that holds header `name` yields a value for it.
pub proof fn lemma_header_present(text: Seq<char>, name: Seq<char>, a: int, b: int)
    requires
        is_line(text, a, b),
        holds_header(text.subrange(a, b), name),
    ensures
        header_of(text, name) is Some,
{
    assert(text.skip(0) =~= text);
    assert(text.subrange(0, 0) =~= seq![]);
    lemma_scan_finds_header(text, 0, 0, a, b, name);
}

/// A missing header is no error: the scan yields nothing exactly when no
/// line of the text holds the header.
pub proof fn lemma_header_none_iff(text: Seq<char>, name: Seq<char>)
    ensures
        header_of(text, name) is None <==> forall|a: int, b: int|
            is_line(text, a, b) ==> !holds_header(#[trigger] text.subrange(a, b), name),
{
    if header_of(text, name) is None {
        assert forall|a: int, b: int| is_line(text, a, b) implies !holds_header(
            #[trigger] text.subrange(a, b),
            name,
        ) by {
            if holds_header(text.subrange(a, b), name) {
                lemma_header_present(text, name, a, b);
            }
        }
    }
    if forall|a: int, b: int|
        is_line(text, a, b) ==> !holds_header(#[trigger] text.subrange(a, b), name) {
        lemma_header_absent(text, name);
    }
}

/// A line that reads `key:value`, where `key` equals `name` up to ASCII case,
/// gives `value`, trimmed, as the header's value, provided that no earlier
/// line holds the header. The line may carry surrounding whitespace.
pub proof fn lemma_header_line_found(
    before: Seq<char>,
    line: Seq<char>,
    after: Seq<char>,
    key: Seq<char>,
    value: Seq<char>,
    name: Seq<char>,
)
    requires
        before.len() == 0 || before.last() == '\n',
        forall|a: int, b: int|
            is_line(before, a, b) ==> !holds_header(#[trigger] before.subrange(a, b), name),
        forall|i: int| 0 <= i < line.len() ==> line[i] != '\n',
        after.len() == 0 || after[0] == '\n',
        trim(line) == key + seq![':'] + value,
        forall|i: int| 0 <= i < key.len() ==> key[i] != ':',
        key.len() == name.len(),
        forall|i: int| 0 <= i < key.len() ==> lower_code(#[trigger] key[i]) == lower_code(name[i]),
    ensures
        header_of(before + line + after, name) == Some(trim(value)),
{
    lemma_header_absent(before, name);
    let l = trim(line);
    let colon = seq![':'];
    assert forall|i: int| 0 <= i < name.len() implies lower_code(#[trigger] l[i]) == lower_code(
        name[i],
    ) by {
        assert(l[i] == key[i]);
    }
    assert(starts_with_ignore_case(l, name));
    assert(l.subrange(key.len() as int, key.len() + 1 as int) =~= colon);
    assert(occurs_at(l, colon, key.len() as int));
    crate::text::lemma_find_from(l, colon, 0);
    match find_from(l, colon, 0) {
        Some(k) => {
            if k < key.len() {
                assert(l.subrange(k as int, k + 1 as int)[0] == l[k as int]);
                assert(l[k as int] == key[k as int]);
            }
            assert(k == key.len());
        },
        None => {},
    }
    let tail = l.subrange(key.len() + 1 as int, l.len() as int);
    assert(tail =~= value);
    assert(header_value(line, name) == Some(trim(value)));
    assert(header_scan(after, line, name) == Some(trim(value)));
    assert(seq![] + line =~= line);
    lemma_scan_within_line(line, after, seq![], name);
    if before.len() == 0 {
        assert(before + line + after =~= line + after);
    } else {
        assert(before + line + after =~= before + (line + after));
        lemma_scan_past_lines(before, line + after, seq![], name);
    }
}

/// The trimmed text between the first `<tag>` of `xml` and the first `</tag>`
/// that follows it; `None` when either is missing.
pub fn extract_xml(xml: &str, tag: &str) -> (r: Option<String>)
    ensures
        view_opt(r) == tag_text(xml@, tag@),
{
    let doc = chars_of(xml);
    let name = chars_of(tag);
    let mut open: Vec<char> = vec!['<'];
    open.extend_from_slice(name.as_slice());
    open.push('>');
    let mut close: Vec<char> = vec!['<', '/'];
    close.extend_from_slice(name.as_slice());
    close.push('>');
    assert(open@ =~= open_tag(tag@));
    assert(close@ =~= close_tag(tag@));
    match find(doc.as_slice(), open.as_slice(), 0) {
        None => None,
        Some(o) => {
            proof {
                crate::text::lemma_find_from(doc@, open@, 0);
            }
            let n = doc.len();
            let start = o + open.len();
            match find(doc.as_slice(), close.as_slice(), start) {
                None => None,
                Some(e) => {
                    proof {
                        crate::text::lemma_find_from(doc@, close@, start as nat);
                    }
                    let (a, b) = trim_bounds(doc.as_slice(), start, e);
                    Some(string_of(&doc.as_slice()[a..b]))
                },
            }
        },
    }
}

/// The position in `u` just past its first `://`.
fn authority_start(u: &[char]) -> (r: Option<usize>)
    ensures
        match r {
            Some(k) => after_scheme(u@) == Some(u@.subrange(k as int, u@.len() as int)) && k
                <= u@.len(),
            None => after_scheme(u@) is None,
        },
{
    let n = u.len();
    let sep = vec![':', '/', '/'];
    assert(sep@ =~= scheme_separator());
    match find(u, sep.as_slice(), 0) {
        Some(k) => {
            proof {
                crate::text::lemma_find_from(u@, sep@, 0);
            }
            Some(k + 3)
        },
        None => None,
    }
}

/// The authority of `url` (host and port): what follows its first `://` up to
/// the next `/`. `None` when `url` has no `://`.
pub fn extract_host_port(url: &str) -> (r: Option<String>)
    ensures
        view_opt(r) == host_port_of(url@),
{
    let u = chars_of(url);
    match authority_start(u.as_slice()) {
        None => None,
        Some(s) => {
            let rest = &u.as_slice()[s..u.len()];
            let slash = vec!['/'];
            assert(slash@ =~= seq!['/']);
            match find(rest, slash.as_slice(), 0) {
                Some(k) => {
                    proof {
                        crate::text::lemma_find_from(rest@, slash@, 0);
                    }
                    Some(string_of(&rest[0..k]))
                },
                None => Some(string_of(rest)),
            }
        },
    }
}

/// The path of `url`: from the first `/` after its `://` to the end, or `/`
/// when nothing follows the authority. `None` when `url` has no `://`.
pub fn extract_path(url: &str) -> (r: Option<String>)
    ensures
        view_opt(r) == path_of(url@),
{
    let u = chars_of(url);
    match authority_start(u.as_slice()) {
        None => None,
        Some(s) => {
            let rest = &u.as_slice()[s..u.len()];
            let slash = vec!['/'];
            assert(slash@ =~= seq!['/']);
            match find(rest, slash.as_slice(), 0) {
                Some(k) => {
                    proof {
                        crate::text::lemma_find_from(rest@, slash@, 0);
                    }
                    Some(string_of(&rest[k..rest.len()]))
                },
                None => Some(string_of(slash.as_slice())),
            }
        },
    }
}

} // verus!
