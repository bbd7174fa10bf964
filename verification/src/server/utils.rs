//! Reading a WebSocket opening request and serving the index page.
use vstd::prelude::*;
use vstd::string::StringSliceAdditionalSpecFns;
use vstd::utf8::*;

verus! {

/// The header whose value carries the client's handshake key.
pub open spec fn key_header() -> Seq<u8> {
    // "Sec-WebSocket-Key"
    seq![83u8, 101, 99, 45, 87, 101, 98, 83, 111, 99, 107, 101, 116, 45, 75, 101, 121]
}

/// The index of the first `\n` at or after `i`, or the length when there is none.
pub open spec fn line_end(b: Seq<u8>, i: int) -> int
    decreases b.len() - i,
{
    if i >= b.len() {
        b.len() as int
    } else if b[i] == 10 {
        i
    } else {
        line_end(b, i + 1)
    }
}

/// Where the text of the line that starts at `s` ends: before its `\n`, and
/// before a `\r` that stands just before that `\n`.
pub open spec fn content_end(b: Seq<u8>, s: int) -> int {
    let e = line_end(b, s);
    if e < b.len() && e > s && b[e - 1] == 13 {
        e - 1
    } else {
        e
    }
}

/// Whether `b[s..e]` begins with `pat`.
pub open spec fn starts_with_at(b: Seq<u8>, s: int, e: int, pat: Seq<u8>) -> bool {
    e - s >= pat.len() && b.subrange(s, s + pat.len()) == pat
}

/// The text bounds of the first line, at or after the one that starts at `s`,
/// that begins with the key header's name.
pub open spec fn key_line_at(b: Seq<u8>, s: int) -> Option<(int, int)>
    decreases b.len() - s,
{
    if s < 0 || s >= b.len() {
        None
    } else if starts_with_at(b, s, content_end(b, s), key_header()) {
        Some((s, content_end(b, s)))
    } else if line_end(b, s) >= b.len() {
        None
    } else {
        proof {
            lemma_line_end_bounds(b, s);
        }
        key_line_at(b, line_end(b, s) + 1)
    }
}

pub proof fn lemma_line_end_bounds(b: Seq<u8>, i: int)
    requires
        0 <= i <= b.len(),
    ensures
        i <= line_end(b, i) <= b.len(),
        line_end(b, i) < b.len() ==> b[line_end(b, i)] == 10,
    decreases b.len() - i,
{
    if i < b.len() && b[i] != 10 {
        lemma_line_end_bounds(b, i + 1);
    }
}

proof fn lemma_key_line_bounds(b: Seq<u8>, s: int)
    requires
        0 <= s,
    ensures
        key_line_at(b, s) matches Some((ls, le)) ==> {
            &&& s <= ls <= le <= b.len()
            &&& (le < b.len() ==> b[le] == 10 || b[le] == 13)
        },
    decreases b.len() - s,
{
    if s < b.len() {
        lemma_line_end_bounds(b, s);
        if !starts_with_at(b, s, content_end(b, s), key_header()) && line_end(b, s) < b.len() {
            lemma_key_line_bounds(b, line_end(b, s) + 1);
        }
    }
}

proof fn lemma_sep_bounds(b: Seq<u8>, i: int, end: int)
    requires
        end <= b.len(),
    ensures
        sep_at(b, i, end) matches Some(p) ==> i <= p && p + 2 <= end && b[p] == 58 && b[p + 1] == 32,
    decreases end - i,
{
    if i >= 0 && i + 2 <= end && !(b[i] == 58 && b[i + 1] == 32) {
        lemma_sep_bounds(b, i + 1, end);
    }
}

/// The index of the first `": "` that lies wholly in `b[i..end]`.
pub open spec fn sep_at(b: Seq<u8>, i: int, end: int) -> Option<int>
    decreases end - i,
{
    if i < 0 || i + 2 > end {
        None
    } else if b[i] == 58 && b[i + 1] == 32 {
        Some(i)
    } else {
        sep_at(b, i + 1, end)
    }
}

/// The bounds of the handshake key in a request: the second `": "`-separated
/// piece of the first line that begins with `Sec-WebSocket-Key`.
pub open spec fn key_bounds(b: Seq<u8>) -> Option<(int, int)> {
    match key_line_at(b, 0) {
        None => None,
        Some((s, e)) => match sep_at(b, s, e) {
            None => None,
            Some(p) => match sep_at(b, p + 2, e) {
                None => Some((p + 2, e)),
                Some(q) => Some((p + 2, q)),
            },
        },
    }
}

/// Decodes `v` as UTF-8 with `std::str::from_utf8`.
///
/// `from_utf8` succeeds exactly on valid UTF-8, and the string it returns holds
/// the same bytes.
#[verifier::external_body]
fn str_from_utf8(v: &[u8]) -> (r: Option<&str>)
    ensures
        r is Some <==> valid_utf8(v@),
        r matches Some(s) ==> s.spec_bytes() == v@,
{
    std::str::from_utf8(v).ok()
}

fn find_line_end(b: &[u8], s: usize) -> (e: usize)
    requires
        s <= b@.len(),
    ensures
        e as int == line_end(b@, s as int),
        s <= e <= b@.len(),
{
    let mut i = s;
    while i < b.len() && b[i] != 10
        invariant
            s <= i <= b@.len(),
            line_end(b@, s as int) == line_end(b@, i as int),
        decreases b@.len() - i,
    {
        i = i + 1;
    }
    i
}

fn header_at(b: &[u8], s: usize, e: usize) -> (r: bool)
    requires
        s <= e <= b@.len(),
    ensures
        r == starts_with_at(b@, s as int, e as int, key_header()),
{
    // "Sec-WebSocket-Key"
    let pat: [u8; 17] = [83, 101, 99, 45, 87, 101, 98, 83, 111, 99, 107, 101, 116, 45, 75, 101, 121];
    assert(pat@ =~= key_header());
    if e - s < 17 {
        return false;
    }
    let mut i: usize = 0;
    while i < 17
        invariant
            s + 17 <= e <= b@.len(),
            i <= 17,
            pat@ == key_header(),
            forall|j: int| 0 <= j < i ==> b@[s + j] == pat@[j],
        decreases 17 - i,
    {
        if b[s + i] != pat[i] {
            assert(b@.subrange(s as int, s + 17)[i as int] != key_header()[i as int]);
            return false;
        }
        i = i + 1;
    }
    assert(b@.subrange(s as int, s + 17) =~= key_header());
    true
}

fn find_key_line(b: &[u8]) -> (r: Option<(usize, usize)>)
    ensures
        match key_line_at(b@, 0) {
            None => r is None,
            Some((s, e)) => r matches Some(x) && x.0 == s && x.1 == e,
        },
        r matches Some(x) ==> x.0 <= x.1 <= b@.len() && (x.1 < b@.len() ==> b@[x.1 as int] == 10
            || b@[x.1 as int] == 13),
{
    proof {
        lemma_key_line_bounds(b@, 0);
    }
    let mut s: usize = 0;
    while s < b.len()
        invariant
            s <= b@.len(),
            key_line_at(b@, 0) == key_line_at(b@, s as int),
        decreases b@.len() - s,
    {
        let end = find_line_end(b, s);
        proof {
            lemma_line_end_bounds(b@, s as int);
        }
        let text_end = if end < b.len() && end > s && b[end - 1] == 13 {
            end - 1
        } else {
            end
        };
        assert(text_end == content_end(b@, s as int));
        if header_at(b, s, text_end) {
            return Some((s, text_end));
        }
        if end == b.len() {
            assert(key_line_at(b@, (end + 1) as int) is None);
            return None;
        }
        s = end + 1;
    }
    None
}

fn find_sep(b: &[u8], i: usize, end: usize) -> (r: Option<usize>)
    requires
        end <= b@.len(),
    ensures
        match sep_at(b@, i as int, end as int) {
            None => r is None,
            Some(p) => r matches Some(x) && x == p,
        },
        r matches Some(x) ==> i <= x && x + 2 <= end && b@[x as int] == 58 && b@[x + 1] == 32,
{
    proof {
        lemma_sep_bounds(b@, i as int, end as int);
    }
    let mut k = i;
    while k < end && end - k >= 2
        invariant
            i <= k,
            end <= b@.len(),
            sep_at(b@, i as int, end as int) == sep_at(b@, k as int, end as int),
        decreases end - k,
    {
        if b[k] == 58 && b[k + 1] == 32 {
            return Some(k);
        }
        k = k + 1;
    }
    None
}

proof fn lemma_ascii_boundary(b: Seq<u8>, i: int)
    requires
        valid_utf8(b),
        0 <= i <= b.len(),
        i < b.len() ==> b[i] < 0x80,
    ensures
        is_char_boundary(b, i),
{
    if i == b.len() {
        is_char_boundary_start_end_of_seq(b);
    } else {
        is_char_boundary_iff_not_is_continuation_byte(b, i);
    }
}

proof fn lemma_after_space_boundary(t: Seq<u8>)
    requires
        valid_utf8(t),
        t.len() > 0,
        t[0] == 32,
    ensures
        is_char_boundary(t, 1),
        valid_utf8(pop_first_scalar(t)),
        pop_first_scalar(t) == t.subrange(1, t.len() as int),
{
    reveal_with_fuel(is_char_boundary, 2);
    assert(length_of_first_scalar(t) == 1);
    is_char_boundary_start_end_of_seq(pop_first_scalar(t));
}

/// Reads the client's handshake key from a WebSocket opening request: the text
/// after the first `": "` (and up to the next `": "`) on the first line that
/// begins with `Sec-WebSocket-Key`; `None` when the request is not UTF-8, has
/// no such line, or the line has no `": "`.
pub fn sec_web_socket_key(bytes: &[u8]) -> (r: Option<&str>)
    ensures
        r is Some <==> valid_utf8(bytes@) && key_bounds(bytes@) is Some,
        r matches Some(k) ==> (key_bounds(bytes@) matches Some(kb) && k.spec_bytes()
            == bytes@.subrange(kb.0, kb.1)),
{
    let text = str_from_utf8(bytes)?;
    let b = text.as_bytes();
    assert(b@ == bytes@);
    let (s, e) = find_key_line(b)?;
    let p = find_sep(b, s, e)?;
    let end = match find_sep(b, p + 2, e) {
        Some(q) => q,
        None => e,
    };
    proof {
        let bb = bytes@;
        if end < e {
            assert(bb[end as int] == 58);
        } else if e < bb.len() {
            assert(bb[e as int] == 10 || bb[e as int] == 13);
        }
        lemma_ascii_boundary(bb, end as int);
        valid_utf8_split(bb, end as int);
    }
    let (head, _) = text.split_at(end);
    proof {
        let hb = head.spec_bytes();
        assert(hb == bytes@.subrange(0, end as int));
        assert(hb[p + 1] == 32);
        lemma_ascii_boundary(hb, p + 1);
        valid_utf8_split(hb, p + 1);
    }
    let (_, tail) = head.split_at(p + 1);
    proof {
        let tb = tail.spec_bytes();
        assert(tb[0] == 32);
        lemma_after_space_boundary(tb);
    }
    let (_, key) = tail.split_at(1);
    proof {
        assert(key.spec_bytes() =~= bytes@.subrange(p + 2, end as int));
    }
    Some(key)
}

/// The decimal digits of `n`, as ASCII bytes.
pub open spec fn decimal(n: nat) -> Seq<u8>
    decreases n,
{
    if n < 10 {
        seq![(48 + n) as u8]
    } else {
        decimal(n / 10).push((48 + n % 10) as u8)
    }
}

fn push_decimal(out: &mut Vec<u8>, n: usize)
    ensures
        final(out)@ == old(out)@ + decimal(n as nat),
    decreases n,
{
    if n >= 10 {
        push_decimal(out, n / 10);
    }
    out.push(48 + (n % 10) as u8);
}

fn push_all(out: &mut Vec<u8>, data: &[u8])
    ensures
        final(out)@ == old(out)@ + data@,
{
    let mut i: usize = 0;
    while i < data.len()
        invariant
            i <= data@.len(),
            out@ == old(out)@ + data@.subrange(0, i as int),
        decreases data@.len() - i,
    {
        out.push(data[i]);
        i = i + 1;
    }
    assert(data@.subrange(0, data@.len() as int) =~= data@);
}

/// `HTTP/1.1 200 OK\r\nContent-Type: text/html\r\nContent-Length: `
pub open spec fn html_head() -> Seq<u8> {
    seq![
        72u8, 84, 84, 80, 47, 49, 46, 49, 32, 50, 48, 48, 32, 79, 75, 13, 10,
        67, 111, 110, 116, 101, 110, 116, 45, 84, 121, 112, 101, 58, 32,
        116, 101, 120, 116, 47, 104, 116, 109, 108, 13, 10,
        67, 111, 110, 116, 101, 110, 116, 45, 76, 101, 110, 103, 116, 104, 58, 32,
    ]
}

/// The HTTP response that serves `file` as an HTML page, whose
/// `Content-Length` is the file's length in bytes.
pub fn html_response(file: &[u8]) -> (r: Vec<u8>)
    requires
        valid_utf8(file@),
    ensures
        r@ == html_head() + decimal(file@.len()) + seq![13u8, 10, 13, 10] + file@,
{
    let head: [u8; 58] = [
        72, 84, 84, 80, 47, 49, 46, 49, 32, 50, 48, 48, 32, 79, 75, 13, 10,
        67, 111, 110, 116, 101, 110, 116, 45, 84, 121, 112, 101, 58, 32,
        116, 101, 120, 116, 47, 104, 116, 109, 108, 13, 10,
        67, 111, 110, 116, 101, 110, 116, 45, 76, 101, 110, 103, 116, 104, 58, 32,
    ];
    assert(head@ =~= html_head());
    let mut out: Vec<u8> = Vec::new();
    push_all(&mut out, head.as_slice());
    push_decimal(&mut out, file.len());
    let blank: [u8; 4] = [13, 10, 13, 10];
    push_all(&mut out, blank.as_slice());
    push_all(&mut out, file);
    assert(blank@ =~= seq![13u8, 10, 13, 10]);
    assert(out@ =~= html_head() + decimal(file@.len()) + seq![13u8, 10, 13, 10] + file@);
    out
}

proof fn lemma_line_end_skip(b: Seq<u8>, i: int, j: int)
    requires
        0 <= i <= j <= b.len(),
        forall|x: int| i <= x < j ==> b[x] != 10,
    ensures
        line_end(b, i) == line_end(b, j),
    decreases j - i,
{
    if i < j {
        lemma_line_end_skip(b, i + 1, j);
    }
}

proof fn lemma_sep_skip(b: Seq<u8>, i: int, j: int, end: int)
    requires
        0 <= i <= j,
        end <= b.len(),
        forall|x: int| i <= x < j && x + 2 <= end ==> !(#[trigger] b[x] == 58 && b[x + 1] == 32),
    ensures
        sep_at(b, i, end) == sep_at(b, j, end),
    decreases j - i,
{
    if i < j && i + 2 <= end {
        lemma_sep_skip(b, i + 1, j, end);
    }
}

/// The key of a request whose first line is `Sec-WebSocket-Key: <key>`, for a
/// key without line breaks and without `": "`, is that key, whatever follows.
pub proof fn law_key_of_header_line(key: Seq<u8>, rest: Seq<u8>)
    requires
        forall|i: int| 0 <= i < key.len() ==> key[i] != 10,
        forall|i: int| 0 <= i && i + 1 < key.len() ==> !(#[trigger] key[i] == 58 && key[i + 1] == 32),
    ensures
        ({
            let b = key_header() + seq![58u8, 32] + key + seq![13u8, 10] + rest;
            &&& key_bounds(b) == Some((19int, 19 + key.len() as int))
            &&& b.subrange(19, 19 + key.len() as int) == key
        }),
{
    let b = key_header() + seq![58u8, 32] + key + seq![13u8, 10] + rest;
    let l: int = 19 + key.len() as int;
    assert(b[l] == 13);
    assert(b[l + 1] == 10);
    assert forall|x: int| 0 <= x < l + 1 implies b[x] != 10 by {
        if x < 17 {
            assert(b[x] == key_header()[x]);
        } else if x >= 19 && x < l {
            assert(b[x] == key[x - 19]);
        }
    }
    lemma_line_end_skip(b, 0, l + 1);
    assert(line_end(b, 0) == l + 1);
    assert(content_end(b, 0) == l);
    assert(b.subrange(0, 17) =~= key_header());
    assert(key_line_at(b, 0) == Some((0int, l)));
    assert forall|x: int| 0 <= x < 17 && x + 2 <= l implies !(#[trigger] b[x] == 58 && b[x + 1] == 32) by {
        assert(b[x] == key_header()[x]);
    }
    lemma_sep_skip(b, 0, 17, l);
    assert(sep_at(b, 0, l) == Some(17int));
    assert forall|x: int| 19 <= x < l && x + 2 <= l implies !(#[trigger] b[x] == 58 && b[x + 1] == 32) by {
        assert(b[x] == key[x - 19]);
        assert(b[x + 1] == key[x - 18]);
    }
    lemma_sep_skip(b, 19, l, l);
    assert(b.subrange(19, l) =~= key);
}


/// Whether a line of `b` starts at `x`.
pub open spec fn is_line_start(b: Seq<u8>, x: int) -> bool {
    0 <= x < b.len() && (x == 0 || b[x - 1] == 10)
}

/// Whether the key header's name stands in `b` at `x`.
pub open spec fn begins_key_header(b: Seq<u8>, x: int) -> bool {
    0 <= x && x + 17 <= b.len() && b.subrange(x, x + 17) == key_header()
}

proof fn lemma_line_end_at_most(b: Seq<u8>, s: int, j: int)
    requires
        0 <= s <= j < b.len(),
        b[j] == 10,
    ensures
        line_end(b, s) <= j,
    decreases j - s,
{
    if s < j && b[s] != 10 {
        lemma_line_end_at_most(b, s + 1, j);
    }
}

/// Lines of a prefix that ends with a line break and has no key header line
/// are passed over in the search for the key line.
proof fn lemma_skip_prefix_lines(b: Seq<u8>, prefix: Seq<u8>, s: int)
    requires
        prefix.len() < b.len(),
        b.subrange(0, prefix.len() as int) == prefix,
        prefix.len() == 0 || prefix.last() == 10,
        0 <= s <= prefix.len(),
        s == 0 || prefix[s - 1] == 10,
        forall|x: int| #[trigger] is_line_start(prefix, x) ==> !begins_key_header(prefix, x),
    ensures
        key_line_at(b, s) == key_line_at(b, prefix.len() as int),
    decreases prefix.len() - s,
{
    let p = prefix.len() as int;
    if s < p {
        assert(b[p - 1] == prefix[p - 1]);
        lemma_line_end_at_most(b, s, p - 1);
        lemma_line_end_bounds(b, s);
        let e = line_end(b, s);
        assert(is_line_start(prefix, s));
        if starts_with_at(b, s, content_end(b, s), key_header()) {
            assert(prefix.subrange(s, s + 17) =~= b.subrange(s, s + 17));
            assert(begins_key_header(prefix, s));
        }
        assert(prefix[e] == b[e]);
        lemma_skip_prefix_lines(b, prefix, e + 1);
    }
}

/// A key header line at `p`, `Sec-WebSocket-Key: <key>\r\n`, is read as that line,
/// with its separator after the header's name and none after it.
proof fn lemma_header_line_at(b: Seq<u8>, p: int, key: Seq<u8>)
    requires
        0 <= p,
        p + 21 + key.len() <= b.len(),
        b.subrange(p, p + 17) == key_header(),
        b[p + 17] == 58,
        b[p + 18] == 32,
        b.subrange(p + 19, p + 19 + key.len()) == key,
        b[p + 19 + key.len()] == 13,
        b[p + 20 + key.len()] == 10,
        forall|i: int| 0 <= i < key.len() ==> key[i] != 10,
        forall|i: int| 0 <= i && i + 1 < key.len() ==> !(#[trigger] key[i] == 58 && key[i + 1] == 32),
    ensures
        key_line_at(b, p) == Some((p, p + 19 + key.len())),
        sep_at(b, p, p + 19 + key.len()) == Some(p + 17),
        sep_at(b, p + 19, p + 19 + key.len()) is None,
{
    let l: int = p + 19 + key.len() as int;
    assert forall|x: int| p <= x < l + 1 implies b[x] != 10 by {
        if x < p + 17 {
            assert(b[x] == b.subrange(p, p + 17)[x - p]);
            assert(b[x] == key_header()[x - p]);
        } else if x >= p + 19 && x < l {
            assert(b[x] == b.subrange(p + 19, l)[x - p - 19]);
        }
    }
    lemma_line_end_skip(b, p, l + 1);
    assert(line_end(b, p) == l + 1);
    assert(content_end(b, p) == l);
    assert forall|x: int| p <= x < p + 17 && x + 2 <= l implies !(#[trigger] b[x] == 58 && b[x + 1] == 32) by {
        assert(b[x] == b.subrange(p, p + 17)[x - p]);
        assert(b[x] == key_header()[x - p]);
    }
    lemma_sep_skip(b, p, p + 17, l);
    assert forall|x: int| p + 19 <= x < l && x + 2 <= l implies !(#[trigger] b[x] == 58 && b[x + 1] == 32) by {
        assert(b[x] == b.subrange(p + 19, l)[x - p - 19]);
        assert(b[x + 1] == b.subrange(p + 19, l)[x - p - 18]);
    }
    lemma_sep_skip(b, p + 19, l, l);
}

/// The key is found on whichever line it stands, however many lines come
/// before it: after lines none of which is a key header line, a line
/// `Sec-WebSocket-Key: <key>` (a key without line breaks and without `": "`)
/// gives that key, whatever follows.
pub proof fn law_key_on_any_line(prefix: Seq<u8>, key: Seq<u8>, rest: Seq<u8>)
    requires
        prefix.len() == 0 || prefix.last() == 10,
        forall|x: int| #[trigger] is_line_start(prefix, x) ==> !begins_key_header(prefix, x),
        forall|i: int| 0 <= i < key.len() ==> key[i] != 10,
        forall|i: int| 0 <= i && i + 1 < key.len() ==> !(#[trigger] key[i] == 58 && key[i + 1] == 32),
    ensures
        ({
            let b = prefix + key_header() + seq![58u8, 32] + key + seq![13u8, 10] + rest;
            let p = prefix.len() as int;
            &&& key_bounds(b) == Some((p + 19, p + 19 + key.len()))
            &&& b.subrange(p + 19, p + 19 + key.len()) == key
        }),
{
    let b = prefix + key_header() + seq![58u8, 32] + key + seq![13u8, 10] + rest;
    let p = prefix.len() as int;
    let l: int = p + 19 + key.len() as int;
    assert(b.subrange(0, p) =~= prefix);
    assert(b.subrange(p, p + 17) =~= key_header());
    assert(b.subrange(p + 19, l) =~= key);
    assert(b[p + 17] == 58);
    assert(b[p + 18] == 32);
    assert(b[l] == 13);
    assert(b[l + 1] == 10);
    lemma_header_line_at(b, p, key);
    lemma_skip_prefix_lines(b, prefix, 0);
}

} // verus!
