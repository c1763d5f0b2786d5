//! NDJSON framing: one JSON document per line.
//!
//! A frame is sent as its text followed by `'\n'`. A line read back is
//! trimmed of surrounding whitespace before it is decoded; reading nothing
//! at all means the peer closed the stream.

use vstd::prelude::*;

use crate::text::str_chars;

verus! {

/// Whether `c` has the Unicode `White_Space` property (the whitespace that
/// `str::trim` removes).
pub open spec fn is_white_space(c: char) -> bool {
    let n = c as u32;
    (0x09 <= n && n <= 0x0d) || n == 0x20 || n == 0x85 || n == 0xa0 || n == 0x1680 || (0x2000 <= n
        && n <= 0x200a) || n == 0x2028 || n == 0x2029 || n == 0x202f || n == 0x205f || n == 0x3000
}

/// `s` without its leading whitespace.
pub open spec fn trim_start(s: Seq<char>) -> Seq<char>
    decreases s.len(),
{
    if s.len() > 0 && is_white_space(s[0]) {
        trim_start(s.drop_first())
    } else {
        s
    }
}

/// `s` without its trailing whitespace.
pub open spec fn trim_end(s: Seq<char>) -> Seq<char>
    decreases s.len(),
{
    if s.len() > 0 && is_white_space(s.last()) {
        trim_end(s.drop_last())
    } else {
        s
    }
}

/// `s` without leading and trailing whitespace.
pub open spec fn trim(s: Seq<char>) -> Seq<char> {
    trim_end(trim_start(s))
}

/// What a line read from the socket carries: nothing when no bytes were
/// read (end of stream), else the trimmed text to decode.
pub open spec fn frame_payload(line: Seq<char>) -> Option<Seq<char>> {
    if line.len() == 0 {
        None
    } else {
        Some(trim(line))
    }
}

fn white_space(c: char) -> (r: bool)
    ensures
        r == is_white_space(c),
{
    let n = c as u32;
    (0x09 <= n && n <= 0x0d) || n == 0x20 || n == 0x85 || n == 0xa0 || n == 0x1680 || (0x2000 <= n
        && n <= 0x200a) || n == 0x2028 || n == 0x2029 || n == 0x202f || n == 0x205f || n == 0x3000
}

proof fn lemma_trim_start_skip(s: Seq<char>, i: int)
    requires
        0 <= i <= s.len(),
        forall|j: int| 0 <= j < i ==> is_white_space(#[trigger] s[j]),
    ensures
        trim_start(s) == trim_start(s.skip(i)),
    decreases i,
{
    if i > 0 {
        assert(s.skip(1) =~= s.drop_first());
        lemma_trim_start_skip(s.drop_first(), i - 1);
        assert(s.drop_first().skip(i - 1) =~= s.skip(i));
    } else {
        assert(s.skip(0) =~= s);
    }
}

proof fn lemma_trim_end_take(s: Seq<char>, k: int)
    requires
        0 <= k <= s.len(),
        forall|j: int| k <= j < s.len() ==> is_white_space(#[trigger] s[j]),
    ensures
        trim_end(s) == trim_end(s.take(k)),
    decreases s.len() - k,
{
    if k < s.len() {
        assert(s.take(s.len() - 1) =~= s.drop_last());
        lemma_trim_end_take(s.drop_last(), k);
        assert(s.drop_last().take(k) =~= s.take(k));
    } else {
        assert(s.take(k) =~= s);
    }
}

/// `s` with surrounding whitespace removed.
pub fn trim_str(s: &str) -> (r: &str)
    ensures
        r@ == trim(s@),
{
    let chars = str_chars(s);
    let len = chars.len();
    let mut start: usize = 0;
    while start < len && white_space(chars[start])
        invariant
            start <= len,
            len == s@.len(),
            chars@ == s@,
            forall|j: int| 0 <= j < start ==> is_white_space(#[trigger] s@[j]),
        decreases len - start,
    {
        start = start + 1;
    }
    proof {
        lemma_trim_start_skip(s@, start as int);
    }
    let ghost rest = s@.skip(start as int);
    assert(trim_start(rest) == rest);
    let mut end: usize = len;
    while end > start && white_space(chars[end - 1])
        invariant
            start <= end <= len,
            len == s@.len(),
            chars@ == s@,
            rest == s@.skip(start as int),
            forall|j: int| end - start <= j < rest.len() ==> is_white_space(#[trigger] rest[j]),
        decreases end - start,
    {
        end = end - 1;
    }
    proof {
        lemma_trim_end_take(rest, end - start);
        let t = rest.take(end - start);
        if t.len() > 0 {
            assert(t.last() == chars@[end - 1]);
        }
        assert(trim_end(t) == t);
        assert(t =~= s@.subrange(start as int, end as int));
    }
    s.substring_char(start, end)
}

/// The payload of a line read from the socket: `None` at end of stream (no
/// bytes read), else the line without surrounding whitespace.
pub fn decode_frame(line: &str) -> (r: Option<&str>)
    ensures
        match r {
            Some(p) => frame_payload(line@) == Some(p@),
            None => frame_payload(line@) is None,
        },
{
    if line.is_empty() {
        None
    } else {
        Some(trim_str(line))
    }
}

/// The line that carries a serialized document: its text and a newline.
pub fn encode_frame(json: String) -> (r: String)
    ensures
        r@ == json@.push('\n'),
{
    let r = json.concat("\n");
    proof {
        reveal_strlit("\n");
        assert(r@ =~= json@.push('\n'));
    }
    r
}

/// Removing whitespace twice removes no more than once.
pub proof fn lemma_trim_idempotent(s: Seq<char>)
    ensures
        trim(trim(s)) == trim(s),
{
    lemma_trim_start_result(s);
    lemma_trim_end_keeps_start(trim_start(s));
    lemma_trim_start_fixed(trim_end(trim_start(s)));
    lemma_trim_end_fixed(trim_start(s));
}

proof fn lemma_trim_start_fixed(s: Seq<char>)
    requires
        s.len() == 0 || !is_white_space(s[0]),
    ensures
        trim_start(s) == s,
{
}

proof fn lemma_trim_end_fixed(s: Seq<char>)
    ensures
        trim_end(trim_end(s)) == trim_end(s),
    decreases s.len(),
{
    if s.len() > 0 && is_white_space(s.last()) {
        lemma_trim_end_fixed(s.drop_last());
    }
}

proof fn lemma_trim_start_result(s: Seq<char>)
    ensures
        trim_start(s).len() == 0 || !is_white_space(trim_start(s)[0]),
    decreases s.len(),
{
    if s.len() > 0 && is_white_space(s[0]) {
        lemma_trim_start_result(s.drop_first());
    }
}

proof fn lemma_trim_end_keeps_start(s: Seq<char>)
    ensures
        (s.len() == 0 || !is_white_space(s[0])) ==> (trim_end(s).len() == 0 || !is_white_space(trim_end(s)[0])),
    decreases s.len(),
{
    if s.len() > 0 && is_white_space(s.last()) {
        lemma_trim_end_keeps_start(s.drop_last());
        if s.drop_last().len() > 0 {
            assert(s.drop_last()[0] == s[0]);
        }
    }
}

/// A frame written by [`encode_frame`] reads back as the document it
/// carries, provided the document neither starts nor ends with whitespace
/// (serialized JSON does neither).
pub proof fn lemma_frame_roundtrip(doc: Seq<char>)
    requires
        doc.len() > 0,
        !is_white_space(doc[0]),
        !is_white_space(doc.last()),
    ensures
        frame_payload(doc.push('\n')) == Some(doc),
{
    let line = doc.push('\n');
    assert(trim_start(line) == line);
    assert(is_white_space('\n'));
    assert(line.drop_last() =~= doc);
    assert(trim_end(line) == trim_end(doc));
}

} // verus!
