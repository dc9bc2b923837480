//! Plain operations on byte strings that the rest of the library shares.

use vstd::prelude::*;
use vstd::utf8::*;

verus! {

/// The bytes that count as ASCII whitespace: space, tab, line feed, form
/// feed and carriage return.
pub open spec fn is_ascii_whitespace(b: u8) -> bool {
    b == 0x20 || b == 0x09 || b == 0x0a || b == 0x0c || b == 0x0d
}

/// How many leading bytes of `s` remain once its trailing whitespace is gone.
pub open spec fn trimmed_len(s: Seq<u8>) -> nat
    decreases s.len(),
{
    if s.len() > 0 && is_ascii_whitespace(s.last()) {
        trimmed_len(s.drop_last())
    } else {
        s.len()
    }
}

/// `s` without its trailing ASCII whitespace.
pub open spec fn trim_end(s: Seq<u8>) -> Seq<u8> {
    s.subrange(0, trimmed_len(s) as int)
}

/// `trimmed_len(s)` is the one length that leaves only whitespace behind it
/// and no whitespace at the end of what it keeps.
pub proof fn lemma_trimmed_len(s: Seq<u8>, n: int)
    requires
        0 <= n <= s.len(),
        forall|i: int| n <= i < s.len() ==> is_ascii_whitespace(#[trigger] s[i]),
        n > 0 ==> !is_ascii_whitespace(s[n - 1]),
    ensures
        trimmed_len(s) == n,
    decreases s.len(),
{
    if s.len() > n {
        assert(is_ascii_whitespace(s[s.len() - 1]));
        lemma_trimmed_len(s.drop_last(), n);
    }
}

/// Trimming leaves a prefix.
proof fn lemma_trimmed_len_bound(s: Seq<u8>)
    ensures
        trimmed_len(s) <= s.len(),
    decreases s.len(),
{
    if s.len() > 0 && is_ascii_whitespace(s.last()) {
        lemma_trimmed_len_bound(s.drop_last());
    }
}

/// Whitespace at the end of an input does not count: with or without it,
/// trimming leaves the same bytes.
pub proof fn lemma_trailing_whitespace_is_ignored(s: Seq<u8>, tail: Seq<u8>)
    requires
        forall|i: int| 0 <= i < tail.len() ==> is_ascii_whitespace(#[trigger] tail[i]),
    ensures
        trim_end(s + tail) == trim_end(s),
    decreases tail.len(),
{
    if tail.len() == 0 {
        assert(s + tail =~= s);
    } else {
        let shorter = tail.drop_last();
        assert(is_ascii_whitespace(tail[tail.len() - 1]));
        assert((s + tail).last() == tail[tail.len() - 1]);
        assert((s + tail).drop_last() =~= s + shorter);
        lemma_trailing_whitespace_is_ignored(s, shorter);
        assert(trimmed_len(s + tail) == trimmed_len(s + shorter));
        lemma_trimmed_len_bound(s + shorter);
        assert(trim_end(s + tail) =~= trim_end(s + shorter));
    }
}

/// Strips the trailing ASCII whitespace from bytes as they came from a file
/// or from standard input.
pub fn read_data(raw: &[u8]) -> (out: Vec<u8>)
    ensures
        out@ == trim_end(raw@),
{
    let mut end: usize = raw.len();
    while end > 0 && is_whitespace_byte(raw[end - 1])
        invariant
            end <= raw.len(),
            forall|i: int| end <= i < raw.len() ==> is_ascii_whitespace(#[trigger] raw@[i]),
        decreases end,
    {
        end = end - 1;
    }
    proof {
        lemma_trimmed_len(raw@, end as int);
    }
    let mut out: Vec<u8> = Vec::new();
    let mut i: usize = 0;
    while i < end
        invariant
            i <= end <= raw.len(),
            out@ == raw@.subrange(0, i as int),
        decreases end - i,
    {
        out.push(raw[i]);
        proof {
            assert(out@ =~= raw@.subrange(0, i + 1));
        }
        i = i + 1;
    }
    out
}

/// Whether `b` is ASCII whitespace.
pub fn is_whitespace_byte(b: u8) -> (r: bool)
    ensures
        r == is_ascii_whitespace(b),
{
    b == 0x20 || b == 0x09 || b == 0x0a || b == 0x0c || b == 0x0d
}

/// Whether two byte strings are the same, length and content.
pub fn bytes_equal(a: &[u8], b: &[u8]) -> (r: bool)
    ensures
        r == (a@ == b@),
{
    if a.len() != b.len() {
        return false;
    }
    let mut i: usize = 0;
    while i < a.len()
        invariant
            i <= a.len(),
            a.len() == b.len(),
            forall|j: int| 0 <= j < i ==> a@[j] == b@[j],
        decreases a.len() - i,
    {
        if a[i] != b[i] {
            return false;
        }
        i = i + 1;
    }
    proof {
        assert(a@ =~= b@);
    }
    true
}

/// The first `N` bytes of `src` as an array.
pub fn prefix_array<const N: usize>(src: &[u8]) -> (out: [u8; N])
    requires
        src@.len() >= N,
    ensures
        out@ == src@.subrange(0, N as int),
{
    let mut out: [u8; N] = [0u8; N];
    let mut i: usize = 0;
    while i < N
        invariant
            i <= N <= src@.len(),
            forall|j: int| 0 <= j < i ==> out@[j] == src@[j],
        decreases N - i,
    {
        out[i] = src[i];
        i = i + 1;
    }
    proof {
        assert(out@ =~= src@.subrange(0, N as int));
    }
    out
}

/// `src` as a vector of its own.
pub fn to_vec(src: &[u8]) -> (out: Vec<u8>)
    ensures
        out@ == src@,
{
    let mut out: Vec<u8> = Vec::new();
    let mut i: usize = 0;
    while i < src.len()
        invariant
            i <= src.len(),
            out@ == src@.subrange(0, i as int),
        decreases src.len() - i,
    {
        out.push(src[i]);
        proof {
            assert(out@ =~= src@.subrange(0, i + 1));
        }
        i = i + 1;
    }
    proof {
        assert(out@ =~= src@);
    }
    out
}

/// What `bytes` says as text: its characters where it is UTF-8, nothing
/// where it is not.
pub open spec fn utf8_text(bytes: Seq<u8>) -> Option<Seq<char>> {
    if valid_utf8(bytes) {
        Some(decode_utf8(bytes))
    } else {
        None
    }
}

/// Calls `String::from_utf8`, which hands back the text that the bytes
/// encode and refuses bytes that are not UTF-8.
#[verifier::external_body]
pub(crate) fn string_from_utf8(bytes: Vec<u8>) -> (r: Option<String>)
    ensures
        match r {
            Some(s) => utf8_text(bytes@) == Some(s@),
            None => utf8_text(bytes@) is None,
        },
{
    String::from_utf8(bytes).ok()
}

} // verus!

verus! {

/// Whether every byte of `bytes` is ASCII.
pub open spec fn is_ascii_bytes(bytes: Seq<u8>) -> bool {
    forall|i: int| 0 <= i < bytes.len() ==> #[trigger] bytes[i] < 128
}

/// ASCII bytes are UTF-8, and encoding the text they decode to gives them
/// back.
pub proof fn lemma_ascii_is_utf8(bytes: Seq<u8>)
    requires
        is_ascii_bytes(bytes),
    ensures
        valid_utf8(bytes),
        encode_utf8(decode_utf8(bytes)) == bytes,
{
    let chars = Seq::new(bytes.len(), |i: int| bytes[i] as char);
    assert(is_ascii_chars(chars)) by {
        assert forall|i: int| 0 <= i < chars.len() implies '\0' <= #[trigger] chars[i]
            <= '\u{7f}' by {
            assert(bytes[i] < 128);
        }
    }
    is_ascii_chars_encode_utf8(chars);
    assert(encode_utf8(chars) =~= bytes) by {
        assert forall|i: int| 0 <= i < bytes.len() implies encode_utf8(chars)[i] == bytes[i] by {
            assert(chars[i] as u8 == encode_utf8(chars)[i]);
            assert(bytes[i] < 128);
        }
    }
    encode_utf8_valid_utf8(chars);
    decode_utf8_encode_utf8(bytes);
}

/// The text whose bytes are the ASCII bytes `bytes`.
pub fn ascii_string(bytes: Vec<u8>) -> (s: String)
    requires
        is_ascii_bytes(bytes@),
    ensures
        encode_utf8(s@) == bytes@,
{
    proof {
        lemma_ascii_is_utf8(bytes@);
    }
    match string_from_utf8(bytes) {
        Some(s) => s,
        None => String::new(),
    }
}

} // verus!

verus! {

/// Whether two texts are the same.
pub fn str_equal(a: &str, b: &str) -> (r: bool)
    ensures
        r == (a@ == b@),
{
    proof {
        encode_utf8_decode_utf8(a@);
        encode_utf8_decode_utf8(b@);
    }
    bytes_equal(a.as_bytes(), b.as_bytes())
}

/// Where the bytes of an input come from.
#[derive(Debug, Clone, Copy, PartialEq, Eq, Structural)]
pub enum InputSource {
    /// Standard input.
    StandardInput,
    /// The file at the path given.
    File,
}

/// The source that the name of an input stands for: `-` is standard
/// input, anything else the path of a file.
pub open spec fn input_source_spec(input: Seq<char>) -> InputSource {
    if input == "-"@ {
        InputSource::StandardInput
    } else {
        InputSource::File
    }
}

/// Tells whether the name of an input stands for standard input or for a
/// file.
pub fn input_source(input: &str) -> (r: InputSource)
    ensures
        r == input_source_spec(input@),
{
    if str_equal(input, "-") {
        InputSource::StandardInput
    } else {
        InputSource::File
    }
}

/// The lower-case form that Unicode gives to a text.
pub uninterp spec fn lowercase_of(text: Seq<char>) -> Seq<char>;

/// Calls `str::to_lowercase`, which hands back the text in lower case.
#[verifier::external_body]
pub(crate) fn to_lowercase(text: &str) -> (lower: String)
    ensures
        lower@ == lowercase_of(text@),
{
    text.to_lowercase()
}

} // verus!

verus! {

/// A list of texts by their characters.
pub open spec fn strings_view(texts: Vec<String>) -> Seq<Seq<char>> {
    Seq::new(texts@.len(), |i: int| texts@[i]@)
}

/// A list of pairs of texts by their characters.
pub open spec fn pairs_view(pairs: Vec<(String, String)>) -> Seq<(Seq<char>, Seq<char>)> {
    Seq::new(pairs@.len(), |i: int| (pairs@[i].0@, pairs@[i].1@))
}

} // verus!
