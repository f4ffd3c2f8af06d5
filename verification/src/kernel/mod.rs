pub mod cli_adapter;
pub mod cli_runner;
pub mod config;
pub mod db;
pub mod handoff;
pub mod memory;
pub mod patch;
pub mod security;
pub mod stream;
pub mod text;
pub mod trail;

use sha2::Digest;
use vstd::prelude::*;
use vstd::string::StringSliceAdditionalSpecFns;

use self::text::{
    chars_of, occurs_at, spec_ends_with, spec_starts_with, spec_trim, trim_range,
};

verus! {

broadcast use vstd::string::group_string_axioms;

// ── JSON fences ────────────────────────────────────────────────────────────

/// The text with one opening fence (```` ```json ````, ```` ```JSON ```` or
/// ```` ``` ````) removed from its start, when it has one.
pub open spec fn spec_strip_opening_fence(t: Seq<char>) -> Seq<char> {
    if spec_starts_with(t, "```json"@) {
        t.skip("```json"@.len() as int)
    } else if spec_starts_with(t, "```JSON"@) {
        t.skip("```JSON"@.len() as int)
    } else if spec_starts_with(t, "```"@) {
        t.skip("```"@.len() as int)
    } else {
        t
    }
}

/// The text with a closing fence removed from its end, when it has one.
pub open spec fn spec_strip_closing_fence(t: Seq<char>) -> Seq<char> {
    if spec_ends_with(t, "```"@) {
        t.take(t.len() - "```"@.len())
    } else {
        t
    }
}

/// What `strip_json_fences` returns: the trimmed text without a Markdown
/// code fence around it.
pub open spec fn spec_strip_json_fences(s: Seq<char>) -> Seq<char> {
    spec_trim(spec_strip_closing_fence(spec_trim(spec_strip_opening_fence(spec_trim(s)))))
}

/// Removes a Markdown code fence (with or without a `json` tag) around a
/// model's answer, and the whitespace around it.
pub fn strip_json_fences(s: &str) -> (r: &str)
    ensures
        r@ == spec_strip_json_fences(s@),
{
    let cs = chars_of(s);
    let n = cs.len();
    let (a, b) = trim_range(&cs, 0, n);
    assert(cs@.subrange(0, n as int) =~= cs@);
    let ghost t = cs@.subrange(a as int, b as int);
    let tag_lower = chars_of("```json");
    let tag_upper = chars_of("```JSON");
    let fence = chars_of("```");
    let mut c = a;
    if b - a >= tag_lower.len() && occurs_at(&cs, &tag_lower, a) {
        c = a + tag_lower.len();
    } else if b - a >= tag_upper.len() && occurs_at(&cs, &tag_upper, a) {
        c = a + tag_upper.len();
    } else if b - a >= fence.len() && occurs_at(&cs, &fence, a) {
        c = a + fence.len();
    }
    proof {
        let l1 = "```json"@.len() as int;
        let l2 = "```JSON"@.len() as int;
        let l3 = "```"@.len() as int;
        if l1 <= t.len() {
            assert(t.take(l1) =~= cs@.subrange(a as int, a + l1));
        }
        if l2 <= t.len() {
            assert(t.take(l2) =~= cs@.subrange(a as int, a + l2));
        }
        if l3 <= t.len() {
            assert(t.take(l3) =~= cs@.subrange(a as int, a + l3));
        }
        assert(spec_strip_opening_fence(t) =~= cs@.subrange(c as int, b as int));
    }
    let (d, e) = trim_range(&cs, c, b);
    let ghost v = cs@.subrange(d as int, e as int);
    let mut f = e;
    if e - d >= fence.len() && occurs_at(&cs, &fence, e - fence.len()) {
        f = e - fence.len();
    }
    proof {
        if "```"@.len() <= v.len() {
            assert(v.skip(v.len() - "```"@.len()) =~= cs@.subrange(e - "```"@.len(), e as int));
        }
        assert(spec_strip_closing_fence(v) =~= cs@.subrange(d as int, f as int));
    }
    let (g, h) = trim_range(&cs, d, f);
    s.substring_char(g, h)
}

// ── Content hashes ─────────────────────────────────────────────────────────

/// SHA-256 of `data`, as the `sha2` crate computes it.
pub uninterp spec fn sha256_of(data: Seq<u8>) -> Seq<u8>;

/// The digit of a hexadecimal nibble, in lower case.
pub open spec fn spec_hex_digit(n: u8) -> char {
    if n < 10 {
        (48 + n) as char
    } else {
        (87 + n) as char
    }
}

/// Lower-case hexadecimal encoding: two digits per byte, high nibble first.
pub open spec fn spec_hex_lower(data: Seq<u8>) -> Seq<char>
    decreases data.len(),
{
    if data.len() == 0 {
        Seq::empty()
    } else {
        seq![spec_hex_digit(data[0] / 16), spec_hex_digit(data[0] % 16)] + spec_hex_lower(
            data.drop_first(),
        )
    }
}

/// What `compute_sha256` returns for text `s`: `sha256:` and the lower-case
/// hex digest of its UTF-8 bytes.
pub open spec fn spec_sha256_label(s: &str) -> Seq<char> {
    "sha256:"@ + spec_hex_lower(sha256_of(s.spec_bytes()))
}

/// `sha2::Sha256::digest`: the SHA-256 digest of `data`. The contract names
/// the digest and states its length (32 bytes); the hash function itself is
/// not stated.
#[verifier::external_body]
fn sha256_digest(data: &[u8]) -> (r: Vec<u8>)
    ensures
        r@ == sha256_of(data@),
        r@.len() == 32,
{
    sha2::Sha256::digest(data).to_vec()
}

/// `hex::encode`: each byte as two lower-case hexadecimal digits, high
/// nibble first (the `HEX_CHARS_LOWER` table of the `hex` crate).
#[verifier::external_body]
fn hex_encode(data: &[u8]) -> (r: String)
    ensures
        r@ == spec_hex_lower(data@),
{
    hex::encode(data)
}

/// The hexadecimal text has two digits per byte.
pub proof fn lemma_hex_len(data: Seq<u8>)
    ensures
        spec_hex_lower(data).len() == 2 * data.len(),
    decreases data.len(),
{
    if data.len() > 0 {
        lemma_hex_len(data.drop_first());
    }
}

/// `sha256:` followed by the hex SHA-256 digest of the text's UTF-8 bytes.
pub fn compute_sha256(content: &str) -> (r: String)
    ensures
        r@ == spec_sha256_label(content),
        r@.len() == 71,
{
    let digest = sha256_digest(content.as_bytes());
    let hex = hex_encode(digest.as_slice());
    let mut r = String::from_str("sha256:");
    text::push_str(&mut r, hex.as_str());
    proof {
        lemma_hex_len(digest@);
        reveal_strlit("sha256:");
    }
    r
}

} // verus!
