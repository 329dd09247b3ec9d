//! Content addresses: the SHA-256 of a node's bytes, rendered as
//! `sha256:<lowercase hex>`.

use sha2::Digest;
use vstd::prelude::*;
use vstd::string::StringExecFns;

use crate::text::push_char;

verus! {

/// The SHA-256 hash of `data`.
pub uninterp spec fn sha256(data: Seq<u8>) -> Seq<u8>;

/// Hashes `data`.
///
/// Trusted: calls `sha2::Sha256::digest`, which computes the SHA-256 of the
/// whole input in one step; the hash is a function of the input bytes alone.
#[verifier::external_body]
pub(crate) fn sha256_bytes(data: &[u8]) -> (out: Vec<u8>)
    ensures
        out@ == sha256(data@),
{
    sha2::Sha256::digest(data).to_vec()
}

/// The lowercase hexadecimal digit of a value below sixteen.
pub open spec fn hex_digit(nibble: int) -> char {
    if nibble < 10 {
        (48 + nibble) as char
    } else {
        (87 + nibble) as char
    }
}

/// Two lowercase hexadecimal digits per byte, high half first.
pub open spec fn hex(bytes: Seq<u8>) -> Seq<char>
    decreases bytes.len(),
{
    if bytes.len() == 0 {
        Seq::empty()
    } else {
        hex(bytes.drop_last()).push(hex_digit(bytes.last() as int / 16)).push(
            hex_digit(bytes.last() as int % 16),
        )
    }
}

/// The textual digest made from a raw hash.
pub open spec fn digest_text(raw: Seq<u8>) -> Seq<char> {
    "sha256:"@ + hex(raw)
}

/// The textual digest of a node with the given bytes.
pub open spec fn digest_of_bytes(bytes: Seq<u8>) -> Seq<char> {
    digest_text(sha256(bytes))
}

fn hex_char(nibble: u8) -> (c: char)
    requires
        nibble < 16,
    ensures
        c == hex_digit(nibble as int),
{
    if nibble < 10 {
        (48 + nibble) as char
    } else {
        (87 + nibble) as char
    }
}

/// Renders a raw hash as `sha256:` followed by its lowercase hexadecimal form.
pub fn format_digest(raw: &[u8]) -> (out: String)
    ensures
        out@ == digest_text(raw@),
{
    let mut out = String::from_str("sha256:");
    let mut i: usize = 0;
    while i < raw.len()
        invariant
            i <= raw@.len(),
            out@ == "sha256:"@ + hex(raw@.subrange(0, i as int)),
        decreases raw@.len() - i,
    {
        let byte = raw[i];
        push_char(&mut out, hex_char(byte / 16));
        push_char(&mut out, hex_char(byte % 16));
        proof {
            let next = raw@.subrange(0, i + 1);
            assert(next.drop_last() =~= raw@.subrange(0, i as int));
            assert(next.last() == byte);
            assert(out@ =~= "sha256:"@ + hex(next));
        }
        i = i + 1;
    }
    assert(raw@.subrange(0, i as int) =~= raw@);
    out
}

/// The digest of a node's bytes: `sha256:` and the lowercase hexadecimal
/// SHA-256 of `bytes`.
pub fn get_digest(bytes: &[u8]) -> (out: String)
    ensures
        out@ == digest_of_bytes(bytes@),
{
    let raw = sha256_bytes(bytes);
    format_digest(raw.as_slice())
}

} // verus!
