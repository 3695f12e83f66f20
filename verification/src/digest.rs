use vstd::prelude::*;

verus! {

/// The lowercase hexadecimal SHA-256 digest of `bytes`, as
/// `cargo_util::Sha256::finish_hex` computes it.
pub uninterp spec fn sha256_hex(bytes: Seq<u8>) -> Seq<char>;

/// Calls `cargo_util::Sha256::new().update(bytes).finish_hex()`.
/// Its source hashes the bytes with `crypto_hash`'s SHA-256, copies the
/// 32-byte digest and encodes it with `hex::encode` (lowercase); the
/// contract names the result and states that it has 64 characters, each a
/// lowercase hexadecimal digit.
#[verifier::external_body]
fn cargo_sha256_hex(bytes: &[u8]) -> (digest: String)
    ensures
        digest@ == sha256_hex(bytes@),
        digest@.len() == 64,
        forall|i: int| 0 <= i < 64 ==> is_lower_hex_digit(#[trigger] digest@[i]),
{
    cargo_util::Sha256::new().update(bytes).finish_hex()
}

/// A character of `0-9a-f`.
pub open spec fn is_lower_hex_digit(c: char) -> bool {
    ('0' <= c && c <= '9') || ('a' <= c && c <= 'f')
}

/// The checksum that a registry is told of an uploaded archive: the hex
/// SHA-256 digest of the archive's bytes.
pub fn archive_checksum(archive: &[u8]) -> (cksum: String)
    ensures
        cksum@ == sha256_hex(archive@),
        cksum@.len() == 64,
        forall|i: int| 0 <= i < 64 ==> is_lower_hex_digit(#[trigger] cksum@[i]),
{
    cargo_sha256_hex(archive)
}

/// Whether the host of `url` is `crates.io`, as `crates_io::is_url_crates_io`
/// tells it.
pub uninterp spec fn url_host_is_crates_io(url: Seq<char>) -> bool;

/// Calls `crates_io::is_url_crates_io`, which parses `url` with the `url`
/// crate and tells whether its host is exactly `crates.io` (false when the
/// text does not parse). The contract names the result and states nothing
/// of its value.
#[verifier::external_body]
pub(crate) fn host_is_crates_io(url: &str) -> (b: bool)
    ensures
        b == url_host_is_crates_io(url@),
{
    crates_io::is_url_crates_io(url)
}

} // verus!
