//! Content hashes and their textual forms.
use vstd::prelude::*;

use crate::interconnect::Format;

verus! {

/// A content hash: the 32 bytes of a BLAKE3 digest.
#[derive(Debug, Clone, Copy, PartialEq, Eq)]
pub struct ContentHash {
    pub bytes: [u8; 32],
}

/// The lowercase hexadecimal digit of `n`, for `0 <= n < 16`.
pub open spec fn hex_digit(n: int) -> char {
    seq!['0', '1', '2', '3', '4', '5', '6', '7', '8', '9', 'a', 'b', 'c', 'd', 'e', 'f'][n]
}

/// Two lowercase hexadecimal digits per byte, high nibble first.
pub open spec fn hex_of(b: Seq<u8>) -> Seq<char>
    decreases b.len(),
{
    if b.len() == 0 {
        Seq::<char>::empty()
    } else {
        hex_of(b.drop_last()) + seq![hex_digit(b.last() as int / 16), hex_digit(b.last() as int % 16)]
    }
}

/// Relies on `iroh_blobs::Hash::to_hex`, which writes each byte as two
/// lowercase hexadecimal digits, high nibble first.
#[verifier::external_body]
fn hash_to_hex(bytes: &[u8; 32]) -> (r: String)
    ensures
        r@ == hex_of(bytes@),
{
    iroh_blobs::Hash::from_bytes(*bytes).to_hex()
}

/// Relies on the `Display` impl of `iroh_blobs::Hash`, which writes `to_hex`.
#[verifier::external_body]
fn hash_to_display(bytes: &[u8; 32]) -> (r: String)
    ensures
        r@ == hex_of(bytes@),
{
    iroh_blobs::Hash::from_bytes(*bytes).to_string()
}

/// The hash in the requested format; both formats print lowercase hex.
pub fn print_hash(hash: &ContentHash, format: Format) -> (r: String)
    ensures
        r@ == hex_of(hash.bytes@),
{
    match format {
        Format::Hex => hash_to_hex(&hash.bytes),
        Format::Cid => hash_to_display(&hash.bytes),
    }
}

/// Name of the staging directory of a download whose root is `hash`.
pub fn staging_dir_name(hash: &ContentHash) -> (r: String)
    ensures
        r@ == ".sendme-get-"@ + hex_of(hash.bytes@),
{
    let hex = hash_to_hex(&hash.bytes);
    let prefix = String::from_str(".sendme-get-");
    prefix.concat(hex.as_str())
}

} // verus!
