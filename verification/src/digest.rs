//! MD5 digests and the sidecar file they are written to, through the `md5`
//! crate.

use vstd::prelude::*;

verus! {

/// The lowercase hexadecimal rendering of the MD5 digest of a byte sequence.
pub uninterp spec fn md5_of(b: Seq<u8>) -> Seq<char>;

/// The characters lowercase hexadecimal output can hold.
pub open spec fn is_lower_hex_char(c: char) -> bool {
    ('0' <= c <= '9') || ('a' <= c <= 'f')
}

/// Relies on md5::compute and the crate's LowerHex rendering of a digest:
/// the digest is a pure function of the bytes, sixteen bytes shown as
/// thirty-two lowercase hexadecimal characters.
#[verifier::external_body]
pub fn md5_hex(bytes: &Vec<u8>) -> (r: String)
    ensures
        r@ == md5_of(bytes@),
        r@.len() == 32,
        forall|i: int| 0 <= i < r@.len() ==> is_lower_hex_char(#[trigger] r@[i]),
{
    let digest = md5::compute(bytes.as_slice());
    format!("{:x}", digest)
}

/// Law: the digest depends on the bytes alone, so equal payloads always
/// yield the same hexadecimal digest.
pub proof fn lemma_md5_deterministic(a: Seq<u8>, b: Seq<u8>)
    requires
        a == b,
    ensures
        md5_of(a) == md5_of(b),
{
}

/// The name of the sidecar file that receives a digest: the source file's
/// own name with `_md5.txt` appended.
pub fn sidecar_name(file_name: &str) -> (r: String)
    ensures
        r@ == file_name@ + "_md5.txt"@,
{
    file_name.to_owned().concat("_md5.txt")
}

/// What one digest run must produce: the digest text, which is both the
/// sidecar file's whole content and the clipboard text, and the sidecar
/// file's name.
pub struct Md5Plan {
    pub digest: String,
    pub sidecar: String,
}

/// Computes the digest of a file's bytes and the name of the sidecar file
/// to write it to. The caller reads the file before and writes the sidecar
/// after; the sidecar's whole content is exactly `digest`.
pub fn md5_plan(file_name: &str, bytes: &Vec<u8>) -> (r: Md5Plan)
    ensures
        r.digest@ == md5_of(bytes@),
        r.sidecar@ == file_name@ + "_md5.txt"@,
{
    Md5Plan { digest: md5_hex(bytes), sidecar: sidecar_name(file_name) }
}

} // verus!
