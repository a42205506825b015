use vstd::prelude::*;
use vstd::string::StringSliceAdditionalSpecFns;

verus! {

/// The lower-case hexadecimal MD5 digest of a byte string.
pub uninterp spec fn md5_hex(data: Seq<u8>) -> Seq<char>;

/// Relies on md5::compute and the lower-hex form of md5::Digest: two digits for
/// each of the 16 bytes of the digest of `data`.
#[verifier::external_body]
fn md5_lower_hex(data: &[u8]) -> (r: String)
    ensures
        r@ == md5_hex(data@),
        r@.len() == 32,
{
    format!("{:x}", md5::compute(data))
}

/// The entity tag of a document: the MD5 digest of its bytes, in lower-case hexadecimal.
pub fn etag(doc: &str) -> (r: String)
    ensures
        r@ == md5_hex(doc.spec_bytes()),
        r@.len() == 32,
{
    md5_lower_hex(doc.as_bytes())
}

} // verus!
