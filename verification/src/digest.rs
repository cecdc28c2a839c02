//! Content hashes and random identifiers.

use sha2::Digest;
use vstd::prelude::*;

verus! {

/// A lower-case hexadecimal digit.
pub open spec fn is_hex(c: char) -> bool {
    ('0' <= c && c <= '9') || ('a' <= c && c <= 'f')
}

/// Name for the SHA-256 digest of a text's bytes, in lower-case hexadecimal.
pub uninterp spec fn sha256(text: Seq<char>) -> Seq<char>;

/// What every version-4 UUID in its simple form is: 32 lower-case hexadecimal
/// digits, with the version and the variant in their places.
pub open spec fn is_uuid(s: Seq<char>) -> bool {
    &&& s.len() == 32
    &&& forall|i: int| 0 <= i < 32 ==> is_hex(#[trigger] s[i])
    &&& s[12] == '4'
    &&& (s[16] == '8' || s[16] == '9' || s[16] == 'a' || s[16] == 'b')
}

/// `sha2::Sha256` over the bytes of the text, printed with `{:x}`: a function of
/// the text alone, 64 lower-case hexadecimal digits.
#[verifier::external_body]
pub(crate) fn sha256_hex(text: &str) -> (r: String)
    ensures
        r@ == sha256(text@),
        r@.len() == 64,
        forall|i: int| 0 <= i < 64 ==> is_hex(#[trigger] r@[i]),
{
    let mut hasher = sha2::Sha256::new();
    hasher.update(text.as_bytes());
    format!("{:x}", hasher.finalize())
}

/// `uuid::Uuid::new_v4` in its simple form. Which one comes is left to chance.
#[verifier::external_body]
pub(crate) fn random_uuid() -> (r: String)
    ensures
        is_uuid(r@),
{
    uuid::Uuid::new_v4().simple().to_string()
}

/// A UUID of version four has 32 characters, all of them decimal digits or one of the first
/// six lower-case letters, with the version in its thirteenth place and one of the four
/// variants in its seventeenth.
pub proof fn law_uuid_has_version_and_variant(s: Seq<char>, i: int)
    requires
        is_uuid(s),
    ensures
        s.len() == 32,
        s[12] == '4',
        '8' <= s[16] <= '9' || 'a' <= s[16] <= 'b',
        0 <= i < 32 ==> '0' <= s[i] <= '9' || 'a' <= s[i] <= 'f',
{
    if 0 <= i < 32 {
        assert(is_hex(s[i]));
    }
}

/// The hexadecimal digits are the ten decimal ones and the six letters from `a` to `f`.
pub proof fn law_hexadecimal_digits(c: char)
    ensures
        is_hex(c) <==> '0' <= c <= '9' || 'a' <= c <= 'f',
{
}

} // verus!
