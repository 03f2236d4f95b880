//! Content digests, written `algorithm:hex` on the wire, and the SHA-256
//! digest that the registry computes over manifests.

use bytes::Bytes;
use sha2::Digest;
use vstd::prelude::*;

use crate::buffer::{bytes_as_slice, bytes_view};

verus! {

/// A content digest: the algorithm's name and the hex of the hash value.
#[derive(Debug, Clone)]
pub struct Hash {
    pub algorithm: String,
    pub hex: String,
}

/// The wire form of a digest: `algorithm + ":" + hex`.
pub open spec fn wire_form(algorithm: Seq<char>, hex: Seq<char>) -> Seq<char> {
    algorithm + seq![':'] + hex
}

/// `sha256:`, the prefix of every digest that the registry computes.
pub open spec fn sha256_prefix() -> Seq<char> {
    seq!['s', 'h', 'a', '2', '5', '6', ':']
}

/// Why a digest could not be read.
#[derive(Debug, Clone, Copy, PartialEq, Eq, Structural)]
pub enum HashError {
    /// The text holds no `:` to split the algorithm from the hex.
    MissingSeparator,
}

impl Hash {
    /// Reads `algorithm:hex`, split at the first `:`.
    pub fn deserialize(s: &str) -> (r: Result<Hash, HashError>)
        ensures
            r is Ok <==> s@.contains(':'),
            r matches Ok(h) ==> s@ == wire_form(h.algorithm@, h.hex@) && !h.algorithm@.contains(':'),
    {
        let n = s.unicode_len();
        let mut i: usize = 0;
        while i < n
            invariant
                n == s@.len(),
                i <= n,
                forall|j: int| 0 <= j < i ==> s@[j] != ':',
            decreases n - i,
        {
            if s.get_char(i) == ':' {
                let algorithm = s.substring_char(0, i).to_owned();
                let hex = s.substring_char(i + 1, n).to_owned();
                proof {
                    assert(s@ =~= wire_form(algorithm@, hex@));
                    assert(!algorithm@.contains(':')) by {
                        assert forall|j: int| 0 <= j < algorithm@.len() implies algorithm@[j] != ':' by {
                            assert(algorithm@[j] == s@[j]);
                        }
                    }
                }
                return Ok(Hash { algorithm, hex });
            }
            i = i + 1;
        }
        Err(HashError::MissingSeparator)
    }

    /// A copy of this digest.
    pub fn duplicate(&self) -> (r: Hash)
        ensures
            r.algorithm@ == self.algorithm@,
            r.hex@ == self.hex@,
    {
        Hash { algorithm: self.algorithm.clone(), hex: self.hex.clone() }
    }

    /// The wire form `algorithm:hex`.
    pub fn serialize(&self) -> (r: String)
        ensures
            r@ == wire_form(self.algorithm@, self.hex@),
    {
        let r = self.algorithm.clone().concat(":").concat(self.hex.as_str());
        proof {
            reveal_strlit(":");
        }
        r
    }
}

/// The lower-case hex of the SHA-256 hash of `b`.
pub uninterp spec fn sha256_hex(b: Seq<u8>) -> Seq<char>;

/// Relies on sha2's `Sha256::digest` for the hash of `b`, written out by the
/// hash value's `LowerHex` formatting.
#[verifier::external_body]
pub(crate) fn sha256_lower_hex(b: &[u8]) -> (r: String)
    ensures
        r@ == sha256_hex(b@),
{
    format!("{:x}", sha2::Sha256::digest(b))
}

/// `sha256`, the name of the one algorithm the registry computes.
pub open spec fn sha256_name() -> Seq<char> {
    seq!['s', 'h', 'a', '2', '5', '6']
}

/// The SHA-256 digest of `b`.
pub fn sha256_hash(b: &[u8]) -> (r: Hash)
    ensures
        r.algorithm@ == sha256_name(),
        r.hex@ == sha256_hex(b@),
{
    let hex = sha256_lower_hex(b);
    let algorithm = String::from_str("sha256");
    proof {
        reveal_strlit("sha256");
        assert("sha256"@ =~= sha256_name());
    }
    Hash { algorithm, hex }
}

/// The digest `sha256:<hex>` of the bytes held in `content`.
pub fn content_digest(content: &Bytes) -> (r: String)
    ensures
        r@ == sha256_prefix() + sha256_hex(bytes_view(*content)),
{
    let hex = sha256_lower_hex(bytes_as_slice(content));
    let r = String::from_str("sha256:").concat(hex.as_str());
    proof {
        reveal_strlit("sha256:");
        assert("sha256:"@ =~= sha256_prefix());
    }
    r
}

} // verus!
