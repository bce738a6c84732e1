//! Shared pieces: request tokens, CSV handling and e-mail reports.

pub mod csv;
pub mod email;

use vstd::prelude::*;
use sha2::Digest;
use vstd::string::StringSliceAdditionalSpecFns;

verus! {

/// Names the SHA-512 digest of a byte string.
pub uninterp spec fn spec_sha512(data: Seq<u8>) -> Seq<u8>;

/// SHA-512 of `data`, computed by `sha2::Sha512` (`new`, `update`, `finalize`).
/// The contract claims that the digest depends on the bytes alone (named by
/// `spec_sha512`) and, as `Sha512`'s output size `U64` shows, is 64 bytes long.
#[verifier::external_body]
fn sha512_digest(data: &[u8]) -> (d: Vec<u8>)
    ensures
        d@ == spec_sha512(data@),
        d@.len() == 64,
{
    let mut hasher = sha2::Sha512::new();
    hasher.update(data);
    hasher.finalize().to_vec()
}

/// The SHA-512 digest of the bearer token that a request must present.
pub struct Token([u8; 64]);

/// A presented token whose digest is not the expected one.
#[derive(Debug, PartialEq, Eq)]
pub enum TokenError {
    Invalid,
}

/// The error an HTTP handler answers with: its message.
pub struct AnyError(pub String);

impl Token {
    /// The expected digest, as bytes.
    pub closed spec fn hash(&self) -> Seq<u8> {
        self.0@
    }

    /// A token check against the SHA-512 digest `hash`.
    pub fn new(hash: [u8; 64]) -> (t: Token)
        ensures
            t.hash() == hash@,
    {
        Token(hash)
    }

    /// Accepts exactly the digest that this token holds.
    pub fn check_digest(&self, digest: &[u8]) -> (r: Result<(), TokenError>)
        ensures
            r is Ok <==> digest@ == self.hash(),
            r is Err ==> r == Err::<(), TokenError>(TokenError::Invalid),
    {
        if digest.len() != 64 {
            return Err(TokenError::Invalid);
        }
        let mut i: usize = 0;
        while i < 64
            invariant
                digest@.len() == 64,
                self.0@.len() == 64,
                i <= 64,
                forall|j: int| 0 <= j < i ==> digest@[j] == self.0@[j],
            decreases 64 - i,
        {
            if digest[i] != self.0[i] {
                return Err(TokenError::Invalid);
            }
            i = i + 1;
        }
        assert(digest@ =~= self.0@);
        Ok(())
    }

    /// Accepts a presented token exactly when its SHA-512 digest is the expected one.
    pub fn assert_valid(&self, token: &str) -> (r: Result<(), TokenError>)
        ensures
            r is Ok <==> spec_sha512(token.spec_bytes()) == self.hash(),
            r is Err ==> r == Err::<(), TokenError>(TokenError::Invalid),
    {
        let digest = sha512_digest(token.as_bytes());
        self.check_digest(digest.as_slice())
    }
}

} // verus!
