use vstd::prelude::*;

verus! {

/// Identity of the party that owns a record: a 32-byte public key, held
/// as four 64-bit words.
///
/// The hosting environment verifies that a request really was signed by
/// this identity before handing it to the library; here the key is only
/// compared for equality, never interpreted.
#[derive(Clone, Copy, PartialEq, Eq, Structural, Debug)]
pub struct AuthorityId {
    pub w0: u64,
    pub w1: u64,
    pub w2: u64,
    pub w3: u64,
}

impl AuthorityId {
    /// The identity whose four words are all `w`: a convenience for
    /// callers and tests that only need distinguishable identities.
    pub fn from_word(w: u64) -> (a: AuthorityId)
        ensures
            a == (AuthorityId { w0: w, w1: w, w2: w, w3: w }),
    {
        AuthorityId { w0: w, w1: w, w2: w, w3: w }
    }
}

} // verus!
