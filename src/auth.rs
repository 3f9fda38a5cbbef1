//! The authentication gate: a single shared token.
use vstd::prelude::*;

verus! {

/// The request may go on: it carries a token and the token is the secret.
pub open spec fn token_accepted(secret: Seq<u8>, token: Option<Seq<u8>>) -> bool {
    token == Some(secret)
}

/// The byte view of an optional token.
pub open spec fn opt_bytes(o: Option<&[u8]>) -> Option<Seq<u8>> {
    match o {
        Some(t) => Some(t@),
        None => None,
    }
}

/// Byte-wise equality of two slices. Slices of one length are compared to
/// the end, whatever byte first differs, so the time taken does not tell
/// how long a matching prefix was.
pub fn bytes_eq(a: &[u8], b: &[u8]) -> (r: bool)
    ensures
        r == (a@ == b@),
{
    if a.len() != b.len() {
        return false;
    }
    let mut diff: u8 = 0;
    let mut i: usize = 0;
    while i < a.len()
        invariant
            a@.len() == b@.len(),
            0 <= i <= a@.len(),
            (diff == 0) == (forall|j: int| 0 <= j < i ==> a@[j] == b@[j]),
        decreases a@.len() - i,
    {
        let x = a[i];
        let y = b[i];
        let d = x ^ y;
        assert((d == 0) == (x == y)) by (bit_vector)
            requires
                d == x ^ y,
        ;
        assert(((diff | d) == 0) == (diff == 0 && d == 0)) by (bit_vector);
        diff = diff | d;
        i = i + 1;
    }
    proof {
        if diff == 0 {
            assert(a@ =~= b@);
        }
    }
    diff == 0
}

/// Checks the token header of a request against the configured secret.
pub fn token_matches(secret: &[u8], token: Option<&[u8]>) -> (r: bool)
    ensures
        r == token_accepted(secret@, opt_bytes(token)),
{
    match token {
        Some(t) => bytes_eq(secret, t),
        None => false,
    }
}

} // verus!
