//! The COSE algorithm identifiers that an authenticator session accepts.

use vstd::prelude::*;

verus! {

/// Whether `id` is one of the COSE algorithm identifiers that the CTAP2
/// session layer knows: the signature, key agreement, hash, key wrap and
/// content encryption algorithms of the COSE registry up to IV generation,
/// and RS1.
pub open spec fn is_cose_algorithm(id: int) -> bool {
    ||| id == -65535
    ||| -259 <= id <= -257
    ||| -47 <= id <= -25
    ||| -18 <= id <= -10
    ||| -8 <= id <= -3
    ||| 1 <= id <= 7
    ||| 10 <= id <= 15
    ||| 24 <= id <= 26
    ||| 30 <= id <= 34
}

/// A COSE algorithm identifier that the session layer knows.
#[derive(Debug, Clone, Copy, PartialEq, Eq)]
pub struct COSEAlgorithm {
    id: i64,
}

impl View for COSEAlgorithm {
    type V = int;

    closed spec fn view(&self) -> int {
        self.id as int
    }
}

impl COSEAlgorithm {
    #[verifier::type_invariant]
    spec fn known(self) -> bool {
        is_cose_algorithm(self.id as int)
    }

    /// The algorithm with the identifier `id`, if the session layer knows it.
    pub fn try_from(id: i64) -> (algorithm: Option<COSEAlgorithm>)
        ensures
            algorithm is Some <==> is_cose_algorithm(id as int),
            algorithm matches Some(a) ==> a@ == id,
    {
        if id == -65535 || (-259 <= id && id <= -257) || (-47 <= id && id <= -25) || (-18 <= id
            && id <= -10) || (-8 <= id && id <= -3) || (1 <= id && id <= 7) || (10 <= id && id
            <= 15) || (24 <= id && id <= 26) || (30 <= id && id <= 34) {
            Some(COSEAlgorithm { id })
        } else {
            None
        }
    }

    /// The identifier of the algorithm.
    pub fn id(&self) -> (id: i64)
        ensures
            id == self@,
            is_cose_algorithm(id as int),
    {
        proof {
            use_type_invariant(self);
        }
        self.id
    }
}

} // verus!
