//! Who is acting on the ledger.

use vstd::prelude::*;
use vstd::std_specs::cmp::PartialEqSpecImpl;

verus! {

/// The number of bytes in an identity.
pub const IDENTITY_LEN: usize = 32;

/// An authenticated principal, known by the 32 bytes of its public key.
///
/// The ledger never checks a signature itself: whoever hands it an identity
/// vouches that the caller has proved to be that principal.
#[derive(Clone, Copy, Debug)]
pub struct Identity {
    pub bytes: [u8; IDENTITY_LEN],
}

impl View for Identity {
    type V = Seq<u8>;

    open spec fn view(&self) -> Seq<u8> {
        self.bytes@
    }
}

impl Identity {
    /// The identity made of `bytes`.
    pub fn new(bytes: [u8; IDENTITY_LEN]) -> (identity: Identity)
        ensures
            identity.bytes == bytes,
            identity@ == bytes@,
    {
        Identity { bytes }
    }
}

/// Two identities are equal when all their bytes agree.
impl PartialEq for Identity {
    fn eq(&self, other: &Identity) -> (equal: bool) {
        let mut i: usize = 0;
        while i < IDENTITY_LEN
            invariant
                i <= IDENTITY_LEN,
                forall|j: int| 0 <= j < i ==> self.bytes@[j] == other.bytes@[j],
            decreases IDENTITY_LEN - i,
        {
            if self.bytes[i] != other.bytes[i] {
                return false;
            }
            i = i + 1;
        }
        assert(self.bytes@ =~= other.bytes@);
        true
    }
}

impl PartialEqSpecImpl for Identity {
    open spec fn obeys_eq_spec() -> bool {
        true
    }

    open spec fn eq_spec(&self, other: &Identity) -> bool {
        self@ == other@
    }
}

impl Eq for Identity {

}

} // verus!
