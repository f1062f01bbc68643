//! Who holds a ticket: an identity is a short string of bytes, and two
//! identities are the same player exactly when their bytes agree.

use vstd::prelude::*;
use vstd::slice::slice_to_vec;

verus! {

/// No identity is longer than this many bytes.
pub const MAX_ID_LENGTH: usize = 29;

/// The identity of a player, of a caller or of a winner.
#[derive(Debug, PartialEq, Eq, Hash)]
pub struct PlayerId {
    bytes: Vec<u8>,
}

impl View for PlayerId {
    type V = Seq<u8>;

    closed spec fn view(&self) -> Seq<u8> {
        self.bytes@
    }
}

/// The bytes of the identity that stands for nobody.
pub open spec fn nobody() -> Seq<u8> {
    seq![4u8]
}

/// The bytes of `candid::Principal::anonymous()`: the identity that stands for
/// "nobody" is the single byte 4.
#[verifier::external_body]
fn anonymous_bytes() -> (bytes: Vec<u8>)
    ensures
        bytes@ == nobody(),
{
    candid::Principal::anonymous().as_slice().to_vec()
}

impl PlayerId {
    #[verifier::type_invariant]
    spec fn bounded(self) -> bool {
        self.bytes@.len() <= MAX_ID_LENGTH
    }

    /// The identity with the given bytes, or `None` where they are too many.
    pub fn from_slice(bytes: &[u8]) -> (id: Option<PlayerId>)
        ensures
            bytes@.len() > MAX_ID_LENGTH ==> id is None,
            bytes@.len() <= MAX_ID_LENGTH ==> id is Some && id->0@ == bytes@,
    {
        if bytes.len() > MAX_ID_LENGTH {
            None
        } else {
            Some(PlayerId { bytes: slice_to_vec(bytes) })
        }
    }

    /// The identity that stands for nobody: a round carries it as its winner
    /// until a claim succeeds.
    pub fn anonymous() -> (id: PlayerId)
        ensures
            id@ == nobody(),
    {
        PlayerId { bytes: anonymous_bytes() }
    }

    /// The bytes of the identity.
    pub fn as_slice(&self) -> (bytes: &[u8])
        ensures
            bytes@ == self@,
            bytes@.len() <= MAX_ID_LENGTH,
    {
        proof {
            use_type_invariant(self);
        }
        self.bytes.as_slice()
    }

    /// Whether both identities are the same player.
    pub fn same(&self, other: &PlayerId) -> (equal: bool)
        ensures
            equal == (self@ == other@),
    {
        if self.bytes.len() != other.bytes.len() {
            return false;
        }
        let mut i: usize = 0;
        while i < self.bytes.len()
            invariant
                i <= self.bytes.len(),
                self.bytes.len() == other.bytes.len(),
                forall|k: int| 0 <= k < i ==> self.bytes@[k] == other.bytes@[k],
            decreases self.bytes.len() - i,
        {
            if self.bytes[i] != other.bytes[i] {
                return false;
            }
            i += 1;
        }
        assert(self.bytes@ =~= other.bytes@);
        true
    }
}

impl Clone for PlayerId {
    fn clone(&self) -> (copy: PlayerId)
        ensures
            copy@ == self@,
    {
        proof {
            use_type_invariant(self);
        }
        let bytes = self.bytes.clone();
        assert(bytes@ =~= self.bytes@);
        PlayerId { bytes }
    }
}

} // verus!
