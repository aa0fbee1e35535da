//! 32-byte identities: members, stored records, token mints, programs.

use vstd::prelude::*;

verus! {

/// A 32-byte identity.  The all-zero key is the "default" key, which no
/// real participant uses; treasury actions must not name it as recipient.
#[derive(Clone, Copy, Eq, Hash, Debug)]
pub struct Pubkey {
    pub bytes: [u8; 32],
}

impl View for Pubkey {
    type V = Seq<u8>;

    open spec fn view(&self) -> Seq<u8> {
        self.bytes@
    }
}

impl PartialEq for Pubkey {
    fn eq(&self, other: &Pubkey) -> (r: bool) {
        let mut i: usize = 0;
        while i < 32
            invariant
                0 <= i <= 32,
                forall|j: int| 0 <= j < i ==> self.bytes@[j] == other.bytes@[j],
            decreases 32 - i,
        {
            if self.bytes[i] != other.bytes[i] {
                return false;
            }
            i = i + 1;
        }
        proof {
            assert(self.bytes@ =~= other.bytes@);
        }
        true
    }
}

impl vstd::std_specs::cmp::PartialEqSpecImpl for Pubkey {
    open spec fn obeys_eq_spec() -> bool {
        true
    }

    open spec fn eq_spec(&self, other: &Pubkey) -> bool {
        self.bytes@ == other.bytes@
    }
}

/// The key whose 32 bytes are all zero.
pub open spec fn is_default_key(k: Pubkey) -> bool {
    forall|i: int| 0 <= i < 32 ==> k@[i] == 0u8
}

impl Default for Pubkey {
    /// The all-zero key.
    fn default() -> (r: Self)
        ensures
            is_default_key(r),
    {
        Pubkey { bytes: [0u8; 32] }
    }
}

/// Whether `k` is the all-zero key.
pub fn key_is_default(k: &Pubkey) -> (r: bool)
    ensures
        r == is_default_key(*k),
{
    let mut i: usize = 0;
    while i < 32
        invariant
            0 <= i <= 32,
            forall|j: int| 0 <= j < i ==> k.bytes@[j] == 0u8,
        decreases 32 - i,
    {
        if k.bytes[i] != 0 {
            proof {
                assert(k@[i as int] != 0u8);
            }
            return false;
        }
        i = i + 1;
    }
    true
}

} // verus!
