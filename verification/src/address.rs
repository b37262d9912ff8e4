//! Ledger identities.

use vstd::prelude::*;

verus! {

/// A ledger identity: thirty-two opaque bytes. The all-zero identity stands
/// for "nobody" (an unset relayer, an unlinked author).
#[derive(Clone, Copy, Debug)]
pub struct Address {
    bytes: [u8; 32],
}

impl View for Address {
    type V = Seq<u8>;

    closed spec fn view(&self) -> Seq<u8> {
        self.bytes@
    }
}

impl Address {
    /// The identity whose bytes are all zero.
    pub closed spec fn spec_zero() -> Address {
        Address { bytes: vstd::array::spec_array_fill_for_copy_type::<u8, 32>(0u8) }
    }

    /// The zero identity has thirty-two bytes, each of them zero.
    pub proof fn lemma_zero_bytes()
        ensures
            Address::spec_zero()@ == Seq::new(32, |i: int| 0u8),
    {
        assert(Address::spec_zero()@ =~= Seq::new(32, |i: int| 0u8));
    }

    /// Two identities with the same bytes are the same identity.
    pub proof fn lemma_view_injective(a: Address, b: Address)
        requires
            a@ == b@,
        ensures
            a == b,
    {
        assert(a.bytes =~= b.bytes);
    }

    /// Every identity has exactly thirty-two bytes.
    pub proof fn lemma_view_len(self)
        ensures
            self@.len() == 32,
    {
    }

    /// The identity made of the given bytes.
    pub fn from_bytes(bytes: [u8; 32]) -> (r: Address)
        ensures
            r@ == bytes@,
    {
        Address { bytes }
    }

    /// The bytes of this identity.
    pub fn to_bytes(&self) -> (r: [u8; 32])
        ensures
            r@ == self@,
    {
        self.bytes
    }

    /// The all-zero identity.
    #[verifier::when_used_as_spec(spec_zero)]
    pub fn zero() -> (r: Address)
        ensures
            r == Address::spec_zero(),
    {
        Address { bytes: [0u8; 32] }
    }

    /// Whether this is the all-zero identity.
    pub fn is_zero(&self) -> (r: bool)
        ensures
            r == (*self == Address::spec_zero()),
    {
        let mut i: usize = 0;
        while i < 32
            invariant
                i <= 32,
                forall|j: int| 0 <= j < i ==> self.bytes@[j] == 0u8,
            decreases 32 - i,
        {
            if self.bytes[i] != 0 {
                return false;
            }
            i += 1;
        }
        assert(self.bytes =~= Address::spec_zero().bytes);
        true
    }
}

impl PartialEq for Address {
    fn eq(&self, other: &Address) -> (r: bool) {
        let mut i: usize = 0;
        while i < 32
            invariant
                i <= 32,
                forall|j: int| 0 <= j < i ==> self.bytes@[j] == other.bytes@[j],
            decreases 32 - i,
        {
            if self.bytes[i] != other.bytes[i] {
                return false;
            }
            i += 1;
        }
        assert(self.bytes =~= other.bytes);
        true
    }
}

impl Eq for Address {}

impl vstd::std_specs::cmp::PartialEqSpecImpl for Address {
    open spec fn obeys_eq_spec() -> bool {
        true
    }

    open spec fn eq_spec(&self, other: &Address) -> bool {
        *self == *other
    }
}

} // verus!
