use vstd::prelude::*;

verus! {

/// A 32-byte identity: a participant, an asset, a collection, a token account's
/// owner, the program itself, or an address derived for one of its records.
#[derive(Clone, Copy, Debug, PartialEq, Eq)]
pub struct Address {
    pub bytes: [u8; 32],
}

impl View for Address {
    type V = Seq<u8>;

    open spec fn view(&self) -> Seq<u8> {
        self.bytes@
    }
}

impl Address {
    /// The identity made of the given bytes.
    pub fn new(bytes: [u8; 32]) -> (a: Address)
        ensures
            a.bytes == bytes,
            a@ == bytes@,
    {
        Address { bytes }
    }

    /// The bytes of the identity.
    pub fn to_bytes(&self) -> (bytes: [u8; 32])
        ensures
            bytes == self.bytes,
    {
        self.bytes
    }

    /// The bytes of the identity as a seed for deriving addresses.
    pub fn to_seed(&self) -> (seed: Vec<u8>)
        ensures
            seed@ == self@,
    {
        let mut seed: Vec<u8> = Vec::new();
        let mut i: usize = 0;
        while i < 32
            invariant
                i <= 32,
                seed@ == self@.subrange(0, i as int),
            decreases 32 - i,
        {
            seed.push(self.bytes[i]);
            i += 1;
        }
        seed
    }

    /// Whether two identities are the same one.
    pub fn same(&self, other: &Address) -> (r: bool)
        ensures
            r == (*self == *other),
            r == (self@ == other@),
    {
        let mut i: usize = 0;
        while i < 32
            invariant
                i <= 32,
                forall|j: int| 0 <= j < i ==> self.bytes[j] == other.bytes[j],
            decreases 32 - i,
        {
            if self.bytes[i] != other.bytes[i] {
                return false;
            }
            i += 1;
        }
        proof {
            lemma_same_bytes(*self, *other);
        }
        true
    }
}

/// Two identities are equal exactly when their bytes are.
pub proof fn lemma_same_bytes(a: Address, b: Address)
    ensures
        (a == b) == (a@ == b@),
        (a@ == b@) == (forall|j: int| 0 <= j < 32 ==> a.bytes[j] == b.bytes[j]),
{
    if forall|j: int| 0 <= j < 32 ==> a.bytes[j] == b.bytes[j] {
        assert(a.bytes@ =~= b.bytes@);
    }
    if a@ == b@ {
        assert(a.bytes =~= b.bytes);
    }
}

} // verus!
