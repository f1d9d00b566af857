//! Identities: the 32-byte names of accounts and programs, and the storage
//! keys that end in them.

use vstd::prelude::*;

verus! {

/// The name of an account.
#[derive(Clone, Copy, Debug, PartialEq, Eq, Hash)]
pub struct AccountId32(pub [u8; 32]);

impl View for AccountId32 {
    type V = Seq<u8>;

    open spec fn view(&self) -> Seq<u8> {
        self.0@
    }
}

/// The hash that names a stored program.
#[derive(Clone, Copy, Debug, PartialEq, Eq, Hash)]
pub struct H256(pub [u8; 32]);

impl View for H256 {
    type V = Seq<u8>;

    open spec fn view(&self) -> Seq<u8> {
        self.0@
    }
}

/// Whether two 32-byte values hold the same bytes.
pub fn same_bytes(a: &[u8; 32], b: &[u8; 32]) -> (same: bool)
    ensures
        same <==> a@ == b@,
{
    let mut i: usize = 0;
    while i < 32
        invariant
            i <= 32,
            forall|j: int| 0 <= j < i ==> a@[j] == b@[j],
        decreases 32 - i,
    {
        if a[i] != b[i] {
            return false;
        }
        i += 1;
    }
    assert(a@ =~= b@);
    true
}

/// The identity that a storage key of more than 32 bytes ends in.
pub open spec fn identity_of(key: Seq<u8>) -> Seq<u8> {
    key.subrange(key.len() - 32, key.len() as int)
}

/// The key of one entry of a storage map. It is longer than 32 bytes, and
/// its last 32 bytes are the identity of the entity that the entry describes.
#[derive(Debug, PartialEq, Eq)]
pub struct StorageKey {
    bytes: Vec<u8>,
}

impl View for StorageKey {
    type V = Seq<u8>;

    closed spec fn view(&self) -> Seq<u8> {
        self.bytes@
    }
}

impl StorageKey {
    #[verifier::type_invariant]
    spec fn long_enough(&self) -> bool {
        self.bytes@.len() > 32
    }

    /// Takes the bytes of a key; `None` for one too short to end in an
    /// identity.
    pub fn new(bytes: Vec<u8>) -> (key: Option<StorageKey>)
        ensures
            key is Some <==> bytes@.len() > 32,
            key matches Some(k) ==> k@ == bytes@,
    {
        if bytes.len() > 32 {
            Some(StorageKey { bytes })
        } else {
            None
        }
    }

    /// The bytes of the key.
    pub fn as_bytes(&self) -> (bytes: &[u8])
        ensures
            bytes@ == self@,
            self@.len() > 32,
    {
        proof {
            use_type_invariant(self);
        }
        self.bytes.as_slice()
    }

    /// The identity: the last 32 bytes of the key.
    pub fn identity(&self) -> (id: [u8; 32])
        ensures
            self@.len() > 32,
            id@ == identity_of(self@),
    {
        proof {
            use_type_invariant(self);
        }
        let n: usize = self.bytes.len();
        let mut id: [u8; 32] = [0u8; 32];
        let mut i: usize = 0;
        while i < 32
            invariant
                i <= 32,
                n == self.bytes@.len(),
                n > 32,
                forall|j: int| 0 <= j < i ==> id@[j] == self.bytes@[n - 32 + j],
            decreases 32 - i,
        {
            id[i] = self.bytes[n - 32 + i];
            i += 1;
        }
        assert(id@ =~= identity_of(self@));
        id
    }
}

/// Reading the identity of a key again gives the same 32 bytes: it depends
/// on the key's bytes alone.
pub proof fn lemma_identity_repeatable(first: StorageKey, second: StorageKey)
    requires
        first@ == second@,
        first@.len() > 32,
    ensures
        identity_of(first@) == identity_of(second@),
        identity_of(first@).len() == 32,
{
}

} // verus!
