//! Account addresses and authentication keys: fixed-width byte strings.

use vstd::prelude::*;

verus! {

/// Number of bytes in an account address.
pub const ADDRESS_LENGTH: usize = 16;

/// Number of bytes in an authentication key.
pub const AUTHENTICATION_KEY_LENGTH: usize = 32;

/// The address of an account. Its view is its sixteen bytes.
#[derive(Clone, Copy, Debug)]
pub struct AccountAddress {
    bytes: [u8; 16],
}

impl View for AccountAddress {
    type V = Seq<u8>;

    closed spec fn view(&self) -> Seq<u8> {
        self.bytes@
    }
}

impl PartialEq for AccountAddress {
    fn eq(&self, other: &Self) -> (equal: bool) {
        let mut i: usize = 0;
        while i < 16
            invariant
                i <= 16,
                forall|j: int| 0 <= j < i ==> self.bytes@[j] == other.bytes@[j],
            decreases 16 - i,
        {
            if self.bytes[i] != other.bytes[i] {
                return false;
            }
            i += 1;
        }
        assert(self.bytes@ =~= other.bytes@);
        true
    }
}

impl Eq for AccountAddress {

}

impl vstd::std_specs::cmp::PartialEqSpecImpl for AccountAddress {
    open spec fn obeys_eq_spec() -> bool {
        true
    }

    open spec fn eq_spec(&self, other: &Self) -> bool {
        self@ == other@
    }
}

impl AccountAddress {
    /// The address made of the given bytes.
    pub fn new(bytes: [u8; 16]) -> (address: Self)
        ensures
            address@ == bytes@,
    {
        AccountAddress { bytes }
    }

    /// The address made of the given bytes, where they are as many as an
    /// address has.
    pub fn from_slice(bytes: &[u8]) -> (address: Option<Self>)
        ensures
            match address {
                Some(made) => made@ == bytes@,
                None => bytes@.len() != ADDRESS_LENGTH,
            },
    {
        if bytes.len() != ADDRESS_LENGTH {
            return None;
        }
        let mut out: [u8; 16] = [0u8; 16];
        let mut i: usize = 0;
        while i < 16
            invariant
                i <= 16,
                bytes@.len() == 16,
                forall|j: int| 0 <= j < i ==> out@[j] == bytes@[j],
            decreases 16 - i,
        {
            out[i] = bytes[i];
            i += 1;
        }
        Some(AccountAddress { bytes: out })
    }

    /// The bytes of the address.
    pub fn to_vec(&self) -> (bytes: Vec<u8>)
        ensures
            bytes@ == self@,
    {
        let mut out: Vec<u8> = Vec::new();
        let mut i: usize = 0;
        while i < 16
            invariant
                i <= 16,
                out@ == self.bytes@.take(i as int),
            decreases 16 - i,
        {
            out.push(self.bytes[i]);
            i += 1;
        }
        out
    }

    /// An address is its bytes: two addresses with the same view are the same
    /// address, and every view has sixteen bytes.
    pub proof fn lemma_view(self, other: Self)
        ensures
            self@.len() == ADDRESS_LENGTH,
            self@ == other@ <==> self == other,
    {
        if self@ == other@ {
            assert(self.bytes == other.bytes);
        }
    }
}

/// The key that authenticates the owner of an account. Its view is its
/// thirty-two bytes: a prefix of sixteen, then the sixteen of the address that
/// the key is bound to.
#[derive(Clone, Copy, Debug)]
pub struct AuthenticationKey {
    bytes: [u8; 32],
}

impl View for AuthenticationKey {
    type V = Seq<u8>;

    closed spec fn view(&self) -> Seq<u8> {
        self.bytes@
    }
}

impl PartialEq for AuthenticationKey {
    fn eq(&self, other: &Self) -> (equal: bool) {
        let mut i: usize = 0;
        while i < 32
            invariant
                i <= 32,
                forall|j: int| 0 <= j < i ==> self.bytes@[j] == other.bytes@[j],
            decreases 32 - i,
        {
            if self.bytes[i] != other.bytes[i] {
                return false;
            }
            i += 1;
        }
        assert(self.bytes@ =~= other.bytes@);
        true
    }
}

impl Eq for AuthenticationKey {

}

impl vstd::std_specs::cmp::PartialEqSpecImpl for AuthenticationKey {
    open spec fn obeys_eq_spec() -> bool {
        true
    }

    open spec fn eq_spec(&self, other: &Self) -> bool {
        self@ == other@
    }
}

/// The bytes of the key that a fresh account gets when nobody chose one: a
/// prefix of zeros, then the address.
pub open spec fn unclaimed_key_bytes(address: Seq<u8>) -> Seq<u8> {
    Seq::new(16, |i: int| 0u8) + address
}

impl AuthenticationKey {
    /// The key made of the given bytes.
    pub fn new(bytes: [u8; 32]) -> (key: Self)
        ensures
            key@ == bytes@,
    {
        AuthenticationKey { bytes }
    }

    /// The key made of the given bytes, where they are as many as a key
    /// has.
    pub fn from_slice(bytes: &[u8]) -> (key: Option<Self>)
        ensures
            match key {
                Some(made) => made@ == bytes@,
                None => bytes@.len() != AUTHENTICATION_KEY_LENGTH,
            },
    {
        if bytes.len() != AUTHENTICATION_KEY_LENGTH {
            return None;
        }
        let mut out: [u8; 32] = [0u8; 32];
        let mut i: usize = 0;
        while i < 32
            invariant
                i <= 32,
                bytes@.len() == 32,
                forall|j: int| 0 <= j < i ==> out@[j] == bytes@[j],
            decreases 32 - i,
        {
            out[i] = bytes[i];
            i += 1;
        }
        Some(AuthenticationKey { bytes: out })
    }

    /// The key of an account that was opened on demand, see
    /// [`unclaimed_key_bytes`].
    pub fn for_address(address: &AccountAddress) -> (key: Self)
        ensures
            key@ == unclaimed_key_bytes(address@),
    {
        let mut bytes: [u8; 32] = [0u8; 32];
        let mut i: usize = 0;
        while i < 16
            invariant
                i <= 16,
                forall|j: int| 0 <= j < 16 ==> bytes@[j] == 0u8,
                forall|j: int| 16 <= j < 16 + i ==> bytes@[j] == address.bytes@[j - 16],
            decreases 16 - i,
        {
            bytes[16 + i] = address.bytes[i];
            i += 1;
        }
        AuthenticationKey { bytes }
    }

    /// The bytes of the key.
    pub fn to_vec(&self) -> (bytes: Vec<u8>)
        ensures
            bytes@ == self@,
    {
        let mut out: Vec<u8> = Vec::new();
        let mut i: usize = 0;
        while i < 32
            invariant
                i <= 32,
                out@ == self.bytes@.take(i as int),
            decreases 32 - i,
        {
            out.push(self.bytes[i]);
            i += 1;
        }
        out
    }

    /// The first half of the key.
    pub fn prefix(&self) -> (prefix: [u8; 16])
        ensures
            prefix@ == self@.subrange(0, 16),
    {
        let mut out: [u8; 16] = [0u8; 16];
        let mut i: usize = 0;
        while i < 16
            invariant
                i <= 16,
                forall|j: int| 0 <= j < i ==> out@[j] == self.bytes@[j],
            decreases 16 - i,
        {
            out[i] = self.bytes[i];
            i += 1;
        }
        out
    }

    /// The address that the key is bound to: its second half.
    pub fn derived_address(&self) -> (address: AccountAddress)
        ensures
            address@ == self@.subrange(16, 32),
    {
        let mut out: [u8; 16] = [0u8; 16];
        let mut i: usize = 0;
        while i < 16
            invariant
                i <= 16,
                forall|j: int| 0 <= j < i ==> out@[j] == self.bytes@[j + 16],
            decreases 16 - i,
        {
            out[i] = self.bytes[i + 16];
            i += 1;
        }
        AccountAddress { bytes: out }
    }

    /// A key is its bytes: two keys with the same view are the same key, and
    /// every view has thirty-two bytes.
    pub proof fn lemma_view(self, other: Self)
        ensures
            self@.len() == AUTHENTICATION_KEY_LENGTH,
            self@ == other@ <==> self == other,
    {
        if self@ == other@ {
            assert(self.bytes == other.bytes);
        }
    }

    /// The key of an account opened on demand is bound to that account.
    pub proof fn lemma_unclaimed_key_binds(key: Self, address: AccountAddress)
        requires
            key@ == unclaimed_key_bytes(address@),
        ensures
            key@.subrange(16, 32) == address@,
    {
        address.lemma_view(address);
    }
}

} // verus!
