//! Fixed-width identifiers of the chain: account addresses, signatures and block hashes.
use vstd::prelude::*;

verus! {

/// Number of bytes in an account address.
pub const PUBKEY_BYTES: usize = 32;

/// Number of bytes in a transaction signature.
pub const SIGNATURE_BYTES: usize = 64;

/// Number of bytes in a block hash.
pub const HASH_BYTES: usize = 32;

/// An account address.
#[derive(Debug, Clone, Copy, PartialEq, Eq, Hash, PartialOrd, Ord)]
pub struct Pubkey {
    pub bytes: [u8; 32],
}

/// A transaction signature.
#[derive(Debug, Clone, Copy, PartialEq, Eq, Hash, PartialOrd, Ord)]
pub struct Signature {
    pub bytes: [u8; 64],
}

/// A block hash.
#[derive(Debug, Clone, Copy, PartialEq, Eq, Hash, PartialOrd, Ord)]
pub struct BlockHash {
    pub bytes: [u8; 32],
}

impl View for Pubkey {
    type V = Seq<u8>;

    open spec fn view(&self) -> Seq<u8> {
        self.bytes@
    }
}

impl View for Signature {
    type V = Seq<u8>;

    open spec fn view(&self) -> Seq<u8> {
        self.bytes@
    }
}

impl View for BlockHash {
    type V = Seq<u8>;

    open spec fn view(&self) -> Seq<u8> {
        self.bytes@
    }
}

/// Two addresses with the same bytes are the same address.
pub proof fn lemma_pubkey_by_bytes(a: Pubkey, b: Pubkey)
    requires
        a@ == b@,
    ensures
        a == b,
{
    assert forall|i: int| 0 <= i < 32 implies a.bytes[i] == b.bytes[i] by {
        assert(a@[i] == b@[i]);
    }
    assert(a.bytes =~= b.bytes);
}

/// The address of the system program: all of its bytes are zero.
pub open spec fn system_program() -> Seq<u8> {
    Seq::new(PUBKEY_BYTES as nat, |i: int| 0u8)
}

/// The text in which `solana_pubkey::Pubkey` displays the address with these bytes.
pub uninterp spec fn base58_text(address: Seq<u8>) -> Seq<char>;

/// `solana_pubkey::Pubkey::try_from` on a slice: it accepts exactly the slices of
/// address length, and keeps their bytes in order.
#[verifier::external_body]
fn address_of_slice(bytes: &[u8]) -> (r: Option<[u8; 32]>)
    ensures
        r is Some <==> bytes@.len() == PUBKEY_BYTES,
        r matches Some(address) ==> address@ == bytes@,
{
    solana_pubkey::Pubkey::try_from(bytes).ok().map(|key| key.to_bytes())
}

/// `solana_signature::Signature::try_from` on a slice: it accepts exactly the slices of
/// signature length, and keeps their bytes in order.
#[verifier::external_body]
fn signature_of_slice(bytes: &[u8]) -> (r: Option<[u8; 64]>)
    ensures
        r is Some <==> bytes@.len() == SIGNATURE_BYTES,
        r matches Some(signature) ==> signature@ == bytes@,
{
    solana_signature::Signature::try_from(bytes).ok().map(|signature| signature.into())
}

/// `ToString::to_string` on `solana_pubkey::Pubkey`: the text of an address depends on
/// its bytes alone.
#[verifier::external_body]
fn text_of_address(bytes: &[u8; 32]) -> (r: String)
    ensures
        r@ == base58_text(bytes@),
{
    solana_pubkey::Pubkey::new_from_array(*bytes).to_string()
}

/// `solana_system_interface::program::ID`: the address of the system program.
#[verifier::external_body]
fn system_program_bytes() -> (r: [u8; 32])
    ensures
        r@ == system_program(),
{
    solana_system_interface::program::ID.to_bytes()
}

impl Pubkey {
    /// The address held by a slice, if the slice has the length of an address.
    pub fn from_slice(bytes: &[u8]) -> (r: Option<Pubkey>)
        ensures
            r is Some <==> bytes@.len() == PUBKEY_BYTES,
            r matches Some(key) ==> key@ == bytes@,
    {
        match address_of_slice(bytes) {
            Some(bytes) => Some(Pubkey { bytes }),
            None => None,
        }
    }

    /// The address in base 58.
    pub fn to_base58(&self) -> (r: String)
        ensures
            r@ == base58_text(self@),
    {
        text_of_address(&self.bytes)
    }

    /// Whether two addresses are the same.
    pub fn same(&self, other: &Pubkey) -> (r: bool)
        ensures
            r == (*self == *other),
            r == (self@ == other@),
    {
        for i in 0..PUBKEY_BYTES
            invariant
                forall|j: int| 0 <= j < i ==> self@[j] == other@[j],
        {
            if self.bytes[i] != other.bytes[i] {
                assert(self@[i as int] != other@[i as int]);
                return false;
            }
        }
        assert(self@ =~= other@);
        proof {
            lemma_pubkey_by_bytes(*self, *other);
        }
        true
    }

    /// Whether this is the address of the system program.
    pub fn is_system_program(&self) -> (r: bool)
        ensures
            r == (self@ == system_program()),
    {
        let system = Pubkey { bytes: system_program_bytes() };
        self.same(&system)
    }
}

impl Signature {
    /// The signature held by a slice, if the slice has the length of a signature.
    pub fn from_slice(bytes: &[u8]) -> (r: Option<Signature>)
        ensures
            r is Some <==> bytes@.len() == SIGNATURE_BYTES,
            r matches Some(signature) ==> signature@ == bytes@,
    {
        match signature_of_slice(bytes) {
            Some(bytes) => Some(Signature { bytes }),
            None => None,
        }
    }
}

impl BlockHash {
    /// The hash held by a slice, if the slice has the length of a hash.
    pub fn from_slice(bytes: &[u8]) -> (r: Option<BlockHash>)
        ensures
            r is Some <==> bytes@.len() == HASH_BYTES,
            r matches Some(hash) ==> hash@ == bytes@,
    {
        if bytes.len() != HASH_BYTES {
            return None;
        }
        let mut out: [u8; 32] = [0u8; 32];
        for i in 0..HASH_BYTES
            invariant
                bytes@.len() == HASH_BYTES,
                forall|j: int| 0 <= j < i ==> out@[j] == bytes@[j],
        {
            out[i] = bytes[i];
        }
        assert(out@ =~= bytes@);
        Some(BlockHash { bytes: out })
    }
}

/// A set of addresses.
#[derive(Debug, Clone)]
pub struct PubkeySet {
    keys: Vec<Pubkey>,
}

impl View for PubkeySet {
    type V = Set<Seq<u8>>;

    closed spec fn view(&self) -> Set<Seq<u8>> {
        Set::new(|address: Seq<u8>| exists|i: int| 0 <= i < self.keys@.len() && #[trigger] self.keys@[i]@ == address)
    }
}

impl PubkeySet {
    /// No address is stored twice.
    pub closed spec fn wf(&self) -> bool {
        forall|i: int, j: int|
            0 <= i < j < self.keys@.len() ==> #[trigger] self.keys@[i]@ != #[trigger] self.keys@[j]@
    }

    /// The empty set.
    pub fn new() -> (r: PubkeySet)
        ensures
            r.wf(),
            r@ == Set::<Seq<u8>>::empty(),
    {
        let r = PubkeySet { keys: Vec::new() };
        assert(r@ =~= Set::<Seq<u8>>::empty());
        r
    }

    /// Whether the set holds an address.
    pub fn contains(&self, key: &Pubkey) -> (r: bool)
        ensures
            r == self@.contains(key@),
    {
        for i in 0..self.keys.len()
            invariant
                forall|j: int| 0 <= j < i ==> #[trigger] self.keys@[j]@ != key@,
        {
            if self.keys[i].same(key) {
                assert(self.keys@[i as int]@ == key@);
                return true;
            }
        }
        false
    }

    /// Adds an address; says whether it is new.
    pub fn insert(&mut self, key: Pubkey) -> (r: bool)
        requires
            old(self).wf(),
        ensures
            final(self).wf(),
            final(self)@ == old(self)@.insert(key@),
            r == !old(self)@.contains(key@),
    {
        if self.contains(&key) {
            assert(self@ =~= self@.insert(key@));
            return false;
        }
        self.keys.push(key);
        proof {
            let before = old(self).keys@;
            let after = self.keys@;
            assert forall|address: Seq<u8>| self@.contains(address) == old(self)@.insert(key@).contains(address) by {
                if old(self)@.contains(address) {
                    let i = choose|i: int| 0 <= i < before.len() && #[trigger] before[i]@ == address;
                    assert(after[i]@ == address);
                }
                if address == key@ {
                    assert(after[before.len() as int]@ == address);
                }
                if self@.contains(address) {
                    let i = choose|i: int| 0 <= i < after.len() && #[trigger] after[i]@ == address;
                    if i < before.len() {
                        assert(before[i]@ == address);
                    }
                }
            }
            assert(self@ =~= old(self)@.insert(key@));
            assert forall|i: int, j: int| 0 <= i < j < after.len() implies #[trigger] after[i]@ != #[trigger] after[j]@ by {
                if j == before.len() {
                    assert(before[i]@ != key@);
                } else {
                    assert(before[i]@ != before[j]@);
                }
            }
        }
        true
    }

    /// Removes an address; says whether it was there.
    pub fn remove(&mut self, key: &Pubkey) -> (r: bool)
        requires
            old(self).wf(),
        ensures
            final(self).wf(),
            final(self)@ == old(self)@.remove(key@),
            r == old(self)@.contains(key@),
    {
        let mut i: usize = 0;
        while i < self.keys.len()
            invariant
                *self == *old(self),
                self.wf(),
                i <= self.keys@.len(),
                forall|j: int| 0 <= j < i ==> #[trigger] self.keys@[j]@ != key@,
            decreases self.keys@.len() - i,
        {
            if self.keys[i].same(key) {
                self.keys.swap_remove(i);
                proof {
                    let before = old(self).keys@;
                    let after = self.keys@;
                    let last = before.len() - 1;
                    assert(before[i as int]@ == key@);
                    assert forall|address: Seq<u8>|
                        self@.contains(address) == old(self)@.remove(key@).contains(address) by {
                        if old(self)@.contains(address) && address != key@ {
                            let j = choose|j: int| 0 <= j < before.len() && #[trigger] before[j]@ == address;
                            if j == last {
                                assert(after[i as int]@ == address);
                            } else {
                                assert(after[j]@ == address);
                            }
                        }
                        if self@.contains(address) {
                            let j = choose|j: int| 0 <= j < after.len() && #[trigger] after[j]@ == address;
                            if j == i {
                                assert(before[last]@ == address);
                            } else {
                                assert(before[j]@ == address);
                            }
                        }
                    }
                    assert(self@ =~= old(self)@.remove(key@));
                }
                return true;
            }
            i += 1;
        }
        assert(self@ =~= self@.remove(key@));
        false
    }
}

} // verus!
