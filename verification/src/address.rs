//! Account addresses and instruction account metadata.
//!
//! An [`Address`] holds the 32 bytes of an on-chain public key; an
//! [`AccountMeta`] says how an instruction uses one account. Both are plain
//! values, so the instruction builders of this crate can be verified
//! against exact lists of accounts.
use vstd::prelude::*;

verus! {

/// The 32 bytes of an account's public key.
#[derive(Clone, Copy, Debug)]
pub struct Address {
    pub bytes: [u8; 32],
}

impl View for Address {
    type V = Seq<u8>;

    open spec fn view(&self) -> Seq<u8> {
        self.bytes@
    }
}

impl Address {
    /// Compares two addresses byte by byte.
    pub fn same(&self, other: &Address) -> (r: bool)
        ensures
            r == (self@ == other@),
            r == (*self == *other),
    {
        let mut i: usize = 0;
        while i < 32
            invariant
                0 <= i <= 32,
                self@.len() == 32,
                other@.len() == 32,
                forall|j: int| 0 <= j < i ==> self@[j] == other@[j],
            decreases 32 - i,
        {
            if self.bytes[i] != other.bytes[i] {
                assert(self@[i as int] != other@[i as int]);
                return false;
            }
            i = i + 1;
        }
        proof {
            assert(self@ =~= other@);
            assert(self.bytes =~= other.bytes);
        }
        true
    }
}

/// What an instruction needs of one account: its address, whether the
/// transaction must carry its signature, and whether the program may change it.
#[derive(Clone, Copy, Debug)]
pub struct AccountMeta {
    pub pubkey: Address,
    pub is_signer: bool,
    pub is_writable: bool,
}

/// An account's use in an instruction, as plain values:
/// (address bytes, signer, writable).
pub type MetaView = (Seq<u8>, bool, bool);

impl View for AccountMeta {
    type V = MetaView;

    open spec fn view(&self) -> MetaView {
        (self.pubkey@, self.is_signer, self.is_writable)
    }
}

/// The views of a list of account metadata, in order.
pub open spec fn metas(v: Seq<AccountMeta>) -> Seq<MetaView> {
    v.map_values(|m: AccountMeta| m@)
}

/// A writable account.
pub open spec fn writable(key: Seq<u8>, is_signer: bool) -> MetaView {
    (key, is_signer, true)
}

/// A read-only account.
pub open spec fn readonly(key: Seq<u8>, is_signer: bool) -> MetaView {
    (key, is_signer, false)
}

/// The view of an account list has one entry per account, in order, giving
/// the account's address bytes, whether it signs, and whether it is writable;
/// `writable` and `readonly` differ only in the writable flag.
pub proof fn account_views_are_exact(v: Seq<AccountMeta>, key: Seq<u8>, is_signer: bool)
    ensures
        metas(v).len() == v.len(),
        forall|i: int|
            0 <= i < v.len() ==> #[trigger] metas(v)[i] == (
                v[i].pubkey@,
                v[i].is_signer,
                v[i].is_writable,
            ),
        writable(key, is_signer).0 == key && writable(key, is_signer).1 == is_signer && writable(key, is_signer).2,
        readonly(key, is_signer).0 == key && readonly(key, is_signer).1 == is_signer && !readonly(key, is_signer).2,
{
}

impl AccountMeta {
    /// Metadata for a writable account.
    pub fn new(pubkey: Address, is_signer: bool) -> (r: AccountMeta)
        ensures
            r@ == writable(pubkey@, is_signer),
            r.pubkey == pubkey,
            r == (AccountMeta { pubkey, is_signer, is_writable: true }),
    {
        AccountMeta { pubkey, is_signer, is_writable: true }
    }

    /// Metadata for a read-only account.
    pub fn new_readonly(pubkey: Address, is_signer: bool) -> (r: AccountMeta)
        ensures
            r@ == readonly(pubkey@, is_signer),
            r.pubkey == pubkey,
            r == (AccountMeta { pubkey, is_signer, is_writable: false }),
    {
        AccountMeta { pubkey, is_signer, is_writable: false }
    }
}

/// Appends `tail` to `v`, one account at a time.
pub fn append_metas(v: &mut Vec<AccountMeta>, tail: Vec<AccountMeta>)
    ensures
        metas(final(v)@) == metas(old(v)@) + metas(tail@),
        final(v)@ == old(v)@ + tail@,
{
    let ghost t = tail@;
    let mut tail = tail;
    v.append(&mut tail);
    proof {
        assert(metas(v@) =~= metas(old(v)@) + metas(t));
    }
}

} // verus!
