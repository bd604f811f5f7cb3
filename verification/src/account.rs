//! Account identifiers and how one is derived from a pallet's own identifier.
use sp_runtime::traits::AccountIdConversion;
use vstd::prelude::*;

verus! {

/// The eight bytes by which a pallet is known.
#[derive(Clone, Copy, Debug, PartialEq, Eq)]
pub struct PalletId(pub [u8; 8]);

impl PalletId {
    /// What an account is derived from: the bytes of `modl`, then the identifier.
    pub open spec fn seed(self) -> Seq<u8> {
        seq![0x6du8, 0x6fu8, 0x64u8, 0x6cu8] + self.0@
    }

    /// The first `width` bytes of the seed when zeros without end follow it.
    pub open spec fn account_bytes(self, width: nat) -> Seq<u8> {
        Seq::new(width, |i: int| if i < self.seed().len() { self.seed()[i] } else { 0u8 })
    }
}

/// A type whose values name accounts, each written as a fixed number of bytes.
pub trait AccountId: Sized + Copy {
    /// How many bytes a value is written in.
    spec fn width() -> nat;

    /// The bytes of a value.
    spec fn encoded(self) -> Seq<u8>;

    /// Values with the same bytes are the same, and all have the width of the type.
    proof fn encoding_identifies(a: Self, b: Self)
        ensures
            a.encoded().len() == Self::width(),
            a.encoded() == b.encoded() ==> a == b,
    ;

    /// The account that belongs to the pallet `id`: the front of the pallet's seed, cut off or
    /// padded with zeros to the width of the type.
    fn of_pallet(id: PalletId) -> (account: Self)
        ensures
            account.encoded() == id.account_bytes(Self::width()),
    ;
}

/// Calls `sp_runtime`'s `AccountIdConversion::into_account_truncating` of a
/// `frame_support::PalletId`, for an account written in eight bytes, lowest first.
///
/// Claimed of it: the bytes of the account are those of the type identifier `modl` followed by
/// the pallet identifier, as far as they fit.
#[verifier::external_body]
fn truncated_to_u64(id: PalletId) -> (account: u64)
    ensures
        vstd::bytes::spec_u64_to_le_bytes(account) == id.account_bytes(8),
{
    frame_support::PalletId(id.0).into_account_truncating()
}

/// Calls `sp_runtime`'s `AccountIdConversion::into_account_truncating` of a
/// `frame_support::PalletId`, for an account of thirty-two bytes.
///
/// Claimed of it: the account is the type identifier `modl`, the pallet identifier, then zeros.
#[verifier::external_body]
fn padded_to_32_bytes(id: PalletId) -> (account: [u8; 32])
    ensures
        account@ == id.account_bytes(32),
{
    frame_support::PalletId(id.0).into_account_truncating()
}

impl AccountId for u64 {
    open spec fn width() -> nat {
        8
    }

    open spec fn encoded(self) -> Seq<u8> {
        vstd::bytes::spec_u64_to_le_bytes(self)
    }

    proof fn encoding_identifies(a: u64, b: u64) {
        vstd::bytes::lemma_auto_spec_u64_to_from_le_bytes();
        assert(vstd::bytes::spec_u64_from_le_bytes(vstd::bytes::spec_u64_to_le_bytes(a)) == a);
        assert(vstd::bytes::spec_u64_from_le_bytes(vstd::bytes::spec_u64_to_le_bytes(b)) == b);
    }

    fn of_pallet(id: PalletId) -> (account: u64) {
        truncated_to_u64(id)
    }
}

impl AccountId for [u8; 32] {
    open spec fn width() -> nat {
        32
    }

    open spec fn encoded(self) -> Seq<u8> {
        self@
    }

    proof fn encoding_identifies(a: [u8; 32], b: [u8; 32]) {
        if a@ == b@ {
            assert(a =~= b);
        }
    }

    fn of_pallet(id: PalletId) -> (account: [u8; 32]) {
        padded_to_32_bytes(id)
    }
}

} // verus!
