//! Accounts, request identifiers and the development accounts of the parachain.

use vstd::prelude::*;
use sp_keyring::AccountKeyring;

verus! {

/// The public key of an account.
#[derive(Clone, Copy, Debug, PartialEq, Eq)]
pub struct AccountId {
    pub bytes: [u8; 32],
}

/// A 256-bit identifier.
#[derive(Clone, Copy, Debug, PartialEq, Eq)]
pub struct H256 {
    pub bytes: [u8; 32],
}

/// The development accounts, whose keys anybody can derive.
#[derive(Clone, Copy, Debug, PartialEq, Eq)]
pub enum Keyring {
    Alice,
    Bob,
    Charlie,
    Dave,
    Eve,
    Ferdie,
    One,
    Two,
}

/// The account that `to_account_id` of `sp_keyring::AccountKeyring` gives for a development
/// account.
pub uninterp spec fn keyring_account(account: Keyring) -> AccountId;

/// Calls `to_account_id` of `sp_keyring::AccountKeyring`.
///
/// Claimed of it: the account depends on the development account alone, as its key pair is derived
/// from its name. `keyring_account` stands for what is derived.
#[verifier::external_body]
fn derive_account(account: Keyring) -> (res: AccountId)
    ensures
        res == keyring_account(account),
{
    let known = match account {
        Keyring::Alice => AccountKeyring::Alice,
        Keyring::Bob => AccountKeyring::Bob,
        Keyring::Charlie => AccountKeyring::Charlie,
        Keyring::Dave => AccountKeyring::Dave,
        Keyring::Eve => AccountKeyring::Eve,
        Keyring::Ferdie => AccountKeyring::Ferdie,
        Keyring::One => AccountKeyring::One,
        Keyring::Two => AccountKeyring::Two,
    };
    AccountId { bytes: known.to_account_id().into() }
}

impl Keyring {
    /// The account of a development account.
    pub fn to_account_id(self) -> (res: AccountId)
        ensures
            res == keyring_account(self),
    {
        derive_account(self)
    }
}

} // verus!
