//! The commands, as they are given on the command line.
//!
//! The type `A` stands for Bitcoin addresses throughout: they are passed on and never looked into.

use vstd::prelude::*;
use crate::account::{AccountId, Keyring, H256};

verus! {

/// What to do in a run.
#[derive(Debug, PartialEq, Eq)]
pub enum SubCommand<A> {
    /// Set the exchange rate.
    SetExchangeRate(SetExchangeRateInfo),
    /// Add a new authorized oracle.
    InsertAuthorizedOracle(InsertAuthorizedOracleInfo),
    /// Get the current exchange rate.
    GetExchangeRate,
    /// Set the current estimated bitcoin transaction fees.
    SetBtcTxFees(SetBtcTxFeesInfo),
    /// Get the current estimated bitcoin transaction fees.
    GetBtcTxFees,
    /// Get the time as reported by the chain.
    GetCurrentTime,
    /// Register a new vault using the global keyring.
    RegisterVault(RegisterVaultInfo),
    /// Request issuance and transfer to vault.
    RequestIssue(RequestIssueInfo),
    /// Send BTC to an address.
    SendBitcoin(SendBitcoinInfo<A>),
    /// Request that issued tokens be burned to redeem BTC.
    RequestRedeem(RequestRedeemInfo<A>),
    /// Send BTC to user, must be called by vault.
    ExecuteRedeem(ExecuteRedeemInfo),
    /// Request another vault to takeover.
    RequestReplace(RequestReplaceInfo),
    /// Accept replace request of another vault.
    AcceptReplace(AcceptReplaceInfo),
    /// Execute replace request of another vault.
    ExecuteReplace(ExecuteReplaceInfo),
    /// Set issue period.
    SetIssuePeriod(SetIssuePeriodInfo),
    /// Set redeem period.
    SetRedeemPeriod(SetRedeemPeriodInfo),
    /// Set replace period.
    SetReplacePeriod(SetReplacePeriodInfo),
    /// Transfer collateral.
    FundAccounts(FundAccountsInfo),
}

#[derive(Debug, PartialEq, Eq)]
pub struct SetExchangeRateInfo {
    /// The rate, in hundred-thousandths.
    pub exchange_rate: u128,
}

#[derive(Debug, PartialEq, Eq)]
pub struct InsertAuthorizedOracleInfo {
    /// The development account to authorize.
    pub account: Keyring,
    /// The name to authorize it under.
    pub name: String,
}

#[derive(Debug, PartialEq, Eq)]
pub struct SetBtcTxFeesInfo {
    /// The estimated Satoshis per bytes to get into the next block.
    pub fast: u32,
    /// The estimated Satoshis per bytes to get into the next 3 blocks.
    pub half: u32,
    /// The estimated Satoshis per bytes to get into the next 6 blocks.
    pub hour: u32,
}

#[derive(Debug, PartialEq, Eq)]
pub struct RegisterVaultInfo {
    /// Collateral to secure position.
    pub collateral: u128,
}

#[derive(Debug, PartialEq, Eq)]
pub struct RequestIssueInfo {
    /// Amount to issue.
    pub issue_amount: u128,
    /// Griefing collateral for request; computed if not given.
    pub griefing_collateral: Option<u128>,
    /// The vault to issue with.
    pub vault: AccountId,
    /// Do not transfer BTC or execute the issue request.
    pub no_execute: bool,
}

#[derive(Debug, PartialEq, Eq)]
pub struct SendBitcoinInfo<A> {
    /// Recipient Bitcoin address, where no issue request is given.
    pub btc_address: Option<A>,
    /// Amount of BTC to transfer, where no issue request is given.
    pub satoshis: u128,
    /// The issue request to pay for.
    pub issue_id: Option<H256>,
}

#[derive(Debug, PartialEq, Eq)]
pub struct RequestRedeemInfo<A> {
    /// Amount to redeem.
    pub redeem_amount: u128,
    /// Bitcoin address for vault to send funds.
    pub btc_address: A,
    /// The development account of the vault to redeem with.
    pub vault: Keyring,
}

#[derive(Debug, PartialEq, Eq)]
pub struct ExecuteRedeemInfo {
    /// Redeem id for the redeem request.
    pub redeem_id: H256,
}

#[derive(Debug, PartialEq, Eq)]
pub struct RequestReplaceInfo {
    /// Amount to replace.
    pub replace_amount: u128,
    /// Griefing collateral for request.
    pub griefing_collateral: u128,
}

#[derive(Debug, PartialEq, Eq)]
pub struct AcceptReplaceInfo {
    /// Old vault to replace.
    pub old_vault: AccountId,
    /// Amount to replace.
    pub amount_btc: u128,
    /// Collateral used to back replace.
    pub collateral: u128,
}

#[derive(Debug, PartialEq, Eq)]
pub struct ExecuteReplaceInfo {
    /// Replace id for the replace request.
    pub replace_id: H256,
}

#[derive(Debug, PartialEq, Eq)]
pub struct SetIssuePeriodInfo {
    /// Period after issue requests expire.
    pub period: u32,
}

#[derive(Debug, PartialEq, Eq)]
pub struct SetRedeemPeriodInfo {
    /// Period after redeem requests expire.
    pub period: u32,
}

#[derive(Debug, PartialEq, Eq)]
pub struct SetReplacePeriodInfo {
    /// Period after replace requests expire.
    pub period: u32,
}

#[derive(Debug, PartialEq, Eq)]
pub struct FundAccountsInfo {
    /// Accounts to fund.
    pub accounts: Vec<AccountId>,
    /// DOT amount for each of them.
    pub amount: u128,
}

/// A transfer of collateral.
#[derive(Clone, Copy, Debug, PartialEq, Eq)]
pub struct Transfer {
    pub account: AccountId,
    pub amount: u128,
}

/// The transfers that fund accounts with the same amount each, in the order of the accounts.
pub fn transfers(accounts: &Vec<AccountId>, amount: u128) -> (res: Vec<Transfer>)
    ensures
        res@ == accounts@.map_values(|account: AccountId| Transfer { account, amount }),
{
    let mut res: Vec<Transfer> = Vec::new();
    for i in 0..accounts.len()
        invariant
            res@ == accounts@.take(i as int).map_values(
                |account: AccountId| Transfer { account, amount },
            ),
    {
        res.push(Transfer { account: accounts[i], amount });
        assert(accounts@.take(i + 1) =~= accounts@.take(i as int).push(accounts@[i as int]));
    }
    assert(accounts@.take(accounts@.len() as int) =~= accounts@);
    res
}

} // verus!
