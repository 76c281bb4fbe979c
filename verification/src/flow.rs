//! The course of a run: which action comes first, and which follows on each reply.
//!
//! Besides the address type `A`, the type `K` stands for Bitcoin public keys and the type `E` for
//! the errors of the services that the actions call. Both are passed on and never looked into.

use vstd::prelude::*;
use crate::account::{AccountId, H256};
use crate::collateral::{exchange_rate, griefing_collateral};
#[allow(unused_imports)]
use crate::account::keyring_account;
#[allow(unused_imports)]
use crate::collateral::{collateral_computable, exchange_rate_of, rounded_collateral};
use crate::command::SubCommand;
use crate::error::{Error, Failure};
use crate::fixed::FixedU128;
#[allow(unused_imports)]
use crate::fixed::ACCURACY;
use crate::payment::{given_payment, issue_payment, IssueRequest, IssueRequestStatus};
#[allow(unused_imports)]
use crate::payment::{issue_amount_fits, payment_as_given, payment_for_issue};
use crate::text::Output;

verus! {

/// The confirmations that a Bitcoin payment waits for.
pub const NUM_CONFIRMATIONS: u32 = 1;

/// Something to be done outside: a call to the parachain, a call to the Bitcoin wallet, or a line
/// of output.
#[derive(Debug, PartialEq, Eq)]
pub enum Action<A, K> {
    SetExchangeRateInfo { rate: FixedU128 },
    InsertAuthorizedOracle { oracle_id: AccountId, name: String },
    GetExchangeRateInfo,
    SetBtcTxFeesPerByte { fast: u32, half: u32, hour: u32 },
    GetBtcTxFeesPerByte,
    GetTimeNow,
    /// Connect to Bitcoin Core, and create or load the wallet.
    OpenWallet,
    /// Have the wallet make a new key.
    GetNewPublicKey,
    RegisterVault { public_key: K, collateral: u128 },
    /// Ask what an amount is worth in collateral.
    WrappedToCollateral { amount: u128 },
    /// Ask for the rate at which griefing collateral is due.
    GetIssueGriefingCollateral,
    RequestIssue { amount: u128, griefing_collateral: u128, vault_id: AccountId },
    /// Pay for an issue request from the wallet, and execute it.
    ExecuteIssue { issue_id: H256, amount_btc: u128, vault_btc_address: A },
    GetIssueById { issue_id: H256 },
    /// Pay from the wallet, without a request id in the transaction.
    SendToAddress { btc_address: A, satoshis: u64, num_confirmations: u32 },
    RequestRedeem { amount: u128, btc_address: A, vault_id: AccountId },
    GetRedeemRequest { redeem_id: H256 },
    /// Pay for a redeem request from the wallet, and execute it.
    ExecuteRedeem { redeem_id: H256, amount_btc: u128, btc_address: A },
    RequestReplace { amount: u128, griefing_collateral: u128 },
    /// Accept a replace request, with an address of the wallet.
    AcceptReplace { old_vault: AccountId, amount_btc: u128, collateral: u128 },
    /// Pay for a replace request from the wallet, and execute it.
    ExecuteReplace { replace_id: H256 },
    SetIssuePeriod { period: u32 },
    SetRedeemPeriod { period: u32 },
    SetReplacePeriod { period: u32 },
    /// Transfer the amount to each of the accounts.
    TransferToAll { accounts: Vec<AccountId>, amount: u128 },
    Print { output: Output },
}

/// What an action gave.
#[derive(Debug, PartialEq, Eq)]
pub enum Reply<A, K> {
    /// The action is done, and there is nothing to tell.
    Done,
    ExchangeRateInfo { rate: FixedU128, time: u64, delay: u64 },
    BtcTxFees { fast: u32, half: u32, hour: u32 },
    TimeNow { time: u64 },
    PublicKey { public_key: K },
    Collateral { amount: u128 },
    GriefingRate { rate: FixedU128 },
    IssueRequested { issue_id: H256, amount_btc: u128, vault_btc_address: A },
    Issue { request: IssueRequest<A> },
    Sent { txid: String },
    RedeemRequested { redeem_id: H256 },
    Redeem { amount_btc: u128, btc_address: A },
}

/// What a run remembers while an action is under way.
#[derive(Debug, PartialEq, Eq)]
pub enum State<A> {
    /// The action is the last one.
    Finishing,
    ReadingExchangeRate,
    ReadingBtcTxFees,
    ReadingTime,
    OpeningVaultWallet { collateral: u128 },
    MakingVaultKey { collateral: u128 },
    ConvertingIssueAmount { issue_amount: u128, vault: AccountId, no_execute: bool },
    ReadingGriefingRate {
        issue_amount: u128,
        amount_in_dot: u128,
        vault: AccountId,
        no_execute: bool,
    },
    RequestingIssue { no_execute: bool },
    OpeningIssueWallet { issue_id: H256, amount_btc: u128, vault_btc_address: A },
    ReadingIssue,
    OpeningPaymentWallet { btc_address: A, satoshis: u128 },
    Paying,
    RequestingRedeem,
    ReadingRedeem { redeem_id: H256 },
    OpeningRedeemWallet { redeem_id: H256, amount_btc: u128, btc_address: A },
    OpeningAcceptWallet { old_vault: AccountId, amount_btc: u128, collateral: u128 },
    OpeningReplaceWallet { replace_id: H256 },
}

/// An action to perform, and what to remember meanwhile.
#[derive(Debug, PartialEq, Eq)]
pub struct Step<A, K> {
    pub action: Action<A, K>,
    pub state: State<A>,
}

/// A step whose action is the last one of the run.
pub open spec fn last_step<A, K>(action: Action<A, K>) -> Step<A, K> {
    Step { action, state: State::Finishing }
}

/// Whether a command holds a value that its first action can be made of.
pub open spec fn command_fits<A>(command: SubCommand<A>) -> bool {
    command matches SubCommand::SetExchangeRate(info) ==> exchange_rate_of(
        info.exchange_rate,
    ) is Some
}

/// The first step of a command.
pub open spec fn first_step<A, K>(command: SubCommand<A>) -> Result<Step<A, K>, Error> {
    match command {
        SubCommand::SetExchangeRate(info) => Ok(
            last_step(
                Action::SetExchangeRateInfo { rate: exchange_rate_of(info.exchange_rate)->0 },
            ),
        ),
        SubCommand::InsertAuthorizedOracle(info) => Ok(
            authorizing_step(keyring_account(info.account), info.name),
        ),
        SubCommand::GetExchangeRate => Ok(
            Step { action: Action::GetExchangeRateInfo, state: State::ReadingExchangeRate },
        ),
        SubCommand::SetBtcTxFees(info) => Ok(
            last_step(
                Action::SetBtcTxFeesPerByte { fast: info.fast, half: info.half, hour: info.hour },
            ),
        ),
        SubCommand::GetBtcTxFees => Ok(
            Step { action: Action::GetBtcTxFeesPerByte, state: State::ReadingBtcTxFees },
        ),
        SubCommand::GetCurrentTime => Ok(
            Step { action: Action::GetTimeNow, state: State::ReadingTime },
        ),
        SubCommand::RegisterVault(info) => Ok(
            Step {
                action: Action::OpenWallet,
                state: State::OpeningVaultWallet { collateral: info.collateral },
            },
        ),
        SubCommand::RequestIssue(info) => match info.griefing_collateral {
            Some(griefing_collateral) => Ok(
                issuing_step(info.issue_amount, griefing_collateral, info.vault, info.no_execute),
            ),
            None => Ok(
                Step {
                    action: Action::WrappedToCollateral { amount: info.issue_amount },
                    state: State::ConvertingIssueAmount {
                        issue_amount: info.issue_amount,
                        vault: info.vault,
                        no_execute: info.no_execute,
                    },
                },
            ),
        },
        SubCommand::SendBitcoin(info) => match info.issue_id {
            Some(issue_id) => Ok(
                Step { action: Action::GetIssueById { issue_id }, state: State::ReadingIssue },
            ),
            None => match payment_as_given(info.btc_address, info.satoshis) {
                Ok(payment) => Ok(paying_step(payment.btc_address, payment.satoshis)),
                Err(error) => Err(error),
            },
        },
        SubCommand::RequestRedeem(info) => Ok(
            redeeming_step(info.redeem_amount, info.btc_address, keyring_account(info.vault)),
        ),
        SubCommand::ExecuteRedeem(info) => Ok(
            Step {
                action: Action::GetRedeemRequest { redeem_id: info.redeem_id },
                state: State::ReadingRedeem { redeem_id: info.redeem_id },
            },
        ),
        SubCommand::RequestReplace(info) => Ok(
            last_step(
                Action::RequestReplace {
                    amount: info.replace_amount,
                    griefing_collateral: info.griefing_collateral,
                },
            ),
        ),
        SubCommand::AcceptReplace(info) => Ok(
            Step {
                action: Action::OpenWallet,
                state: State::OpeningAcceptWallet {
                    old_vault: info.old_vault,
                    amount_btc: info.amount_btc,
                    collateral: info.collateral,
                },
            },
        ),
        SubCommand::ExecuteReplace(info) => Ok(
            Step {
                action: Action::OpenWallet,
                state: State::OpeningReplaceWallet { replace_id: info.replace_id },
            },
        ),
        SubCommand::SetIssuePeriod(info) => Ok(
            last_step(Action::SetIssuePeriod { period: info.period }),
        ),
        SubCommand::SetRedeemPeriod(info) => Ok(
            last_step(Action::SetRedeemPeriod { period: info.period }),
        ),
        SubCommand::SetReplacePeriod(info) => Ok(
            last_step(Action::SetReplacePeriod { period: info.period }),
        ),
        SubCommand::FundAccounts(info) => Ok(
            last_step(Action::TransferToAll { accounts: info.accounts, amount: info.amount }),
        ),
    }
}

/// The step that authorizes an oracle.
pub open spec fn authorizing_step<A, K>(oracle_id: AccountId, name: String) -> Step<A, K> {
    last_step(Action::InsertAuthorizedOracle { oracle_id, name })
}

/// The step that requests a redeem.
pub open spec fn redeeming_step<A, K>(
    amount: u128,
    btc_address: A,
    vault_id: AccountId,
) -> Step<A, K> {
    Step {
        action: Action::RequestRedeem { amount, btc_address, vault_id },
        state: State::RequestingRedeem,
    }
}

/// The step that requests an issue.
pub open spec fn issuing_step<A, K>(
    amount: u128,
    griefing_collateral: u128,
    vault_id: AccountId,
    no_execute: bool,
) -> Step<A, K> {
    Step {
        action: Action::RequestIssue { amount, griefing_collateral, vault_id },
        state: State::RequestingIssue { no_execute },
    }
}

/// The step that prepares a payment.
pub open spec fn paying_step<A, K>(btc_address: A, satoshis: u128) -> Step<A, K> {
    Step {
        action: Action::OpenWallet,
        state: State::OpeningPaymentWallet { btc_address, satoshis },
    }
}

/// Whether a reply is of the kind that a state waits for.
pub open spec fn awaits<A, K>(state: State<A>, reply: Reply<A, K>) -> bool {
    match state {
        State::ReadingExchangeRate => reply is ExchangeRateInfo,
        State::ReadingBtcTxFees => reply is BtcTxFees,
        State::ReadingTime => reply is TimeNow,
        State::MakingVaultKey { .. } => reply is PublicKey,
        State::ConvertingIssueAmount { .. } => reply is Collateral,
        State::ReadingGriefingRate { .. } => reply is GriefingRate,
        State::RequestingIssue { .. } => reply is IssueRequested,
        State::ReadingIssue => reply is Issue,
        State::Paying => reply is Sent,
        State::RequestingRedeem => reply is RedeemRequested,
        State::ReadingRedeem { .. } => reply is Redeem,
        _ => reply is Done,
    }
}

/// Whether the amounts that the next action would be made of can be held.
pub open spec fn amounts_fit<A, K>(state: State<A>, reply: Reply<A, K>) -> bool {
    &&& reply matches Reply::Issue { request } ==> issue_amount_fits(request)
    &&& state matches State::OpeningPaymentWallet { satoshis, .. } ==> satoshis <= u64::MAX
}

/// Whether a run in `state` can go on with `reply`. A failed action can always be replied.
pub open spec fn reply_fits<A, K, E>(state: State<A>, reply: Result<Reply<A, K>, E>) -> bool {
    reply matches Ok(reply) ==> awaits(state, reply) && amounts_fit(state, reply)
}

/// The step that follows on the reply to a successful action, or `None` where the run ends.
pub open spec fn following_step<A, K>(state: State<A>, reply: Reply<A, K>) -> Result<
    Option<Step<A, K>>,
    Error,
> {
    match (state, reply) {
        (State::ReadingExchangeRate, Reply::ExchangeRateInfo { rate, time, delay }) => Ok(
            Some(last_step(Action::Print { output: Output::ExchangeRate { rate, time, delay } })),
        ),
        (State::ReadingBtcTxFees, Reply::BtcTxFees { fast, half, hour }) => Ok(
            Some(last_step(Action::Print { output: Output::BtcTxFees { fast, half, hour } })),
        ),
        (State::ReadingTime, Reply::TimeNow { time }) => Ok(
            Some(last_step(Action::Print { output: Output::Time { time } })),
        ),
        (State::OpeningVaultWallet { collateral }, Reply::Done) => Ok(
            Some(
                Step {
                    action: Action::GetNewPublicKey,
                    state: State::MakingVaultKey { collateral },
                },
            ),
        ),
        (State::MakingVaultKey { collateral }, Reply::PublicKey { public_key }) => Ok(
            Some(last_step(Action::RegisterVault { public_key, collateral })),
        ),
        (
            State::ConvertingIssueAmount { issue_amount, vault, no_execute },
            Reply::Collateral { amount },
        ) => Ok(
            Some(
                Step {
                    action: Action::GetIssueGriefingCollateral,
                    state: State::ReadingGriefingRate {
                        issue_amount,
                        amount_in_dot: amount,
                        vault,
                        no_execute,
                    },
                },
            ),
        ),
        (
            State::ReadingGriefingRate { issue_amount, amount_in_dot, vault, no_execute },
            Reply::GriefingRate { rate },
        ) => if collateral_computable(amount_in_dot, rate) {
            Ok(
                Some(
                    issuing_step(
                        issue_amount,
                        rounded_collateral(amount_in_dot, rate) as u128,
                        vault,
                        no_execute,
                    ),
                ),
            )
        } else {
            Err(Error::MathError)
        },
        (
            State::RequestingIssue { no_execute },
            Reply::IssueRequested { issue_id, amount_btc, vault_btc_address },
        ) => if no_execute {
            Ok(Some(last_step(Action::Print { output: Output::Id { id: issue_id } })))
        } else {
            Ok(
                Some(
                    Step {
                        action: Action::OpenWallet,
                        state: State::OpeningIssueWallet {
                            issue_id,
                            amount_btc,
                            vault_btc_address,
                        },
                    },
                ),
            )
        },
        (
            State::OpeningIssueWallet { issue_id, amount_btc, vault_btc_address },
            Reply::Done,
        ) => Ok(
            Some(last_step(Action::ExecuteIssue { issue_id, amount_btc, vault_btc_address })),
        ),
        (State::ReadingIssue, Reply::Issue { request }) => match payment_for_issue(request) {
            Ok(payment) => Ok(Some(paying_step(payment.btc_address, payment.satoshis))),
            Err(error) => Err(error),
        },
        (State::OpeningPaymentWallet { btc_address, satoshis }, Reply::Done) => Ok(
            Some(
                Step {
                    action: Action::SendToAddress {
                        btc_address,
                        satoshis: satoshis as u64,
                        num_confirmations: NUM_CONFIRMATIONS,
                    },
                    state: State::Paying,
                },
            ),
        ),
        (State::Paying, Reply::Sent { txid }) => Ok(
            Some(last_step(Action::Print { output: Output::Txid { txid } })),
        ),
        (State::RequestingRedeem, Reply::RedeemRequested { redeem_id }) => Ok(
            Some(last_step(Action::Print { output: Output::Id { id: redeem_id } })),
        ),
        (State::ReadingRedeem { redeem_id }, Reply::Redeem { amount_btc, btc_address }) => Ok(
            Some(
                Step {
                    action: Action::OpenWallet,
                    state: State::OpeningRedeemWallet { redeem_id, amount_btc, btc_address },
                },
            ),
        ),
        (State::OpeningRedeemWallet { redeem_id, amount_btc, btc_address }, Reply::Done) => Ok(
            Some(last_step(Action::ExecuteRedeem { redeem_id, amount_btc, btc_address })),
        ),
        (State::OpeningAcceptWallet { old_vault, amount_btc, collateral }, Reply::Done) => Ok(
            Some(last_step(Action::AcceptReplace { old_vault, amount_btc, collateral })),
        ),
        (State::OpeningReplaceWallet { replace_id }, Reply::Done) => Ok(
            Some(last_step(Action::ExecuteReplace { replace_id })),
        ),
        _ => Ok(None),
    }
}

/// The step that follows on a reply: a failed action ends the run with its error.
pub open spec fn next_step<A, K, E>(state: State<A>, reply: Result<Reply<A, K>, E>) -> Result<
    Option<Step<A, K>>,
    Failure<E>,
> {
    match reply {
        Ok(reply) => match following_step(state, reply) {
            Ok(step) => Ok(step),
            Err(error) => Err(Failure::Refused(error)),
        },
        Err(error) => Err(Failure::Service(error)),
    }
}

/// Tells whether `start` can be called with a command.
pub fn can_start<A>(command: &SubCommand<A>) -> (res: bool)
    ensures
        res == command_fits(*command),
        *command matches SubCommand::SetExchangeRate(info) ==> res == (info.exchange_rate * ACCURACY
            <= u128::MAX * 100_000),
        !(*command is SetExchangeRate) ==> res,
{
    match command {
        SubCommand::SetExchangeRate(info) => exchange_rate(info.exchange_rate).is_some(),
        _ => true,
    }
}

/// Makes the step that authorizes an oracle.
pub fn authorize_oracle<A, K>(oracle_id: AccountId, name: String) -> (res: Step<A, K>)
    ensures
        res == authorizing_step::<A, K>(oracle_id, name),
        res.action == (Action::<A, K>::InsertAuthorizedOracle { oracle_id, name }),
        res.state is Finishing,
{
    Step { action: Action::InsertAuthorizedOracle { oracle_id, name }, state: State::Finishing }
}

/// Makes the step that requests a redeem.
pub fn request_redeem<A, K>(amount: u128, btc_address: A, vault_id: AccountId) -> (res: Step<A, K>)
    ensures
        res == redeeming_step::<A, K>(amount, btc_address, vault_id),
        res.action == (Action::<A, K>::RequestRedeem { amount, btc_address, vault_id }),
        res.state is RequestingRedeem,
{
    Step {
        action: Action::RequestRedeem { amount, btc_address, vault_id },
        state: State::RequestingRedeem,
    }
}

/// Begins a run: the first action, or the reason to refuse the command.
pub fn start<A, K>(command: SubCommand<A>) -> (res: Result<Step<A, K>, Error>)
    requires
        command_fits(command),
    ensures
        res == first_step::<A, K>(command),
        command matches SubCommand::SetExchangeRate(info) ==> (res matches Ok(step)
            && step.action matches Action::SetExchangeRateInfo { rate } && rate.inner * 100_000
            == info.exchange_rate * ACCURACY && step.state is Finishing),
        command matches SubCommand::InsertAuthorizedOracle(info) ==> (res matches Ok(step)
            && step.action == (Action::<A, K>::InsertAuthorizedOracle {
                oracle_id: keyring_account(info.account),
                name: info.name,
            })
            && step.state == (State::<A>::Finishing)),
        command matches SubCommand::GetExchangeRate ==> (res matches Ok(step)
            && step.action == (Action::<A, K>::GetExchangeRateInfo)
            && step.state == (State::<A>::ReadingExchangeRate)),
        command matches SubCommand::SetBtcTxFees(info) ==> (res matches Ok(step)
            && step.action == (Action::<A, K>::SetBtcTxFeesPerByte {
                fast: info.fast,
                half: info.half,
                hour: info.hour,
            })
            && step.state == (State::<A>::Finishing)),
        command matches SubCommand::GetBtcTxFees ==> (res matches Ok(step)
            && step.action == (Action::<A, K>::GetBtcTxFeesPerByte)
            && step.state == (State::<A>::ReadingBtcTxFees)),
        command matches SubCommand::GetCurrentTime ==> (res matches Ok(step)
            && step.action == (Action::<A, K>::GetTimeNow)
            && step.state == (State::<A>::ReadingTime)),
        command matches SubCommand::RegisterVault(info) ==> (res matches Ok(step)
            && step.action == (Action::<A, K>::OpenWallet)
            && step.state == (State::<A>::OpeningVaultWallet { collateral: info.collateral })),
        command matches SubCommand::RequestIssue(info) ==> info.griefing_collateral is None
            ==> (res matches Ok(step)
            && step.action == (Action::<A, K>::WrappedToCollateral { amount: info.issue_amount })
            && step.state == (State::<A>::ConvertingIssueAmount {
                issue_amount: info.issue_amount,
                vault: info.vault,
                no_execute: info.no_execute,
            })),
        command matches SubCommand::RequestIssue(info) ==> info.griefing_collateral is Some
            ==> (res matches Ok(step)
            && step.action == (Action::<A, K>::RequestIssue {
                amount: info.issue_amount,
                griefing_collateral: info.griefing_collateral->0,
                vault_id: info.vault,
            })
            && step.state == (State::<A>::RequestingIssue { no_execute: info.no_execute })),
        command matches SubCommand::SendBitcoin(info) ==> info.issue_id is Some
            ==> (res matches Ok(step)
            && step.action == (Action::<A, K>::GetIssueById { issue_id: info.issue_id->0 })
            && step.state == (State::<A>::ReadingIssue)),
        command matches SubCommand::SendBitcoin(info) ==> info.issue_id is None
            && info.btc_address is Some ==> (res matches Ok(step)
            && step.action == (Action::<A, K>::OpenWallet)
            && step.state == (State::<A>::OpeningPaymentWallet {
                btc_address: info.btc_address->0,
                satoshis: info.satoshis,
            })),
        command matches SubCommand::RequestRedeem(info) ==> (res matches Ok(step)
            && step.action == (Action::<A, K>::RequestRedeem {
                amount: info.redeem_amount,
                btc_address: info.btc_address,
                vault_id: keyring_account(info.vault),
            })
            && step.state == (State::<A>::RequestingRedeem)),
        command matches SubCommand::ExecuteRedeem(info) ==> (res matches Ok(step)
            && step.action == (Action::<A, K>::GetRedeemRequest { redeem_id: info.redeem_id })
            && step.state == (State::<A>::ReadingRedeem { redeem_id: info.redeem_id })),
        command matches SubCommand::RequestReplace(info) ==> (res matches Ok(step)
            && step.action == (Action::<A, K>::RequestReplace {
                amount: info.replace_amount,
                griefing_collateral: info.griefing_collateral,
            })
            && step.state == (State::<A>::Finishing)),
        command matches SubCommand::AcceptReplace(info) ==> (res matches Ok(step)
            && step.action == (Action::<A, K>::OpenWallet)
            && step.state == (State::<A>::OpeningAcceptWallet {
                old_vault: info.old_vault,
                amount_btc: info.amount_btc,
                collateral: info.collateral,
            })),
        command matches SubCommand::ExecuteReplace(info) ==> (res matches Ok(step)
            && step.action == (Action::<A, K>::OpenWallet)
            && step.state == (State::<A>::OpeningReplaceWallet { replace_id: info.replace_id })),
        command matches SubCommand::SetIssuePeriod(info) ==> (res matches Ok(step)
            && step.action == (Action::<A, K>::SetIssuePeriod { period: info.period })
            && step.state == (State::<A>::Finishing)),
        command matches SubCommand::SetRedeemPeriod(info) ==> (res matches Ok(step)
            && step.action == (Action::<A, K>::SetRedeemPeriod { period: info.period })
            && step.state == (State::<A>::Finishing)),
        command matches SubCommand::SetReplacePeriod(info) ==> (res matches Ok(step)
            && step.action == (Action::<A, K>::SetReplacePeriod { period: info.period })
            && step.state == (State::<A>::Finishing)),
        command matches SubCommand::FundAccounts(info) ==> (res matches Ok(step)
            && step.action == (Action::<A, K>::TransferToAll {
                accounts: info.accounts,
                amount: info.amount,
            })
            && step.state == (State::<A>::Finishing)),
        res is Err <==> (command matches SubCommand::SendBitcoin(info) && info.issue_id is None
            && info.btc_address is None),
        res matches Err(error) ==> error == Error::ExpectedBitcoinAddress,
{
    let (action, state) = match command {
        SubCommand::SetExchangeRate(info) => {
            let rate = exchange_rate(info.exchange_rate).unwrap();
            (Action::SetExchangeRateInfo { rate }, State::Finishing)
        },
        SubCommand::InsertAuthorizedOracle(info) => {
            return Ok(authorize_oracle(info.account.to_account_id(), info.name));
        },
        SubCommand::GetExchangeRate => (Action::GetExchangeRateInfo, State::ReadingExchangeRate),
        SubCommand::SetBtcTxFees(info) => (
            Action::SetBtcTxFeesPerByte { fast: info.fast, half: info.half, hour: info.hour },
            State::Finishing,
        ),
        SubCommand::GetBtcTxFees => (Action::GetBtcTxFeesPerByte, State::ReadingBtcTxFees),
        SubCommand::GetCurrentTime => (Action::GetTimeNow, State::ReadingTime),
        SubCommand::RegisterVault(info) => (
            Action::OpenWallet,
            State::OpeningVaultWallet { collateral: info.collateral },
        ),
        SubCommand::RequestIssue(info) => match info.griefing_collateral {
            Some(griefing_collateral) => (
                Action::RequestIssue {
                    amount: info.issue_amount,
                    griefing_collateral,
                    vault_id: info.vault,
                },
                State::RequestingIssue { no_execute: info.no_execute },
            ),
            None => (
                Action::WrappedToCollateral { amount: info.issue_amount },
                State::ConvertingIssueAmount {
                    issue_amount: info.issue_amount,
                    vault: info.vault,
                    no_execute: info.no_execute,
                },
            ),
        },
        SubCommand::SendBitcoin(info) => match info.issue_id {
            Some(issue_id) => (Action::GetIssueById { issue_id }, State::ReadingIssue),
            None => match given_payment(info.btc_address, info.satoshis) {
                Ok(payment) => (
                    Action::OpenWallet,
                    State::OpeningPaymentWallet {
                        btc_address: payment.btc_address,
                        satoshis: payment.satoshis,
                    },
                ),
                Err(error) => return Err(error),
            },
        },
        SubCommand::RequestRedeem(info) => {
            let vault_id = info.vault.to_account_id();
            return Ok(request_redeem(info.redeem_amount, info.btc_address, vault_id));
        },
        SubCommand::ExecuteRedeem(info) => (
            Action::GetRedeemRequest { redeem_id: info.redeem_id },
            State::ReadingRedeem { redeem_id: info.redeem_id },
        ),
        SubCommand::RequestReplace(info) => (
            Action::RequestReplace {
                amount: info.replace_amount,
                griefing_collateral: info.griefing_collateral,
            },
            State::Finishing,
        ),
        SubCommand::AcceptReplace(info) => (
            Action::OpenWallet,
            State::OpeningAcceptWallet {
                old_vault: info.old_vault,
                amount_btc: info.amount_btc,
                collateral: info.collateral,
            },
        ),
        SubCommand::ExecuteReplace(info) => (
            Action::OpenWallet,
            State::OpeningReplaceWallet { replace_id: info.replace_id },
        ),
        SubCommand::SetIssuePeriod(info) => (
            Action::SetIssuePeriod { period: info.period },
            State::Finishing,
        ),
        SubCommand::SetRedeemPeriod(info) => (
            Action::SetRedeemPeriod { period: info.period },
            State::Finishing,
        ),
        SubCommand::SetReplacePeriod(info) => (
            Action::SetReplacePeriod { period: info.period },
            State::Finishing,
        ),
        SubCommand::FundAccounts(info) => (
            Action::TransferToAll { accounts: info.accounts, amount: info.amount },
            State::Finishing,
        ),
    };
    Ok(Step { action, state })
}

/// Tells whether a reply is of the kind that a state waits for.
fn is_awaited<A, K>(state: &State<A>, reply: &Reply<A, K>) -> (res: bool)
    ensures
        res == awaits(*state, *reply),
{
    match (state, reply) {
        (State::ReadingExchangeRate, Reply::ExchangeRateInfo { .. }) => true,
        (State::ReadingBtcTxFees, Reply::BtcTxFees { .. }) => true,
        (State::ReadingTime, Reply::TimeNow { .. }) => true,
        (State::MakingVaultKey { .. }, Reply::PublicKey { .. }) => true,
        (State::ConvertingIssueAmount { .. }, Reply::Collateral { .. }) => true,
        (State::ReadingGriefingRate { .. }, Reply::GriefingRate { .. }) => true,
        (State::RequestingIssue { .. }, Reply::IssueRequested { .. }) => true,
        (State::ReadingIssue, Reply::Issue { .. }) => true,
        (State::Paying, Reply::Sent { .. }) => true,
        (State::RequestingRedeem, Reply::RedeemRequested { .. }) => true,
        (State::ReadingRedeem { .. }, Reply::Redeem { .. }) => true,
        (State::Finishing, Reply::Done) => true,
        (State::OpeningVaultWallet { .. }, Reply::Done) => true,
        (State::OpeningIssueWallet { .. }, Reply::Done) => true,
        (State::OpeningPaymentWallet { .. }, Reply::Done) => true,
        (State::OpeningRedeemWallet { .. }, Reply::Done) => true,
        (State::OpeningAcceptWallet { .. }, Reply::Done) => true,
        (State::OpeningReplaceWallet { .. }, Reply::Done) => true,
        _ => false,
    }
}

/// Tells whether `resume` can be called with a state and a reply.
pub fn can_resume<A, K, E>(state: &State<A>, reply: &Result<Reply<A, K>, E>) -> (res: bool)
    ensures
        res == reply_fits(*state, *reply),
        *reply is Err ==> res,
        *reply matches Ok(given) ==> *state is ReadingExchangeRate
            ==> res == given is ExchangeRateInfo,
        *reply matches Ok(given) ==> *state is ReadingBtcTxFees ==> res == given is BtcTxFees,
        *reply matches Ok(given) ==> *state is ReadingTime ==> res == given is TimeNow,
        *reply matches Ok(given) ==> *state is MakingVaultKey ==> res == given is PublicKey,
        *reply matches Ok(given) ==> *state is ConvertingIssueAmount ==> res == given is Collateral,
        *reply matches Ok(given) ==> *state is ReadingGriefingRate ==> res == given is GriefingRate,
        *reply matches Ok(given) ==> *state is RequestingIssue ==> res == given is IssueRequested,
        *reply matches Ok(given) ==> *state is Paying ==> res == given is Sent,
        *reply matches Ok(given) ==> *state is RequestingRedeem ==> res == given is RedeemRequested,
        *reply matches Ok(given) ==> *state is ReadingRedeem ==> res == given is Redeem,
        *reply matches Ok(given) ==> *state is Finishing ==> res == given is Done,
        *reply matches Ok(given) ==> *state is OpeningVaultWallet ==> res == given is Done,
        *reply matches Ok(given) ==> *state is OpeningIssueWallet ==> res == given is Done,
        *reply matches Ok(given) ==> *state is OpeningRedeemWallet ==> res == given is Done,
        *reply matches Ok(given) ==> *state is OpeningAcceptWallet ==> res == given is Done,
        *reply matches Ok(given) ==> *state is OpeningReplaceWallet ==> res == given is Done,
        *reply matches Ok(given) ==> *state is ReadingIssue ==> res == (given matches Reply::Issue {
            request,
        } && (request.status is Pending ==> request.amount + request.fee <= u128::MAX)),
        *reply matches Ok(given) ==> *state matches State::OpeningPaymentWallet { satoshis, .. }
            ==> res == (given is Done && satoshis <= u64::MAX),
{
    match reply {
        Ok(reply) => {
            let issue_fits = match reply {
                Reply::Issue { request } => match request.status {
                    IssueRequestStatus::Pending => request.amount <= u128::MAX - request.fee,
                    _ => true,
                },
                _ => true,
            };
            let payment_fits = match state {
                State::OpeningPaymentWallet { satoshis, .. } => *satoshis <= u64::MAX as u128,
                _ => true,
            };
            is_awaited(state, reply) && issue_fits && payment_fits
        },
        Err(_) => true,
    }
}

/// Goes on with a run after an action: the next action, `None` where the command is carried out,
/// or the reason why the run fails.
pub fn resume<A, K, E>(state: State<A>, reply: Result<Reply<A, K>, E>) -> (res: Result<
    Option<Step<A, K>>,
    Failure<E>,
>)
    requires
        reply_fits(state, reply),
    ensures
        res == next_step(state, reply),
        reply matches Err(error) ==> res == Err::<Option<Step<A, K>>, Failure<E>>(
            Failure::Service(error),
        ),
        reply is Ok ==> (state is Finishing <==> res == Ok::<Option<Step<A, K>>, Failure<E>>(None)),
        (state, reply) matches (
            State::ReadingExchangeRate,
            Ok(Reply::ExchangeRateInfo { rate, time, delay }),
        ) ==> (res matches Ok(Some(step))
            && step.action == (Action::<A, K>::Print {
                output: Output::ExchangeRate { rate, time, delay },
            })
            && step.state == (State::<A>::Finishing)),
        (state, reply) matches (
            State::ReadingBtcTxFees,
            Ok(Reply::BtcTxFees { fast, half, hour }),
        ) ==> (res matches Ok(Some(step))
            && step.action == (Action::<A, K>::Print {
                output: Output::BtcTxFees { fast, half, hour },
            })
            && step.state == (State::<A>::Finishing)),
        (state, reply) matches (
            State::ReadingTime,
            Ok(Reply::TimeNow { time }),
        ) ==> (res matches Ok(Some(step))
            && step.action == (Action::<A, K>::Print { output: Output::Time { time } })
            && step.state == (State::<A>::Finishing)),
        (state, reply) matches (
            State::OpeningVaultWallet { collateral },
            Ok(Reply::Done),
        ) ==> (res matches Ok(Some(step))
            && step.action == (Action::<A, K>::GetNewPublicKey)
            && step.state == (State::<A>::MakingVaultKey { collateral })),
        (state, reply) matches (
            State::MakingVaultKey { collateral },
            Ok(Reply::PublicKey { public_key }),
        ) ==> (res matches Ok(Some(step))
            && step.action == (Action::<A, K>::RegisterVault { public_key, collateral })
            && step.state == (State::<A>::Finishing)),
        (state, reply) matches (
            State::ConvertingIssueAmount { issue_amount, vault, no_execute },
            Ok(Reply::Collateral { amount }),
        ) ==> (res matches Ok(Some(step))
            && step.action == (Action::<A, K>::GetIssueGriefingCollateral)
            && step.state == (State::<A>::ReadingGriefingRate {
                issue_amount,
                amount_in_dot: amount,
                vault,
                no_execute,
            })),
        (state, reply) matches (
            State::RequestingIssue { no_execute },
            Ok(Reply::IssueRequested { issue_id, amount_btc, vault_btc_address }),
        ) ==> no_execute ==> (res matches Ok(Some(step))
            && step.action == (Action::<A, K>::Print { output: Output::Id { id: issue_id } })
            && step.state == (State::<A>::Finishing)),
        (state, reply) matches (
            State::RequestingIssue { no_execute },
            Ok(Reply::IssueRequested { issue_id, amount_btc, vault_btc_address }),
        ) ==> !no_execute ==> (res matches Ok(Some(step))
            && step.action == (Action::<A, K>::OpenWallet)
            && step.state == (State::<A>::OpeningIssueWallet {
                issue_id,
                amount_btc,
                vault_btc_address,
            })),
        (state, reply) matches (
            State::OpeningIssueWallet { issue_id, amount_btc, vault_btc_address },
            Ok(Reply::Done),
        ) ==> (res matches Ok(Some(step))
            && step.action == (Action::<A, K>::ExecuteIssue {
                issue_id,
                amount_btc,
                vault_btc_address,
            })
            && step.state == (State::<A>::Finishing)),
        (state, reply) matches (
            State::Paying,
            Ok(Reply::Sent { txid }),
        ) ==> (res matches Ok(Some(step))
            && step.action == (Action::<A, K>::Print { output: Output::Txid { txid } })
            && step.state == (State::<A>::Finishing)),
        (state, reply) matches (
            State::RequestingRedeem,
            Ok(Reply::RedeemRequested { redeem_id }),
        ) ==> (res matches Ok(Some(step))
            && step.action == (Action::<A, K>::Print { output: Output::Id { id: redeem_id } })
            && step.state == (State::<A>::Finishing)),
        (state, reply) matches (
            State::ReadingRedeem { redeem_id },
            Ok(Reply::Redeem { amount_btc, btc_address }),
        ) ==> (res matches Ok(Some(step))
            && step.action == (Action::<A, K>::OpenWallet)
            && step.state == (State::<A>::OpeningRedeemWallet {
                redeem_id,
                amount_btc,
                btc_address,
            })),
        (state, reply) matches (
            State::OpeningRedeemWallet { redeem_id, amount_btc, btc_address },
            Ok(Reply::Done),
        ) ==> (res matches Ok(Some(step))
            && step.action == (Action::<A, K>::ExecuteRedeem { redeem_id, amount_btc, btc_address })
            && step.state == (State::<A>::Finishing)),
        (state, reply) matches (
            State::OpeningAcceptWallet { old_vault, amount_btc, collateral },
            Ok(Reply::Done),
        ) ==> (res matches Ok(Some(step))
            && step.action == (Action::<A, K>::AcceptReplace { old_vault, amount_btc, collateral })
            && step.state == (State::<A>::Finishing)),
        (state, reply) matches (
            State::OpeningReplaceWallet { replace_id },
            Ok(Reply::Done),
        ) ==> (res matches Ok(Some(step))
            && step.action == (Action::<A, K>::ExecuteReplace { replace_id })
            && step.state == (State::<A>::Finishing)),
        (state, reply) matches (
            State::ReadingGriefingRate { issue_amount, amount_in_dot, vault, no_execute },
            Ok(Reply::GriefingRate { rate }),
        ) ==> (if amount_in_dot * ACCURACY <= u128::MAX && amount_in_dot * rate.inner + ACCURACY / 2
            <= u128::MAX {
            &&& res matches Ok(Some(step))
            &&& step.state == (State::<A>::RequestingIssue { no_execute })
            &&& step.action matches Action::RequestIssue { amount, griefing_collateral, vault_id }
            &&& amount == issue_amount
            &&& vault_id == vault
            &&& 2 * griefing_collateral * ACCURACY <= 2 * (amount_in_dot * rate.inner) + ACCURACY
            &&& 2 * (amount_in_dot * rate.inner) < 2 * griefing_collateral * ACCURACY + ACCURACY
        } else {
            res == Err::<Option<Step<A, K>>, Failure<E>>(Failure::Refused(Error::MathError))
        }),
        (state, reply) matches (
            State::ReadingIssue,
            Ok(Reply::Issue { request }),
        ) ==> (match request.status {
            IssueRequestStatus::Completed => res == Err::<Option<Step<A, K>>, Failure<E>>(
                Failure::Refused(Error::IssueCompleted),
            ),
            IssueRequestStatus::Cancelled => res == Err::<Option<Step<A, K>>, Failure<E>>(
                Failure::Refused(Error::IssueCancelled),
            ),
            IssueRequestStatus::Pending => {
                &&& res matches Ok(Some(step))
                &&& step.action is OpenWallet
                &&& step.state matches State::OpeningPaymentWallet { btc_address, satoshis }
                &&& btc_address == request.btc_address
                &&& satoshis == request.amount + request.fee
            },
        }),
        (state, reply) matches (
            State::OpeningPaymentWallet { btc_address, satoshis },
            Ok(Reply::Done),
        ) ==> {
            &&& res matches Ok(Some(step))
            &&& step.state is Paying
            &&& step.action matches Action::SendToAddress {
                btc_address: recipient,
                satoshis: sent,
                num_confirmations,
            }
            &&& recipient == btc_address
            &&& sent == satoshis
            &&& num_confirmations == 1
        },
{
    let reply = match reply {
        Ok(reply) => reply,
        Err(error) => return Err(Failure::Service(error)),
    };
    let (action, state) = match (state, reply) {
        (State::ReadingExchangeRate, Reply::ExchangeRateInfo { rate, time, delay }) => (
            Action::Print { output: Output::ExchangeRate { rate, time, delay } },
            State::Finishing,
        ),
        (State::ReadingBtcTxFees, Reply::BtcTxFees { fast, half, hour }) => (
            Action::Print { output: Output::BtcTxFees { fast, half, hour } },
            State::Finishing,
        ),
        (State::ReadingTime, Reply::TimeNow { time }) => (
            Action::Print { output: Output::Time { time } },
            State::Finishing,
        ),
        (State::OpeningVaultWallet { collateral }, Reply::Done) => (
            Action::GetNewPublicKey,
            State::MakingVaultKey { collateral },
        ),
        (State::MakingVaultKey { collateral }, Reply::PublicKey { public_key }) => (
            Action::RegisterVault { public_key, collateral },
            State::Finishing,
        ),
        (
            State::ConvertingIssueAmount { issue_amount, vault, no_execute },
            Reply::Collateral { amount },
        ) => (
            Action::GetIssueGriefingCollateral,
            State::ReadingGriefingRate { issue_amount, amount_in_dot: amount, vault, no_execute },
        ),
        (
            State::ReadingGriefingRate { issue_amount, amount_in_dot, vault, no_execute },
            Reply::GriefingRate { rate },
        ) => match griefing_collateral(amount_in_dot, &rate) {
            Ok(griefing_collateral) => (
                Action::RequestIssue {
                    amount: issue_amount,
                    griefing_collateral,
                    vault_id: vault,
                },
                State::RequestingIssue { no_execute },
            ),
            Err(error) => return Err(Failure::Refused(error)),
        },
        (
            State::RequestingIssue { no_execute },
            Reply::IssueRequested { issue_id, amount_btc, vault_btc_address },
        ) => if no_execute {
            (Action::Print { output: Output::Id { id: issue_id } }, State::Finishing)
        } else {
            (
                Action::OpenWallet,
                State::OpeningIssueWallet { issue_id, amount_btc, vault_btc_address },
            )
        },
        (
            State::OpeningIssueWallet { issue_id, amount_btc, vault_btc_address },
            Reply::Done,
        ) => (
            Action::ExecuteIssue { issue_id, amount_btc, vault_btc_address },
            State::Finishing,
        ),
        (State::ReadingIssue, Reply::Issue { request }) => match issue_payment(request) {
            Ok(payment) => (
                Action::OpenWallet,
                State::OpeningPaymentWallet {
                    btc_address: payment.btc_address,
                    satoshis: payment.satoshis,
                },
            ),
            Err(error) => return Err(Failure::Refused(error)),
        },
        (State::OpeningPaymentWallet { btc_address, satoshis }, Reply::Done) => (
            Action::SendToAddress {
                btc_address,
                satoshis: satoshis as u64,
                num_confirmations: NUM_CONFIRMATIONS,
            },
            State::Paying,
        ),
        (State::Paying, Reply::Sent { txid }) => (
            Action::Print { output: Output::Txid { txid } },
            State::Finishing,
        ),
        (State::RequestingRedeem, Reply::RedeemRequested { redeem_id }) => (
            Action::Print { output: Output::Id { id: redeem_id } },
            State::Finishing,
        ),
        (State::ReadingRedeem { redeem_id }, Reply::Redeem { amount_btc, btc_address }) => (
            Action::OpenWallet,
            State::OpeningRedeemWallet { redeem_id, amount_btc, btc_address },
        ),
        (State::OpeningRedeemWallet { redeem_id, amount_btc, btc_address }, Reply::Done) => (
            Action::ExecuteRedeem { redeem_id, amount_btc, btc_address },
            State::Finishing,
        ),
        (State::OpeningAcceptWallet { old_vault, amount_btc, collateral }, Reply::Done) => (
            Action::AcceptReplace { old_vault, amount_btc, collateral },
            State::Finishing,
        ),
        (State::OpeningReplaceWallet { replace_id }, Reply::Done) => (
            Action::ExecuteReplace { replace_id },
            State::Finishing,
        ),
        _ => return Ok(None),
    };
    Ok(Some(Step { action, state }))
}

} // verus!
