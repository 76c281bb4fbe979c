//! What a run does as a whole, and the laws that hold of every run.

use vstd::prelude::*;
use crate::account::H256;
#[allow(unused_imports)]
use crate::account::keyring_account;
#[allow(unused_imports)]
use crate::collateral::{
    collateral_computable, exchange_rate_of, law_collateral_is_nearest, law_collateral_limits,
    law_exchange_rate_is_exact, rounded_collateral,
};
#[allow(unused_imports)]
use crate::command::{
    AcceptReplaceInfo, ExecuteRedeemInfo, ExecuteReplaceInfo, FundAccountsInfo,
    InsertAuthorizedOracleInfo, RegisterVaultInfo, RequestIssueInfo, RequestRedeemInfo,
    RequestReplaceInfo, SendBitcoinInfo, SetBtcTxFeesInfo, SetExchangeRateInfo,
    SetIssuePeriodInfo, SetRedeemPeriodInfo, SetReplacePeriodInfo, SubCommand,
};
use crate::error::{Error, Failure};
use crate::fixed::FixedU128;
#[allow(unused_imports)]
use crate::fixed::ACCURACY;
use crate::flow::{Action, Reply, State, Step};
#[allow(unused_imports)]
use crate::flow::{
    awaits, command_fits, first_step, following_step, next_step, reply_fits, NUM_CONFIRMATIONS,
};
use crate::payment::{IssueRequest, Payment};
#[allow(unused_imports)]
use crate::payment::{payment_as_given, payment_for_issue};
use crate::text::Output;

verus! {

/// What the services would tell in a run, and which action fails, if one does. No run asks the same
/// thing twice, so one answer to each question is enough.
pub struct Answers<A, K, E> {
    pub rate: FixedU128,
    pub rate_time: u64,
    pub rate_delay: u64,
    pub fast: u32,
    pub half: u32,
    pub hour: u32,
    pub time: u64,
    pub public_key: K,
    pub amount_in_dot: u128,
    pub griefing_rate: FixedU128,
    pub issue_id: H256,
    pub issue_amount_btc: u128,
    pub vault_btc_address: A,
    pub issue: IssueRequest<A>,
    pub txid: String,
    pub redeem_id: H256,
    pub redeem_amount_btc: u128,
    pub redeem_btc_address: A,
    /// The position of the action that fails, and its error.
    pub failure: Option<(nat, E)>,
}

/// The reply to an action that succeeds.
pub open spec fn answer<A, K, E>(answers: Answers<A, K, E>, action: Action<A, K>) -> Reply<A, K> {
    match action {
        Action::GetExchangeRateInfo => Reply::ExchangeRateInfo {
            rate: answers.rate,
            time: answers.rate_time,
            delay: answers.rate_delay,
        },
        Action::GetBtcTxFeesPerByte => Reply::BtcTxFees {
            fast: answers.fast,
            half: answers.half,
            hour: answers.hour,
        },
        Action::GetTimeNow => Reply::TimeNow { time: answers.time },
        Action::GetNewPublicKey => Reply::PublicKey { public_key: answers.public_key },
        Action::WrappedToCollateral { .. } => Reply::Collateral { amount: answers.amount_in_dot },
        Action::GetIssueGriefingCollateral => Reply::GriefingRate { rate: answers.griefing_rate },
        Action::RequestIssue { .. } => Reply::IssueRequested {
            issue_id: answers.issue_id,
            amount_btc: answers.issue_amount_btc,
            vault_btc_address: answers.vault_btc_address,
        },
        Action::GetIssueById { .. } => Reply::Issue { request: answers.issue },
        Action::SendToAddress { .. } => Reply::Sent { txid: answers.txid },
        Action::RequestRedeem { .. } => Reply::RedeemRequested { redeem_id: answers.redeem_id },
        Action::GetRedeemRequest { .. } => Reply::Redeem {
            amount_btc: answers.redeem_amount_btc,
            btc_address: answers.redeem_btc_address,
        },
        _ => Reply::Done,
    }
}

/// The actions that a run performed, in order, and how it ended.
#[verifier::ext_equal]
pub struct Run<A, K, E> {
    pub actions: Seq<Action<A, K>>,
    pub result: Result<(), Failure<E>>,
}

/// An upper bound on the actions that can still follow in a state.
pub open spec fn actions_left<A>(state: State<A>) -> nat {
    match state {
        State::Finishing => 0,
        State::ConvertingIssueAmount { .. } => 4,
        State::ReadingGriefingRate { .. } | State::ReadingIssue => 3,
        State::OpeningVaultWallet { .. } | State::RequestingIssue { .. }
        | State::OpeningPaymentWallet { .. } | State::ReadingRedeem { .. } => 2,
        _ => 1,
    }
}

/// The run that goes on with a step, after `done` other actions.
pub open spec fn run_from<A, K, E>(
    step: Step<A, K>,
    answers: Answers<A, K, E>,
    done: nat,
) -> Run<A, K, E>
    decreases actions_left(step.state),
{
    let reply = match answers.failure {
        Some((position, error)) if position == done => Err(error),
        _ => Ok(answer(answers, step.action)),
    };
    match next_step(step.state, reply) {
        Err(failure) => Run { actions: seq![step.action], result: Err(failure) },
        Ok(None) => Run { actions: seq![step.action], result: Ok(()) },
        Ok(Some(next)) => {
            let rest = run_from(next, answers, done + 1);
            Run { actions: seq![step.action] + rest.actions, result: rest.result }
        },
    }
}

/// The run of a command.
pub open spec fn run<A, K, E>(command: SubCommand<A>, answers: Answers<A, K, E>) -> Run<A, K, E> {
    match first_step::<A, K>(command) {
        Err(error) => Run { actions: seq![], result: Err(Failure::Refused(error)) },
        Ok(step) => run_from(step, answers, 0),
    }
}

/// The payment that a `SendBitcoin` command comes to.
pub open spec fn payment<A>(
    issue_id: Option<H256>,
    btc_address: Option<A>,
    satoshis: u128,
    issue: IssueRequest<A>,
) -> Result<Payment<A>, Error> {
    match issue_id {
        Some(_) => payment_for_issue(issue),
        None => payment_as_given(btc_address, satoshis),
    }
}

/// What a command amounts to while every action succeeds: its actions, and whether it is refused
/// after them.
pub open spec fn plan<A, K, E>(command: SubCommand<A>, answers: Answers<A, K, E>) -> (
    Seq<Action<A, K>>,
    Result<(), Error>,
) {
    match command {
        SubCommand::SetExchangeRate(info) => (
            seq![Action::SetExchangeRateInfo { rate: exchange_rate_of(info.exchange_rate)->0 }],
            Ok(()),
        ),
        SubCommand::InsertAuthorizedOracle(info) => (
            seq![
                Action::InsertAuthorizedOracle {
                    oracle_id: keyring_account(info.account),
                    name: info.name,
                },
            ],
            Ok(()),
        ),
        SubCommand::GetExchangeRate => (
            seq![
                Action::GetExchangeRateInfo,
                Action::Print {
                    output: Output::ExchangeRate {
                        rate: answers.rate,
                        time: answers.rate_time,
                        delay: answers.rate_delay,
                    },
                },
            ],
            Ok(()),
        ),
        SubCommand::SetBtcTxFees(info) => (
            seq![
                Action::SetBtcTxFeesPerByte { fast: info.fast, half: info.half, hour: info.hour },
            ],
            Ok(()),
        ),
        SubCommand::GetBtcTxFees => (
            seq![
                Action::GetBtcTxFeesPerByte,
                Action::Print {
                    output: Output::BtcTxFees {
                        fast: answers.fast,
                        half: answers.half,
                        hour: answers.hour,
                    },
                },
            ],
            Ok(()),
        ),
        SubCommand::GetCurrentTime => (
            seq![
                Action::GetTimeNow,
                Action::Print { output: Output::Time { time: answers.time } },
            ],
            Ok(()),
        ),
        SubCommand::RegisterVault(info) => (
            seq![
                Action::OpenWallet,
                Action::GetNewPublicKey,
                Action::RegisterVault {
                    public_key: answers.public_key,
                    collateral: info.collateral,
                },
            ],
            Ok(()),
        ),
        SubCommand::RequestIssue(info) => {
            let questions = match info.griefing_collateral {
                Some(_) => seq![],
                None => seq![
                    Action::WrappedToCollateral { amount: info.issue_amount },
                    Action::GetIssueGriefingCollateral,
                ],
            };
            if info.griefing_collateral is None && !collateral_computable(
                answers.amount_in_dot,
                answers.griefing_rate,
            ) {
                (questions, Err(Error::MathError))
            } else {
                let request = Action::RequestIssue {
                    amount: info.issue_amount,
                    griefing_collateral: match info.griefing_collateral {
                        Some(collateral) => collateral,
                        None => rounded_collateral(
                            answers.amount_in_dot,
                            answers.griefing_rate,
                        ) as u128,
                    },
                    vault_id: info.vault,
                };
                let execution = if info.no_execute {
                    seq![Action::Print { output: Output::Id { id: answers.issue_id } }]
                } else {
                    seq![
                        Action::OpenWallet,
                        Action::ExecuteIssue {
                            issue_id: answers.issue_id,
                            amount_btc: answers.issue_amount_btc,
                            vault_btc_address: answers.vault_btc_address,
                        },
                    ]
                };
                (questions + seq![request] + execution, Ok(()))
            }
        },
        SubCommand::SendBitcoin(info) => {
            let questions = match info.issue_id {
                Some(issue_id) => seq![Action::GetIssueById { issue_id }],
                None => seq![],
            };
            match payment(info.issue_id, info.btc_address, info.satoshis, answers.issue) {
                Err(error) => (questions, Err(error)),
                Ok(payment) => (
                    questions + seq![
                        Action::OpenWallet,
                        Action::SendToAddress {
                            btc_address: payment.btc_address,
                            satoshis: payment.satoshis as u64,
                            num_confirmations: NUM_CONFIRMATIONS,
                        },
                        Action::Print { output: Output::Txid { txid: answers.txid } },
                    ],
                    Ok(()),
                ),
            }
        },
        SubCommand::RequestRedeem(info) => (
            seq![
                Action::RequestRedeem {
                    amount: info.redeem_amount,
                    btc_address: info.btc_address,
                    vault_id: keyring_account(info.vault),
                },
                Action::Print { output: Output::Id { id: answers.redeem_id } },
            ],
            Ok(()),
        ),
        SubCommand::ExecuteRedeem(info) => (
            seq![
                Action::GetRedeemRequest { redeem_id: info.redeem_id },
                Action::OpenWallet,
                Action::ExecuteRedeem {
                    redeem_id: info.redeem_id,
                    amount_btc: answers.redeem_amount_btc,
                    btc_address: answers.redeem_btc_address,
                },
            ],
            Ok(()),
        ),
        SubCommand::RequestReplace(info) => (
            seq![
                Action::RequestReplace {
                    amount: info.replace_amount,
                    griefing_collateral: info.griefing_collateral,
                },
            ],
            Ok(()),
        ),
        SubCommand::AcceptReplace(info) => (
            seq![
                Action::OpenWallet,
                Action::AcceptReplace {
                    old_vault: info.old_vault,
                    amount_btc: info.amount_btc,
                    collateral: info.collateral,
                },
            ],
            Ok(()),
        ),
        SubCommand::ExecuteReplace(info) => (
            seq![Action::OpenWallet, Action::ExecuteReplace { replace_id: info.replace_id }],
            Ok(()),
        ),
        SubCommand::SetIssuePeriod(info) => (
            seq![Action::SetIssuePeriod { period: info.period }],
            Ok(()),
        ),
        SubCommand::SetRedeemPeriod(info) => (
            seq![Action::SetRedeemPeriod { period: info.period }],
            Ok(()),
        ),
        SubCommand::SetReplacePeriod(info) => (
            seq![Action::SetReplacePeriod { period: info.period }],
            Ok(()),
        ),
        SubCommand::FundAccounts(info) => (
            seq![Action::TransferToAll { accounts: info.accounts, amount: info.amount }],
            Ok(()),
        ),
    }
}

/// The run that follows a plan up to the action that fails, if one does.
pub open spec fn follow<A, K, E>(
    plan: (Seq<Action<A, K>>, Result<(), Error>),
    failure: Option<(nat, E)>,
) -> Run<A, K, E> {
    match failure {
        Some((position, error)) if position < plan.0.len() => Run {
            actions: plan.0.take(position as int + 1),
            result: Err(Failure::Service(error)),
        },
        _ => Run {
            actions: plan.0,
            result: match plan.1 {
                Ok(()) => Ok(()),
                Err(error) => Err(Failure::Refused(error)),
            },
        },
    }
}

/// The same answers, with no action that fails.
spec fn without_failure<A, K, E>(answers: Answers<A, K, E>) -> Answers<A, K, E> {
    Answers { failure: None, ..answers }
}

/// A run with a failing action is the run without one, up to that action.
proof fn lemma_failure_cuts_run<A, K, E>(step: Step<A, K>, answers: Answers<A, K, E>, done: nat)
    requires
        answers.failure is Some,
    ensures
        ({
            let whole = run_from(step, without_failure(answers), done);
            let (position, error) = answers.failure->0;
            if done <= position < done + whole.actions.len() {
                run_from(step, answers, done) == (Run {
                    actions: whole.actions.take(position - done + 1),
                    result: Err(Failure::Service(error)),
                })
            } else {
                run_from(step, answers, done) == whole
            }
        }),
    decreases actions_left(step.state),
{
    let smooth = without_failure(answers);
    let whole = run_from(step, smooth, done);
    let (position, error) = answers.failure->0;
    assert(answer(answers, step.action) == answer(smooth, step.action));
    match next_step::<A, K, E>(step.state, Ok(answer(answers, step.action))) {
        Ok(Some(next)) => {
            lemma_failure_cuts_run(next, answers, done + 1);
            let rest = run_from(next, smooth, done + 1);
            assert(whole.actions == seq![step.action] + rest.actions);
            if position == done {
                assert(whole.actions.take(1) =~= seq![step.action]);
            } else if done < position < done + whole.actions.len() {
                assert(whole.actions.take(position - done + 1) =~= seq![step.action]
                    + rest.actions.take(position - done));
            }
        },
        _ => {
            assert(whole.actions.take(1) =~= seq![step.action]);
        },
    }
}

/// A run without a failing action carries out the plan.
proof fn lemma_smooth_run<A, K, E>(command: SubCommand<A>, answers: Answers<A, K, E>)
    requires
        answers.failure is None,
    ensures
        run(command, answers) == follow(plan(command, answers), answers.failure),
{
    match command {
        SubCommand::RequestIssue(info) => {
            reveal_with_fuel(run_from, 6);
            assert(run(command, answers).actions =~= plan(command, answers).0);
        },
        SubCommand::SendBitcoin(info) => {
            reveal_with_fuel(run_from, 5);
            assert(run(command, answers).actions =~= plan(command, answers).0);
        },
        _ => {
            reveal_with_fuel(run_from, 4);
            assert(run(command, answers).actions =~= plan(command, answers).0);
        },
    }
}

/// Every run carries out the plan of its command, action by action. Where an action fails, the run
/// ends there with the error of that action, and nothing else is done.
pub proof fn law_run_follows_plan<A, K, E>(command: SubCommand<A>, answers: Answers<A, K, E>)
    ensures
        run(command, answers) == follow(plan(command, answers), answers.failure),
{
    lemma_smooth_run(command, without_failure(answers));
    assert(plan(command, answers) == plan(command, without_failure(answers)));
    if answers.failure is Some {
        if let Ok(step) = first_step::<A, K>(command) {
            lemma_failure_cuts_run(step, answers, 0);
        }
    } else {
        assert(answers == without_failure(answers));
    }
}

/// Whether a reply is of the kind that an action gives.
pub open spec fn replies_to<A, K>(action: Action<A, K>, reply: Reply<A, K>) -> bool {
    match action {
        Action::GetExchangeRateInfo => reply is ExchangeRateInfo,
        Action::GetBtcTxFeesPerByte => reply is BtcTxFees,
        Action::GetTimeNow => reply is TimeNow,
        Action::GetNewPublicKey => reply is PublicKey,
        Action::WrappedToCollateral { .. } => reply is Collateral,
        Action::GetIssueGriefingCollateral => reply is GriefingRate,
        Action::RequestIssue { .. } => reply is IssueRequested,
        Action::GetIssueById { .. } => reply is Issue,
        Action::SendToAddress { .. } => reply is Sent,
        Action::RequestRedeem { .. } => reply is RedeemRequested,
        Action::GetRedeemRequest { .. } => reply is Redeem,
        _ => reply is Done,
    }
}

/// Whether an action only asks the parachain for something, and changes nothing.
pub open spec fn is_question<A, K>(action: Action<A, K>) -> bool {
    ||| action is GetExchangeRateInfo
    ||| action is GetBtcTxFeesPerByte
    ||| action is GetTimeNow
    ||| action is WrappedToCollateral
    ||| action is GetIssueGriefingCollateral
    ||| action is GetIssueById
    ||| action is GetRedeemRequest
}

/// Whether an action needs the Bitcoin wallet to be open.
pub open spec fn needs_wallet<A, K>(action: Action<A, K>) -> bool {
    ||| action is GetNewPublicKey
    ||| action is AcceptReplace
    ||| pays(action)
}

/// Whether an action spends Bitcoin.
pub open spec fn pays<A, K>(action: Action<A, K>) -> bool {
    ||| action is SendToAddress
    ||| action is ExecuteIssue
    ||| action is ExecuteRedeem
    ||| action is ExecuteReplace
}

/// The first step of a command waits for the kind of reply that its action gives.
pub proof fn law_first_step_awaits_its_reply<A, K>(
    command: SubCommand<A>,
    step: Step<A, K>,
    reply: Reply<A, K>,
)
    requires
        first_step::<A, K>(command) == Ok::<Step<A, K>, Error>(step),
    ensures
        awaits(step.state, reply) <==> replies_to(step.action, reply),
{
}

/// Every following step waits for the kind of reply that its action gives, and fewer actions can
/// follow on it than on the step before.
pub proof fn law_next_step_awaits_its_reply<A, K>(
    state: State<A>,
    previous: Reply<A, K>,
    step: Step<A, K>,
    reply: Reply<A, K>,
)
    requires
        following_step(state, previous) == Ok::<Option<Step<A, K>>, Error>(Some(step)),
    ensures
        awaits(step.state, reply) <==> replies_to(step.action, reply),
        actions_left(step.state) < actions_left(state),
{
}

/// Every run ends, after at most five actions.
pub proof fn law_run_is_short<A, K, E>(command: SubCommand<A>, answers: Answers<A, K, E>)
    ensures
        run(command, answers).actions.len() <= 5,
{
    law_run_follows_plan(command, answers);
}

/// Whether two actions are answered with the same kind of reply, other than that they are done.
pub open spec fn ask_alike<A, K>(a: Action<A, K>, b: Action<A, K>) -> bool {
    exists|reply: Reply<A, K>|
        #![trigger replies_to(a, reply)]
        !(reply is Done) && replies_to(a, reply) && replies_to(b, reply)
}

/// No run asks the same thing twice.
pub proof fn law_nothing_is_asked_twice<A, K, E>(
    command: SubCommand<A>,
    answers: Answers<A, K, E>,
    i: int,
    j: int,
)
    requires
        0 <= i < j < run(command, answers).actions.len(),
    ensures
        !ask_alike(run(command, answers).actions[i], run(command, answers).actions[j]),
{
    law_run_follows_plan(command, answers);
}

/// A run that is refused has asked questions at most: nothing was requested, transferred or paid,
/// and no wallet was opened.
pub proof fn law_refused_run_only_asks<A, K, E>(
    command: SubCommand<A>,
    answers: Answers<A, K, E>,
    i: int,
)
    requires
        run(command, answers).result matches Err(Failure::Refused(_)),
        0 <= i < run(command, answers).actions.len(),
    ensures
        is_question(run(command, answers).actions[i]),
{
    law_run_follows_plan(command, answers);
}

/// The wallet is open before it is needed, and it is opened once.
pub proof fn law_wallet_is_opened_once<A, K, E>(
    command: SubCommand<A>,
    answers: Answers<A, K, E>,
    i: int,
)
    requires
        0 <= i < run(command, answers).actions.len(),
    ensures
        needs_wallet(run(command, answers).actions[i]) ==> exists|j: int|
            0 <= j < i && #[trigger] run(command, answers).actions[j] is OpenWallet,
        run(command, answers).actions[i] is OpenWallet ==> forall|j: int|
            i < j < run(command, answers).actions.len()
                ==> !(#[trigger] run(command, answers).actions[j] is OpenWallet),
{
    law_run_follows_plan(command, answers);
    let actions = plan(command, answers).0;
    assert(forall|j: int|
        0 <= j < run(command, answers).actions.len() ==> #[trigger] run(command, answers).actions[j]
            == actions[j]);
    if needs_wallet(actions[i]) {
        assert(actions[0] is OpenWallet || actions[i - 1] is OpenWallet);
        assert(run(command, answers).actions[0] is OpenWallet || run(
            command,
            answers,
        ).actions[i - 1] is OpenWallet);
    }
}

/// No run pays twice.
pub proof fn law_run_pays_once<A, K, E>(
    command: SubCommand<A>,
    answers: Answers<A, K, E>,
    i: int,
    j: int,
)
    requires
        0 <= i < j < run(command, answers).actions.len(),
    ensures
        !(pays(run(command, answers).actions[i]) && pays(run(command, answers).actions[j])),
{
    law_run_follows_plan(command, answers);
}

/// An issue request that is not to be executed leaves the wallet alone: nothing is paid, and the
/// wallet is not even opened.
pub proof fn law_no_execute_leaves_wallet_alone<A, K, E>(
    command: SubCommand<A>,
    answers: Answers<A, K, E>,
    i: int,
)
    requires
        command matches SubCommand::RequestIssue(info) && info.no_execute,
        0 <= i < run(command, answers).actions.len(),
    ensures
        !(run(command, answers).actions[i] is OpenWallet),
        !needs_wallet(run(command, answers).actions[i]),
{
    law_run_follows_plan(command, answers);
}

/// A griefing collateral that is given is the one that is requested with, and the chain is not
/// asked for one.
pub proof fn law_given_collateral_is_used<A, K, E>(
    command: SubCommand<A>,
    answers: Answers<A, K, E>,
    collateral: u128,
)
    requires
        command matches SubCommand::RequestIssue(info) && info.griefing_collateral == Some(
            collateral,
        ),
    ensures
        run(command, answers).actions.len() > 0,
        run(command, answers).actions[0] matches Action::RequestIssue {
            griefing_collateral,
            ..
        } && griefing_collateral == collateral,
        forall|i: int|
            0 <= i < run(command, answers).actions.len() ==> !is_question(
                #[trigger] run(command, answers).actions[i],
            ),
{
    law_run_follows_plan(command, answers);
}

/// An issue request that is completed or cancelled is not paid for: the run reads it, and stops.
pub proof fn law_closed_issue_is_not_paid<A, K, E>(
    command: SubCommand<A>,
    answers: Answers<A, K, E>,
    issue_id: H256,
)
    requires
        command matches SubCommand::SendBitcoin(info) && info.issue_id == Some(issue_id),
        !(answers.issue.status is Pending),
    ensures
        run(command, answers).actions == seq![Action::<A, K>::GetIssueById { issue_id }],
        run(command, answers).result is Err,
        answers.failure is None && answers.issue.status is Completed ==> run(command, answers).result
            == Err::<(), Failure<E>>(Failure::Refused(Error::IssueCompleted)),
        answers.failure is None && answers.issue.status is Cancelled ==> run(command, answers).result
            == Err::<(), Failure<E>>(Failure::Refused(Error::IssueCancelled)),
{
    law_run_follows_plan(command, answers);
    assert(run(command, answers).actions =~= seq![Action::<A, K>::GetIssueById { issue_id }]);
}

/// A payment for an open issue request goes to the address of the request, and covers the amount
/// and the fee. What the command line says of a recipient and an amount does not count.
pub proof fn law_open_issue_is_paid_in_full<A, K, E>(
    command: SubCommand<A>,
    answers: Answers<A, K, E>,
    i: int,
)
    requires
        command matches SubCommand::SendBitcoin(info) && info.issue_id is Some,
        answers.issue.status is Pending,
        answers.issue.amount + answers.issue.fee <= u64::MAX,
        0 <= i < run(command, answers).actions.len(),
        pays(run(command, answers).actions[i]),
    ensures
        run(command, answers).actions[i] matches Action::SendToAddress {
            btc_address,
            satoshis,
            ..
        } && btc_address == answers.issue.btc_address && satoshis == answers.issue.amount
            + answers.issue.fee,
{
    law_run_follows_plan(command, answers);
}

/// Authorizing an oracle hands on the account of the development account that the command names,
/// and the name as it was given.
pub proof fn law_oracle_is_authorized_by_its_account<A, K, E>(
    info: InsertAuthorizedOracleInfo,
    answers: Answers<A, K, E>,
)
    ensures
        run(SubCommand::InsertAuthorizedOracle(info), answers).actions.is_prefix_of(seq![
            Action::<A, K>::InsertAuthorizedOracle {
                oracle_id: keyring_account(info.account),
                name: info.name,
            },
        ]),
        answers.failure is None
            ==> run(SubCommand::InsertAuthorizedOracle(info), answers).actions.len() == 1,
        answers.failure is None
            ==> run(SubCommand::InsertAuthorizedOracle(info), answers).result is Ok,
        run(SubCommand::InsertAuthorizedOracle(info), answers).result matches Err(failure)
            ==> failure is Service,
{
    law_run_follows_plan(SubCommand::InsertAuthorizedOracle(info), answers);
}

/// Reading the exchange rate prints the rate, the time and the delay that the chain tells.
pub proof fn law_exchange_rate_is_read_and_printed<A, K, E>(
    answers: Answers<A, K, E>,
)
    ensures
        run(SubCommand::<A>::GetExchangeRate, answers).actions.is_prefix_of(seq![
            Action::<A, K>::GetExchangeRateInfo,
            Action::Print {
                output: Output::ExchangeRate {
                    rate: answers.rate,
                    time: answers.rate_time,
                    delay: answers.rate_delay,
                },
            },
        ]),
        answers.failure is None
            ==> run(SubCommand::<A>::GetExchangeRate, answers).actions.len() == 2,
        answers.failure is None ==> run(SubCommand::<A>::GetExchangeRate, answers).result is Ok,
        run(SubCommand::<A>::GetExchangeRate, answers).result matches Err(failure)
            ==> failure is Service,
{
    law_run_follows_plan(SubCommand::<A>::GetExchangeRate, answers);
}

/// Setting the fees hands on each of the three fees in its own place.
pub proof fn law_fees_are_set_as_given<A, K, E>(
    info: SetBtcTxFeesInfo,
    answers: Answers<A, K, E>,
)
    ensures
        run(SubCommand::SetBtcTxFees(info), answers).actions.is_prefix_of(seq![
            Action::<A, K>::SetBtcTxFeesPerByte {
                fast: info.fast,
                half: info.half,
                hour: info.hour,
            },
        ]),
        answers.failure is None ==> run(SubCommand::SetBtcTxFees(info), answers).actions.len() == 1,
        answers.failure is None ==> run(SubCommand::SetBtcTxFees(info), answers).result is Ok,
        run(SubCommand::SetBtcTxFees(info), answers).result matches Err(failure)
            ==> failure is Service,
{
    law_run_follows_plan(SubCommand::SetBtcTxFees(info), answers);
}

/// Reading the fees prints the three fees that the chain tells.
pub proof fn law_fees_are_read_and_printed<A, K, E>(
    answers: Answers<A, K, E>,
)
    ensures
        run(SubCommand::<A>::GetBtcTxFees, answers).actions.is_prefix_of(seq![
            Action::<A, K>::GetBtcTxFeesPerByte,
            Action::Print {
                output: Output::BtcTxFees {
                    fast: answers.fast,
                    half: answers.half,
                    hour: answers.hour,
                },
            },
        ]),
        answers.failure is None ==> run(SubCommand::<A>::GetBtcTxFees, answers).actions.len() == 2,
        answers.failure is None ==> run(SubCommand::<A>::GetBtcTxFees, answers).result is Ok,
        run(SubCommand::<A>::GetBtcTxFees, answers).result matches Err(failure)
            ==> failure is Service,
{
    law_run_follows_plan(SubCommand::<A>::GetBtcTxFees, answers);
}

/// Reading the time prints the time that the chain tells.
pub proof fn law_time_is_read_and_printed<A, K, E>(
    answers: Answers<A, K, E>,
)
    ensures
        run(SubCommand::<A>::GetCurrentTime, answers).actions.is_prefix_of(seq![
            Action::<A, K>::GetTimeNow,
            Action::Print { output: Output::Time { time: answers.time } },
        ]),
        answers.failure is None
            ==> run(SubCommand::<A>::GetCurrentTime, answers).actions.len() == 2,
        answers.failure is None ==> run(SubCommand::<A>::GetCurrentTime, answers).result is Ok,
        run(SubCommand::<A>::GetCurrentTime, answers).result matches Err(failure)
            ==> failure is Service,
{
    law_run_follows_plan(SubCommand::<A>::GetCurrentTime, answers);
}

/// Registering a vault uses a key that the wallet has just made, and the collateral as given.
pub proof fn law_vault_is_registered_with_a_new_key<A, K, E>(
    info: RegisterVaultInfo,
    answers: Answers<A, K, E>,
)
    ensures
        run(SubCommand::RegisterVault(info), answers).actions.is_prefix_of(seq![
            Action::<A, K>::OpenWallet,
            Action::GetNewPublicKey,
            Action::RegisterVault {
                public_key: answers.public_key,
                collateral: info.collateral,
            },
        ]),
        answers.failure is None
            ==> run(SubCommand::RegisterVault(info), answers).actions.len() == 3,
        answers.failure is None ==> run(SubCommand::RegisterVault(info), answers).result is Ok,
        run(SubCommand::RegisterVault(info), answers).result matches Err(failure)
            ==> failure is Service,
{
    law_run_follows_plan(SubCommand::RegisterVault(info), answers);
}

/// A redeem is requested for the amount and to the address of the command, from the account of the
/// vault that the command names; the identifier of the request is printed.
pub proof fn law_redeem_is_requested_from_the_named_vault<A, K, E>(
    info: RequestRedeemInfo<A>,
    answers: Answers<A, K, E>,
)
    ensures
        run(SubCommand::RequestRedeem(info), answers).actions.is_prefix_of(seq![
            Action::<A, K>::RequestRedeem {
                amount: info.redeem_amount,
                btc_address: info.btc_address,
                vault_id: keyring_account(info.vault),
            },
            Action::Print { output: Output::Id { id: answers.redeem_id } },
        ]),
        answers.failure is None
            ==> run(SubCommand::RequestRedeem(info), answers).actions.len() == 2,
        answers.failure is None ==> run(SubCommand::RequestRedeem(info), answers).result is Ok,
        run(SubCommand::RequestRedeem(info), answers).result matches Err(failure)
            ==> failure is Service,
{
    law_run_follows_plan(SubCommand::RequestRedeem(info), answers);
}

/// Executing a redeem pays what the chain tells of that very request: its amount, to its address.
pub proof fn law_redeem_is_executed_as_requested<A, K, E>(
    info: ExecuteRedeemInfo,
    answers: Answers<A, K, E>,
)
    ensures
        run(SubCommand::ExecuteRedeem(info), answers).actions.is_prefix_of(seq![
            Action::<A, K>::GetRedeemRequest { redeem_id: info.redeem_id },
            Action::OpenWallet,
            Action::ExecuteRedeem {
                redeem_id: info.redeem_id,
                amount_btc: answers.redeem_amount_btc,
                btc_address: answers.redeem_btc_address,
            },
        ]),
        answers.failure is None
            ==> run(SubCommand::ExecuteRedeem(info), answers).actions.len() == 3,
        answers.failure is None ==> run(SubCommand::ExecuteRedeem(info), answers).result is Ok,
        run(SubCommand::ExecuteRedeem(info), answers).result matches Err(failure)
            ==> failure is Service,
{
    law_run_follows_plan(SubCommand::ExecuteRedeem(info), answers);
}

/// A replace is requested with the amount and the collateral of the command.
pub proof fn law_replace_is_requested_as_given<A, K, E>(
    info: RequestReplaceInfo,
    answers: Answers<A, K, E>,
)
    ensures
        run(SubCommand::RequestReplace(info), answers).actions.is_prefix_of(seq![
            Action::<A, K>::RequestReplace {
                amount: info.replace_amount,
                griefing_collateral: info.griefing_collateral,
            },
        ]),
        answers.failure is None
            ==> run(SubCommand::RequestReplace(info), answers).actions.len() == 1,
        answers.failure is None ==> run(SubCommand::RequestReplace(info), answers).result is Ok,
        run(SubCommand::RequestReplace(info), answers).result matches Err(failure)
            ==> failure is Service,
{
    law_run_follows_plan(SubCommand::RequestReplace(info), answers);
}

/// A replace is accepted for the vault, the amount and the collateral of the command.
pub proof fn law_replace_is_accepted_as_given<A, K, E>(
    info: AcceptReplaceInfo,
    answers: Answers<A, K, E>,
)
    ensures
        run(SubCommand::AcceptReplace(info), answers).actions.is_prefix_of(seq![
            Action::<A, K>::OpenWallet,
            Action::AcceptReplace {
                old_vault: info.old_vault,
                amount_btc: info.amount_btc,
                collateral: info.collateral,
            },
        ]),
        answers.failure is None
            ==> run(SubCommand::AcceptReplace(info), answers).actions.len() == 2,
        answers.failure is None ==> run(SubCommand::AcceptReplace(info), answers).result is Ok,
        run(SubCommand::AcceptReplace(info), answers).result matches Err(failure)
            ==> failure is Service,
{
    law_run_follows_plan(SubCommand::AcceptReplace(info), answers);
}

/// Executing a replace executes the request that the command names.
pub proof fn law_replace_is_executed<A, K, E>(
    info: ExecuteReplaceInfo,
    answers: Answers<A, K, E>,
)
    ensures
        run(SubCommand::ExecuteReplace(info), answers).actions.is_prefix_of(seq![
            Action::<A, K>::OpenWallet,
            Action::ExecuteReplace { replace_id: info.replace_id },
        ]),
        answers.failure is None
            ==> run(SubCommand::ExecuteReplace(info), answers).actions.len() == 2,
        answers.failure is None ==> run(SubCommand::ExecuteReplace(info), answers).result is Ok,
        run(SubCommand::ExecuteReplace(info), answers).result matches Err(failure)
            ==> failure is Service,
{
    law_run_follows_plan(SubCommand::ExecuteReplace(info), answers);
}

/// Setting the issue period sets that period, to the given number.
pub proof fn law_issue_period_is_set<A, K, E>(
    info: SetIssuePeriodInfo,
    answers: Answers<A, K, E>,
)
    ensures
        run(SubCommand::SetIssuePeriod(info), answers).actions.is_prefix_of(seq![
            Action::<A, K>::SetIssuePeriod { period: info.period },
        ]),
        answers.failure is None
            ==> run(SubCommand::SetIssuePeriod(info), answers).actions.len() == 1,
        answers.failure is None ==> run(SubCommand::SetIssuePeriod(info), answers).result is Ok,
        run(SubCommand::SetIssuePeriod(info), answers).result matches Err(failure)
            ==> failure is Service,
{
    law_run_follows_plan(SubCommand::SetIssuePeriod(info), answers);
}

/// Setting the redeem period sets that period, to the given number.
pub proof fn law_redeem_period_is_set<A, K, E>(
    info: SetRedeemPeriodInfo,
    answers: Answers<A, K, E>,
)
    ensures
        run(SubCommand::SetRedeemPeriod(info), answers).actions.is_prefix_of(seq![
            Action::<A, K>::SetRedeemPeriod { period: info.period },
        ]),
        answers.failure is None
            ==> run(SubCommand::SetRedeemPeriod(info), answers).actions.len() == 1,
        answers.failure is None ==> run(SubCommand::SetRedeemPeriod(info), answers).result is Ok,
        run(SubCommand::SetRedeemPeriod(info), answers).result matches Err(failure)
            ==> failure is Service,
{
    law_run_follows_plan(SubCommand::SetRedeemPeriod(info), answers);
}

/// Setting the replace period sets that period, to the given number.
pub proof fn law_replace_period_is_set<A, K, E>(
    info: SetReplacePeriodInfo,
    answers: Answers<A, K, E>,
)
    ensures
        run(SubCommand::SetReplacePeriod(info), answers).actions.is_prefix_of(seq![
            Action::<A, K>::SetReplacePeriod { period: info.period },
        ]),
        answers.failure is None
            ==> run(SubCommand::SetReplacePeriod(info), answers).actions.len() == 1,
        answers.failure is None ==> run(SubCommand::SetReplacePeriod(info), answers).result is Ok,
        run(SubCommand::SetReplacePeriod(info), answers).result matches Err(failure)
            ==> failure is Service,
{
    law_run_follows_plan(SubCommand::SetReplacePeriod(info), answers);
}

/// Funding accounts transfers the amount of the command to its accounts.
pub proof fn law_accounts_are_funded<A, K, E>(
    info: FundAccountsInfo,
    answers: Answers<A, K, E>,
)
    ensures
        run(SubCommand::FundAccounts(info), answers).actions.is_prefix_of(seq![
            Action::<A, K>::TransferToAll {
                accounts: info.accounts,
                amount: info.amount,
            },
        ]),
        answers.failure is None ==> run(SubCommand::FundAccounts(info), answers).actions.len() == 1,
        answers.failure is None ==> run(SubCommand::FundAccounts(info), answers).result is Ok,
        run(SubCommand::FundAccounts(info), answers).result matches Err(failure)
            ==> failure is Service,
{
    law_run_follows_plan(SubCommand::FundAccounts(info), answers);
}

/// Setting the exchange rate sets the rate whose hundred-thousandths the command gives.
pub proof fn law_exchange_rate_is_set_as_given<A, K, E>(
    info: SetExchangeRateInfo,
    answers: Answers<A, K, E>,
)
    requires
        info.exchange_rate * ACCURACY <= u128::MAX * 100_000,
    ensures
        run(SubCommand::SetExchangeRate(info), answers).actions.len() == 1,
        run(SubCommand::SetExchangeRate(info), answers).actions[0] matches Action::SetExchangeRateInfo {
            rate,
        } && rate.inner * 100_000 == info.exchange_rate * ACCURACY,
        answers.failure is None ==> run(SubCommand::SetExchangeRate(info), answers).result == Ok::<
            (),
            Failure<E>,
        >(()),
{
    law_run_follows_plan(SubCommand::SetExchangeRate(info), answers);
    law_exchange_rate_is_exact(info.exchange_rate);
}

/// Two redeem commands that name different vaults ask the accounts of those vaults: the account
/// that is asked moves with the vault, and with nothing else.
pub proof fn law_redeem_vault_is_the_callers_choice<A, K, E>(
    a: RequestRedeemInfo<A>,
    b: RequestRedeemInfo<A>,
    answers: Answers<A, K, E>,
)
    ensures
        run(SubCommand::RequestRedeem(a), answers).actions[0] matches Action::RequestRedeem {
            vault_id: asked_by_a,
            ..
        } && run(SubCommand::RequestRedeem(b), answers).actions[0] matches Action::RequestRedeem {
            vault_id: asked_by_b,
            ..
        } && (asked_by_a == asked_by_b <==> keyring_account(a.vault) == keyring_account(b.vault)),
{
    law_run_follows_plan(SubCommand::RequestRedeem(a), answers);
    law_run_follows_plan(SubCommand::RequestRedeem(b), answers);
}

/// An issue that is to be executed is paid for and executed: unless it is refused or an action
/// fails, the last two actions open the wallet and execute what the chain replied to the request,
/// whether or not the collateral was given, and nothing is printed.
pub proof fn law_issue_is_executed<A, K, E>(info: RequestIssueInfo, answers: Answers<A, K, E>)
    requires
        !info.no_execute,
        answers.failure is None,
    ensures
        ({
            let run = run(SubCommand::RequestIssue(info), answers);
            let n = run.actions.len();
            &&& forall|i: int| 0 <= i < n ==> !(#[trigger] run.actions[i] is Print)
            &&& !(run.result matches Err(Failure::Refused(_))) ==> {
                &&& n >= 3
                &&& run.result == Ok::<(), Failure<E>>(())
                &&& run.actions[n - 3] is RequestIssue
                &&& run.actions[n - 2] is OpenWallet
                &&& run.actions[n - 1] == (Action::<A, K>::ExecuteIssue {
                    issue_id: answers.issue_id,
                    amount_btc: answers.issue_amount_btc,
                    vault_btc_address: answers.vault_btc_address,
                })
            }
        }),
{
    law_run_follows_plan(SubCommand::RequestIssue(info), answers);
}

/// An issue that is not to be executed is requested all the same, and its identifier is printed:
/// unless it is refused or an action fails, those are the last two actions.
pub proof fn law_unexecuted_issue_is_printed<A, K, E>(
    info: RequestIssueInfo,
    answers: Answers<A, K, E>,
)
    requires
        info.no_execute,
        answers.failure is None,
        !(run(SubCommand::RequestIssue(info), answers).result matches Err(Failure::Refused(_))),
    ensures
        ({
            let run = run(SubCommand::RequestIssue(info), answers);
            let n = run.actions.len();
            &&& n >= 2
            &&& run.result == Ok::<(), Failure<E>>(())
            &&& run.actions[n - 2] is RequestIssue
            &&& run.actions[n - 1] == (Action::<A, K>::Print {
                output: Output::Id { id: answers.issue_id },
            })
        }),
{
    law_run_follows_plan(SubCommand::RequestIssue(info), answers);
}

/// Whatever else a run does, an issue is requested for the amount and with the vault of the
/// command, and with the given collateral, or else with the whole number nearest to the share that
/// the griefing rate takes of the amount's worth.
pub proof fn law_issue_is_requested_as_given<A, K, E>(
    info: RequestIssueInfo,
    answers: Answers<A, K, E>,
    i: int,
)
    requires
        0 <= i < run(SubCommand::RequestIssue(info), answers).actions.len(),
        run(SubCommand::RequestIssue(info), answers).actions[i] is RequestIssue,
    ensures
        ({
            let share = answers.amount_in_dot * answers.griefing_rate.inner;
            &&& run(SubCommand::RequestIssue(info), answers).actions[i] matches Action::RequestIssue {
                amount,
                griefing_collateral,
                vault_id,
            }
            &&& amount == info.issue_amount
            &&& vault_id == info.vault
            &&& info.griefing_collateral matches Some(given) ==> griefing_collateral == given
            &&& info.griefing_collateral is None ==> 2 * griefing_collateral * ACCURACY <= 2 * share
                + ACCURACY && 2 * share < 2 * griefing_collateral * ACCURACY + ACCURACY
        }),
{
    law_run_follows_plan(SubCommand::RequestIssue(info), answers);
    law_collateral_is_nearest(answers.amount_in_dot, answers.griefing_rate);
    law_collateral_limits(answers.amount_in_dot, answers.griefing_rate);
}

/// A collateral that is not given is asked for: first what the amount of the command is worth, then
/// the rate.
pub proof fn law_missing_collateral_is_asked_for<A, K, E>(
    info: RequestIssueInfo,
    answers: Answers<A, K, E>,
)
    requires
        info.griefing_collateral is None,
    ensures
        ({
            let actions = run(SubCommand::RequestIssue(info), answers).actions;
            &&& actions.len() > 0
            &&& actions[0] == (Action::<A, K>::WrappedToCollateral { amount: info.issue_amount })
            &&& actions.len() > 1 ==> actions[1] is GetIssueGriefingCollateral
            &&& answers.failure is None ==> actions.len() > 1
        }),
{
    law_run_follows_plan(SubCommand::RequestIssue(info), answers);
}

/// An issue is refused exactly if its collateral is not given and cannot be computed, and then for
/// that reason; a refused issue is never requested.
pub proof fn law_issue_is_refused_for_its_collateral<A, K, E>(
    info: RequestIssueInfo,
    answers: Answers<A, K, E>,
)
    requires
        answers.failure is None,
    ensures
        run(SubCommand::RequestIssue(info), answers).result is Err <==> info.griefing_collateral
            is None && !(answers.amount_in_dot * ACCURACY <= u128::MAX && answers.amount_in_dot
            * answers.griefing_rate.inner + ACCURACY / 2 <= u128::MAX),
        run(SubCommand::RequestIssue(info), answers).result matches Err(failure) ==> failure
            == Failure::<E>::Refused(Error::MathError) && run(
            SubCommand::RequestIssue(info),
            answers,
        ).actions.len() == 2,
{
    law_run_follows_plan(SubCommand::RequestIssue(info), answers);
    law_collateral_limits(answers.amount_in_dot, answers.griefing_rate);
}

/// A payment that is given on the command line goes to the recipient of the command, with the
/// amount of the command and one confirmation, and its transaction is printed.
pub proof fn law_given_payment_is_paid_as_given<A, K, E>(
    info: SendBitcoinInfo<A>,
    answers: Answers<A, K, E>,
    recipient: A,
)
    requires
        info.issue_id is None,
        info.btc_address == Some(recipient),
        info.satoshis <= u64::MAX,
    ensures
        run(SubCommand::SendBitcoin(info), answers).actions.is_prefix_of(seq![
            Action::<A, K>::OpenWallet,
            Action::SendToAddress {
                btc_address: recipient,
                satoshis: info.satoshis as u64,
                num_confirmations: 1,
            },
            Action::Print { output: Output::Txid { txid: answers.txid } },
        ]),
        forall|i: int|
            #![trigger run(SubCommand::SendBitcoin(info), answers).actions[i]]
            0 <= i < run(SubCommand::SendBitcoin(info), answers).actions.len() && pays(
                run(SubCommand::SendBitcoin(info), answers).actions[i],
            ) ==> (run(SubCommand::SendBitcoin(info), answers).actions[i] matches Action::SendToAddress {
                btc_address,
                satoshis,
                ..
            } && btc_address == recipient && satoshis == info.satoshis),
        answers.failure is None ==> run(SubCommand::SendBitcoin(info), answers).actions.len() == 3,
        answers.failure is None ==> run(SubCommand::SendBitcoin(info), answers).result is Ok,
{
    law_run_follows_plan(SubCommand::SendBitcoin(info), answers);
}

/// A payment for an open issue request reads the request that the command names, pays it, and
/// prints the transaction.
pub proof fn law_open_issue_is_paid<A, K, E>(
    info: SendBitcoinInfo<A>,
    answers: Answers<A, K, E>,
    issue_id: H256,
)
    requires
        info.issue_id == Some(issue_id),
        answers.issue.status is Pending,
        answers.issue.amount + answers.issue.fee <= u64::MAX,
    ensures
        run(SubCommand::SendBitcoin(info), answers).actions.is_prefix_of(seq![
            Action::<A, K>::GetIssueById { issue_id },
            Action::OpenWallet,
            Action::SendToAddress {
                btc_address: answers.issue.btc_address,
                satoshis: (answers.issue.amount + answers.issue.fee) as u64,
                num_confirmations: 1,
            },
            Action::Print { output: Output::Txid { txid: answers.txid } },
        ]),
        answers.failure is None ==> run(SubCommand::SendBitcoin(info), answers).actions.len() == 4,
        answers.failure is None ==> run(SubCommand::SendBitcoin(info), answers).result is Ok,
{
    law_run_follows_plan(SubCommand::SendBitcoin(info), answers);
}

/// A payment for neither an issue request nor a recipient is refused before anything is done.
pub proof fn law_payment_needs_a_recipient<A, K, E>(
    info: SendBitcoinInfo<A>,
    answers: Answers<A, K, E>,
)
    requires
        info.issue_id is None,
        info.btc_address is None,
    ensures
        run(SubCommand::SendBitcoin(info), answers).actions.len() == 0,
        run(SubCommand::SendBitcoin(info), answers).result == Err::<(), Failure<E>>(
            Failure::Refused(Error::ExpectedBitcoinAddress),
        ),
{
    law_run_follows_plan(SubCommand::SendBitcoin(info), answers);
}

/// A failing action is the last one of its run, and its error is what the run ends with; up to it,
/// the run is the same as if nothing failed. A failure beyond the end of a run has no effect.
pub proof fn law_failing_action_ends_the_run<A, K, E>(
    command: SubCommand<A>,
    answers: Answers<A, K, E>,
    position: nat,
    error: E,
)
    requires
        answers.failure == Some((position, error)),
    ensures
        ({
            let smooth = run(command, Answers { failure: None, ..answers });
            let failed = run(command, answers);
            if position < smooth.actions.len() {
                &&& failed.actions == smooth.actions.take(position as int + 1)
                &&& failed.result == Err::<(), Failure<E>>(Failure::Service(error))
            } else {
                failed == smooth
            }
        }),
{
    law_run_follows_plan(command, answers);
    law_run_follows_plan(command, Answers { failure: None, ..answers });
    assert(plan(command, answers) == plan(command, Answers { failure: None, ..answers }));
}

/// A reply to the action of a step can be gone on with, unless an amount of it is too large: the
/// amount and the fee of an open issue request together, or a payment in satoshis.
pub proof fn law_only_large_amounts_stop_a_run<A, K, E>(
    command: SubCommand<A>,
    state: State<A>,
    previous: Reply<A, K>,
    step: Step<A, K>,
    reply: Reply<A, K>,
)
    requires
        first_step::<A, K>(command) == Ok::<Step<A, K>, Error>(step) || following_step(
            state,
            previous,
        ) == Ok::<Option<Step<A, K>>, Error>(Some(step)),
        replies_to(step.action, reply),
    ensures
        reply_fits::<A, K, E>(step.state, Ok(reply)) <==> {
            &&& reply matches Reply::Issue { request } ==> request.status is Pending
                ==> request.amount + request.fee <= u128::MAX
            &&& step.state matches State::OpeningPaymentWallet { satoshis, .. } ==> satoshis
                <= u64::MAX
        },
{
}

/// A failed action can be replied in any state.
pub proof fn law_failure_can_always_be_replied<A, K, E>(state: State<A>, error: E)
    ensures
        reply_fits::<A, K, E>(state, Err(error)),
        next_step::<A, K, E>(state, Err(error)) == Err::<Option<Step<A, K>>, Failure<E>>(
            Failure::Service(error),
        ),
{
}

/// Every command can be started, but for an exchange rate that is too large.
pub proof fn law_only_large_rates_stop_a_command<A>(command: SubCommand<A>)
    ensures
        command_fits(command) <==> (command matches SubCommand::SetExchangeRate(info)
            ==> info.exchange_rate * ACCURACY <= u128::MAX * 100_000),
{
    if let SubCommand::SetExchangeRate(info) = command {
        law_exchange_rate_is_exact(info.exchange_rate);
    }
}

/// What the services answer to an action is of the kind that the action gives.
pub proof fn law_answers_are_replies<A, K, E>(answers: Answers<A, K, E>, action: Action<A, K>)
    ensures
        replies_to(action, answer(answers, action)),
{
}

} // verus!
