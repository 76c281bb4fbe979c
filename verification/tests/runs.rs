use testdata_gen::account::{AccountId, Keyring, H256};
use testdata_gen::command::{
    AcceptReplaceInfo, ExecuteRedeemInfo, ExecuteReplaceInfo, FundAccountsInfo,
    InsertAuthorizedOracleInfo, RegisterVaultInfo, RequestIssueInfo, RequestRedeemInfo,
    RequestReplaceInfo, SendBitcoinInfo, SetBtcTxFeesInfo, SetExchangeRateInfo,
    SetIssuePeriodInfo, SetRedeemPeriodInfo, SetReplacePeriodInfo, SubCommand,
};
use testdata_gen::error::{Error, Failure};
use testdata_gen::fixed::{FixedU128, ACCURACY};
use testdata_gen::flow::{
    authorize_oracle, can_resume, can_start, request_redeem, resume, start, Action, Reply, State,
    Step,
};
use testdata_gen::payment::{
    given_payment, issue_payment, IssueRequest, IssueRequestStatus, Payment,
};
use testdata_gen::text::Output;

type Address = &'static str;
type Key = u8;
type Deed = Action<Address, Key>;

const ID: H256 = H256 { bytes: [7; 32] };
const VAULT: AccountId = AccountId { bytes: [9; 32] };
const RATE: FixedU128 = FixedU128 { inner: ACCURACY / 20_000 };

/// What the services say: an issue request with the given status, worth 1000 and a fee of 5.
fn answer(action: &Deed, status: IssueRequestStatus) -> Reply<Address, Key> {
    match action {
        Action::GetExchangeRateInfo => Reply::ExchangeRateInfo { rate: RATE, time: 1, delay: 2 },
        Action::GetBtcTxFeesPerByte => Reply::BtcTxFees { fast: 3, half: 2, hour: 1 },
        Action::GetTimeNow => Reply::TimeNow { time: 77 },
        Action::GetNewPublicKey => Reply::PublicKey { public_key: 42 },
        Action::WrappedToCollateral { amount } => Reply::Collateral { amount: amount * 3 },
        Action::GetIssueGriefingCollateral => Reply::GriefingRate { rate: RATE },
        Action::RequestIssue { amount, .. } => Reply::IssueRequested {
            issue_id: ID,
            amount_btc: amount + 1,
            vault_btc_address: "vault",
        },
        Action::GetIssueById { .. } => Reply::Issue {
            request: IssueRequest { status, btc_address: "issue", amount: 1_000, fee: 5 },
        },
        Action::SendToAddress { .. } => Reply::Sent { txid: "beef".to_string() },
        Action::RequestRedeem { .. } => Reply::RedeemRequested { redeem_id: ID },
        Action::GetRedeemRequest { .. } => Reply::Redeem { amount_btc: 400, btc_address: "user" },
        _ => Reply::Done,
    }
}

/// Carries a command out, until it ends or the action at position `failing` fails.
fn drive(
    command: SubCommand<Address>,
    status: IssueRequestStatus,
    failing: usize,
) -> (Vec<Deed>, Result<(), Failure<&'static str>>) {
    let mut actions = Vec::new();
    assert!(can_start(&command));
    let mut step: Step<Address, Key> = match start(command) {
        Ok(step) => step,
        Err(error) => return (actions, Err(Failure::Refused(error))),
    };
    loop {
        let reply = if actions.len() == failing {
            Err("unreachable node")
        } else {
            Ok(answer(&step.action, status))
        };
        actions.push(step.action);
        assert!(can_resume(&step.state, &reply));
        step = match resume(step.state, reply) {
            Ok(Some(step)) => step,
            Ok(None) => return (actions, Ok(())),
            Err(failure) => return (actions, Err(failure)),
        };
    }
}

fn smooth(command: SubCommand<Address>) -> (Vec<Deed>, Result<(), Failure<&'static str>>) {
    drive(command, IssueRequestStatus::Pending, usize::MAX)
}

fn issue(griefing_collateral: Option<u128>, no_execute: bool) -> SubCommand<Address> {
    SubCommand::RequestIssue(RequestIssueInfo {
        issue_amount: 100_000,
        griefing_collateral,
        vault: VAULT,
        no_execute,
    })
}

fn send(btc_address: Option<Address>, satoshis: u128, issue_id: Option<H256>) -> SubCommand<Address> {
    SubCommand::SendBitcoin(SendBitcoinInfo { btc_address, satoshis, issue_id })
}

fn print(output: Output) -> Deed {
    Action::Print { output }
}

#[test]
fn exchange_rate_is_set() {
    let command = SubCommand::SetExchangeRate(SetExchangeRateInfo { exchange_rate: 250_000 });
    let rate = FixedU128 { inner: 2_500_000_000_000_000_000 };
    assert_eq!(smooth(command), (vec![Action::SetExchangeRateInfo { rate }], Ok(())));
}

#[test]
fn exchange_rate_that_does_not_fit_cannot_be_started() {
    let largest = u128::MAX / 10_000_000_000_000;
    let command = |exchange_rate: u128| -> SubCommand<Address> {
        SubCommand::SetExchangeRate(SetExchangeRateInfo { exchange_rate })
    };
    assert!(can_start(&command(largest)));
    assert!(!can_start(&command(largest + 1)));
}

#[test]
fn oracle_is_authorized_by_its_account() {
    let command = SubCommand::InsertAuthorizedOracle(InsertAuthorizedOracleInfo {
        account: Keyring::Charlie,
        name: "Charlie".to_string(),
    });
    let oracle_id = AccountId { bytes: sp_keyring::AccountKeyring::Charlie.to_raw_public() };
    let expected: Step<Address, Key> = authorize_oracle(oracle_id, "Charlie".to_string());
    assert_eq!(
        expected.action,
        Action::InsertAuthorizedOracle { oracle_id, name: "Charlie".to_string() }
    );
    assert_eq!(smooth(command), (vec![expected.action], Ok(())));
}

#[test]
fn chain_data_is_read_and_printed() {
    assert_eq!(
        smooth(SubCommand::GetExchangeRate),
        (
            vec![
                Action::GetExchangeRateInfo,
                print(Output::ExchangeRate { rate: RATE, time: 1, delay: 2 })
            ],
            Ok(())
        )
    );
    assert_eq!(
        smooth(SubCommand::GetBtcTxFees),
        (
            vec![
                Action::GetBtcTxFeesPerByte,
                print(Output::BtcTxFees { fast: 3, half: 2, hour: 1 })
            ],
            Ok(())
        )
    );
    assert_eq!(
        smooth(SubCommand::GetCurrentTime),
        (vec![Action::GetTimeNow, print(Output::Time { time: 77 })], Ok(()))
    );
}

#[test]
fn chain_data_is_set() {
    let fees = SubCommand::SetBtcTxFees(SetBtcTxFeesInfo { fast: 100, half: 200, hour: 300 });
    assert_eq!(
        smooth(fees),
        (vec![Action::SetBtcTxFeesPerByte { fast: 100, half: 200, hour: 300 }], Ok(()))
    );
    let issue = SubCommand::SetIssuePeriod(SetIssuePeriodInfo { period: 1 });
    assert_eq!(smooth(issue), (vec![Action::SetIssuePeriod { period: 1 }], Ok(())));
    let redeem = SubCommand::SetRedeemPeriod(SetRedeemPeriodInfo { period: 2 });
    assert_eq!(smooth(redeem), (vec![Action::SetRedeemPeriod { period: 2 }], Ok(())));
    let replace = SubCommand::SetReplacePeriod(SetReplacePeriodInfo { period: 3 });
    assert_eq!(smooth(replace), (vec![Action::SetReplacePeriod { period: 3 }], Ok(())));
}

#[test]
fn vault_is_registered_with_a_new_key() {
    let command = SubCommand::RegisterVault(RegisterVaultInfo { collateral: 100_000 });
    assert_eq!(
        smooth(command),
        (
            vec![
                Action::OpenWallet,
                Action::GetNewPublicKey,
                Action::RegisterVault { public_key: 42, collateral: 100_000 }
            ],
            Ok(())
        )
    );
}

#[test]
fn issue_computes_the_collateral_that_is_not_given() {
    // 300000 in collateral, a 20000th of it
    assert_eq!(
        smooth(issue(None, false)),
        (
            vec![
                Action::WrappedToCollateral { amount: 100_000 },
                Action::GetIssueGriefingCollateral,
                Action::RequestIssue {
                    amount: 100_000,
                    griefing_collateral: 15,
                    vault_id: VAULT
                },
                Action::OpenWallet,
                Action::ExecuteIssue {
                    issue_id: ID,
                    amount_btc: 100_001,
                    vault_btc_address: "vault"
                },
            ],
            Ok(())
        )
    );
}

#[test]
fn issue_uses_the_collateral_that_is_given() {
    assert_eq!(
        smooth(issue(Some(8), true)),
        (
            vec![
                Action::RequestIssue { amount: 100_000, griefing_collateral: 8, vault_id: VAULT },
                print(Output::Id { id: ID }),
            ],
            Ok(())
        )
    );
}

#[test]
fn issue_with_a_collateral_that_cannot_be_computed_is_refused() {
    let command = SubCommand::RequestIssue(RequestIssueInfo {
        issue_amount: u128::MAX / ACCURACY,
        griefing_collateral: None,
        vault: VAULT,
        no_execute: false,
    });
    let (actions, result) = smooth(command);
    assert_eq!(
        actions,
        vec![
            Action::WrappedToCollateral { amount: u128::MAX / ACCURACY },
            Action::GetIssueGriefingCollateral
        ]
    );
    assert_eq!(result, Err(Failure::Refused(Error::MathError)));
}

#[test]
fn open_issue_is_paid_with_its_fee() {
    assert_eq!(
        smooth(send(Some("ignored"), 1, Some(ID))),
        (
            vec![
                Action::GetIssueById { issue_id: ID },
                Action::OpenWallet,
                Action::SendToAddress {
                    btc_address: "issue",
                    satoshis: 1_005,
                    num_confirmations: 1
                },
                print(Output::Txid { txid: "beef".to_string() }),
            ],
            Ok(())
        )
    );
}

#[test]
fn closed_issue_is_not_paid() {
    let read = || vec![Action::GetIssueById { issue_id: ID }];
    assert_eq!(
        drive(send(None, 0, Some(ID)), IssueRequestStatus::Completed, usize::MAX),
        (read(), Err(Failure::Refused(Error::IssueCompleted)))
    );
    assert_eq!(
        drive(send(None, 0, Some(ID)), IssueRequestStatus::Cancelled, usize::MAX),
        (read(), Err(Failure::Refused(Error::IssueCancelled)))
    );
}

#[test]
fn given_recipient_is_paid() {
    assert_eq!(
        smooth(send(Some("friend"), 1_234, None)),
        (
            vec![
                Action::OpenWallet,
                Action::SendToAddress {
                    btc_address: "friend",
                    satoshis: 1_234,
                    num_confirmations: 1
                },
                print(Output::Txid { txid: "beef".to_string() }),
            ],
            Ok(())
        )
    );
}

#[test]
fn payment_without_a_recipient_is_refused() {
    assert_eq!(
        smooth(send(None, 1_234, None)),
        (vec![], Err(Failure::Refused(Error::ExpectedBitcoinAddress)))
    );
}

#[test]
fn payments_are_decided() {
    let request = |status| IssueRequest { status, btc_address: "a", amount: 3, fee: 4 };
    assert_eq!(
        issue_payment(request(IssueRequestStatus::Pending)),
        Ok(Payment { btc_address: "a", satoshis: 7 })
    );
    assert_eq!(
        issue_payment(request(IssueRequestStatus::Completed)),
        Err(Error::IssueCompleted)
    );
    assert_eq!(
        issue_payment(request(IssueRequestStatus::Cancelled)),
        Err(Error::IssueCancelled)
    );
    assert_eq!(given_payment(Some("b"), 9), Ok(Payment { btc_address: "b", satoshis: 9 }));
    assert_eq!(given_payment::<Address>(None, 9), Err(Error::ExpectedBitcoinAddress));
}

#[test]
fn amounts_that_do_not_fit_cannot_be_resumed() {
    let reply = |status, amount: u128| -> Result<Reply<Address, Key>, ()> {
        Ok(Reply::Issue { request: IssueRequest { status, btc_address: "a", amount, fee: 2 } })
    };
    let reading: State<Address> = State::ReadingIssue;
    assert!(can_resume(&reading, &reply(IssueRequestStatus::Pending, u128::MAX - 2)));
    assert!(!can_resume(&reading, &reply(IssueRequestStatus::Pending, u128::MAX - 1)));
    assert!(can_resume(&reading, &reply(IssueRequestStatus::Completed, u128::MAX)));

    let opening = |satoshis: u128| State::OpeningPaymentWallet { btc_address: "a", satoshis };
    let done: Result<Reply<Address, Key>, ()> = Ok(Reply::Done);
    assert!(can_resume(&opening(u64::MAX as u128), &done));
    assert!(!can_resume(&opening(u64::MAX as u128 + 1), &done));
    let failed: Result<Reply<Address, Key>, ()> = Err(());
    assert!(can_resume(&opening(u128::MAX), &failed));
}

#[test]
fn replies_of_another_kind_cannot_be_resumed() {
    let done: Result<Reply<Address, Key>, ()> = Ok(Reply::Done);
    let time: Result<Reply<Address, Key>, ()> = Ok(Reply::TimeNow { time: 1 });
    assert!(can_resume(&State::Finishing, &done));
    assert!(!can_resume(&State::Finishing, &time));
    assert!(can_resume(&State::ReadingTime, &time));
    assert!(!can_resume(&State::ReadingTime, &done));
}

#[test]
fn redeem_is_requested_from_a_development_account() {
    let command = SubCommand::RequestRedeem(RequestRedeemInfo {
        redeem_amount: 500,
        btc_address: "user",
        vault: Keyring::Bob,
    });
    let vault_id = AccountId { bytes: sp_keyring::AccountKeyring::Bob.to_raw_public() };
    let first: Step<Address, Key> = request_redeem(500, "user", vault_id);
    assert_eq!(first.state, State::RequestingRedeem);
    assert_eq!(
        first.action,
        Action::RequestRedeem { amount: 500, btc_address: "user", vault_id }
    );
    assert_eq!(smooth(command), (vec![first.action, print(Output::Id { id: ID })], Ok(())));
}

#[test]
fn redeem_is_executed() {
    let command = SubCommand::ExecuteRedeem(ExecuteRedeemInfo { redeem_id: ID });
    assert_eq!(
        smooth(command),
        (
            vec![
                Action::GetRedeemRequest { redeem_id: ID },
                Action::OpenWallet,
                Action::ExecuteRedeem { redeem_id: ID, amount_btc: 400, btc_address: "user" },
            ],
            Ok(())
        )
    );
}

#[test]
fn replace_is_requested_accepted_and_executed() {
    let request = SubCommand::RequestReplace(RequestReplaceInfo {
        replace_amount: 100_000,
        griefing_collateral: 100,
    });
    assert_eq!(
        smooth(request),
        (vec![Action::RequestReplace { amount: 100_000, griefing_collateral: 100 }], Ok(()))
    );
    let accept = SubCommand::AcceptReplace(AcceptReplaceInfo {
        old_vault: VAULT,
        amount_btc: 5,
        collateral: 6,
    });
    assert_eq!(
        smooth(accept),
        (
            vec![
                Action::OpenWallet,
                Action::AcceptReplace { old_vault: VAULT, amount_btc: 5, collateral: 6 }
            ],
            Ok(())
        )
    );
    let execute = SubCommand::ExecuteReplace(ExecuteReplaceInfo { replace_id: ID });
    assert_eq!(
        smooth(execute),
        (vec![Action::OpenWallet, Action::ExecuteReplace { replace_id: ID }], Ok(()))
    );
}

#[test]
fn accounts_are_funded() {
    let accounts = || vec![VAULT, AccountId { bytes: [1; 32] }];
    let command =
        SubCommand::FundAccounts(FundAccountsInfo { accounts: accounts(), amount: 10 });
    assert_eq!(
        smooth(command),
        (vec![Action::TransferToAll { accounts: accounts(), amount: 10 }], Ok(()))
    );
}

#[test]
fn failing_action_ends_the_run() {
    let (whole, _) = smooth(issue(None, false));
    for failing in 0..whole.len() {
        let (actions, result) =
            drive(issue(None, false), IssueRequestStatus::Pending, failing);
        assert_eq!(actions[..], whole[..failing + 1]);
        assert_eq!(result, Err(Failure::Service("unreachable node")));
    }
    assert_eq!(whole.len(), 5);
}
