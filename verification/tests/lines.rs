use testdata_gen::account::{AccountId, Keyring, H256};
use testdata_gen::command::{transfers, Transfer};
use testdata_gen::fixed::{FixedU128, ACCURACY};
use testdata_gen::text::{btc_tx_fees_line, exchange_rate_line, Output};

#[test]
fn exchange_rate_line_holds_its_parts() {
    assert_eq!(
        exchange_rate_line("1.5", 1_620_000_000, 0),
        "Exchange Rate BTC/DOT: 1.5, Last Update: 1620000000, Delay: 0"
    );
}

#[test]
fn exchange_rate_is_printed_as_a_fixed_point_number() {
    let line = |inner: u128| {
        Output::ExchangeRate { rate: FixedU128 { inner }, time: 12, delay: 3_600_000 }.line()
    };
    assert_eq!(
        line(3_855_231_870_000_000_000_000),
        "Exchange Rate BTC/DOT: FixedU128(3855.231870000000000000), Last Update: 12, Delay: 3600000"
    );
    assert_eq!(
        line(ACCURACY / 100_000),
        "Exchange Rate BTC/DOT: FixedU128(0.000010000000000000), Last Update: 12, Delay: 3600000"
    );
}

#[test]
fn fees_are_printed() {
    assert_eq!(btc_tx_fees_line(100, 200, 300), "Fees per byte: fast=100 half=200 hour=300");
    let output = Output::BtcTxFees { fast: 0, half: 7, hour: u32::MAX };
    assert_eq!(output.line(), "Fees per byte: fast=0 half=7 hour=4294967295");
}

#[test]
fn time_is_printed_in_decimal() {
    for time in [0u64, 9, 10, 101, 1_620_000_000_123, u64::MAX] {
        assert_eq!(Output::Time { time }.line(), time.to_string());
    }
}

#[test]
fn identifiers_are_printed_in_hexadecimal() {
    let mut bytes = [0u8; 32];
    bytes[0] = 0x0f;
    bytes[1] = 0xa9;
    bytes[31] = 0xff;
    let line = Output::Id { id: H256 { bytes } }.line();
    assert_eq!(line, "0fa90000000000000000000000000000000000000000000000000000000000ff");
    assert_eq!(line.len(), 64);
    bytes[30] = 1;
    assert_ne!(line, Output::Id { id: H256 { bytes } }.line());
}

#[test]
fn transaction_identifiers_are_printed_as_they_are() {
    assert_eq!(Output::Txid { txid: "c0ffee".to_string() }.line(), "c0ffee");
}

#[test]
fn development_accounts_are_derived() {
    let text = |account: Keyring| hex::encode(account.to_account_id().bytes);
    assert_eq!(
        text(Keyring::Alice),
        "d43593c715fdd31c61141abd04a99fd6822c8558854ccde39a5684e7a56da27d"
    );
    assert_eq!(
        text(Keyring::Bob),
        "8eaf04151687736326c9fea17e25fc5287613693c912909cb226aa4794f26a48"
    );
    let accounts = [
        (Keyring::Charlie, sp_keyring::AccountKeyring::Charlie),
        (Keyring::Dave, sp_keyring::AccountKeyring::Dave),
        (Keyring::Eve, sp_keyring::AccountKeyring::Eve),
        (Keyring::Ferdie, sp_keyring::AccountKeyring::Ferdie),
        (Keyring::One, sp_keyring::AccountKeyring::One),
        (Keyring::Two, sp_keyring::AccountKeyring::Two),
    ];
    for (account, known) in accounts {
        assert_eq!(account.to_account_id().bytes, known.to_raw_public());
    }
}

#[test]
fn every_account_is_funded_in_order() {
    let account = |byte: u8| AccountId { bytes: [byte; 32] };
    let accounts = vec![account(3), account(1), account(3)];
    assert_eq!(
        transfers(&accounts, 500),
        vec![
            Transfer { account: account(3), amount: 500 },
            Transfer { account: account(1), amount: 500 },
            Transfer { account: account(3), amount: 500 },
        ]
    );
    assert!(transfers(&Vec::new(), 500).is_empty());
}
