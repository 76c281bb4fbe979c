use testdata_gen::codes::{
    ErrorCode, PolkaBtcErrorCodeFromStr, PolkaBtcStatusCodeFromStr, StatusCode,
};

fn status(text: &str) -> Result<StatusCode, String> {
    text.parse::<PolkaBtcStatusCodeFromStr>().map(|code| code.0)
}

fn error(text: &str) -> Result<ErrorCode, String> {
    text.parse::<PolkaBtcErrorCodeFromStr>().map(|code| code.0)
}

#[test]
fn statuses_are_read() {
    assert_eq!(status("running"), Ok(StatusCode::Running));
    assert_eq!(status("shutdown"), Ok(StatusCode::Shutdown));
    assert_eq!(status("error"), Ok(StatusCode::Error));
}

#[test]
fn other_statuses_are_rejected() {
    for text in ["", "Running", "running ", "run", "none"] {
        assert_eq!(status(text), Err("Could not parse input as StatusCode".to_string()));
    }
}

#[test]
fn errors_are_read() {
    assert_eq!(error("none"), Ok(ErrorCode::NoError));
    assert_eq!(error("no-data-btc-relay"), Ok(ErrorCode::NoDataBTCRelay));
    assert_eq!(error("invalid-btc-relay"), Ok(ErrorCode::InvalidBTCRelay));
    assert_eq!(error("oracle-offline"), Ok(ErrorCode::OracleOffline));
    assert_eq!(error("liquidation"), Ok(ErrorCode::Liquidation));
}

#[test]
fn other_errors_are_rejected() {
    for text in ["", "None", "no_data_btc_relay", "oracle-offline\n", "running"] {
        assert_eq!(error(text), Err("Could not parse input as ErrorCode".to_string()));
    }
}
