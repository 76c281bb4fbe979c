//! The status and error codes of the parachain, as they are written on the command line.

use vstd::prelude::*;

verus! {

/// The status of the parachain.
#[derive(Clone, Copy, Debug, PartialEq, Eq)]
pub enum StatusCode {
    Running,
    Error,
    Shutdown,
}

/// The errors that the parachain can be in.
#[derive(Clone, Copy, Debug, PartialEq, Eq)]
pub enum ErrorCode {
    NoError,
    NoDataBTCRelay,
    InvalidBTCRelay,
    OracleOffline,
    Liquidation,
}

/// How a status is written.
pub open spec fn status_name(code: StatusCode) -> Seq<char> {
    match code {
        StatusCode::Running => "running"@,
        StatusCode::Error => "error"@,
        StatusCode::Shutdown => "shutdown"@,
    }
}

/// How an error is written.
pub open spec fn error_name(code: ErrorCode) -> Seq<char> {
    match code {
        ErrorCode::NoError => "none"@,
        ErrorCode::NoDataBTCRelay => "no-data-btc-relay"@,
        ErrorCode::InvalidBTCRelay => "invalid-btc-relay"@,
        ErrorCode::OracleOffline => "oracle-offline"@,
        ErrorCode::Liquidation => "liquidation"@,
    }
}

/// A status read from text.
#[derive(Clone, Copy, Debug, PartialEq, Eq)]
pub struct PolkaBtcStatusCodeFromStr(pub StatusCode);

/// An error read from text.
#[derive(Clone, Copy, Debug, PartialEq, Eq)]
pub struct PolkaBtcErrorCodeFromStr(pub ErrorCode);

/// The status that a text stands for, if it stands for one.
pub open spec fn status_of(text: Seq<char>) -> Option<StatusCode> {
    if text == "running"@ {
        Some(StatusCode::Running)
    } else if text == "shutdown"@ {
        Some(StatusCode::Shutdown)
    } else if text == "error"@ {
        Some(StatusCode::Error)
    } else {
        None
    }
}

/// The error that a text stands for, if it stands for one.
pub open spec fn error_of(text: Seq<char>) -> Option<ErrorCode> {
    if text == "none"@ {
        Some(ErrorCode::NoError)
    } else if text == "no-data-btc-relay"@ {
        Some(ErrorCode::NoDataBTCRelay)
    } else if text == "invalid-btc-relay"@ {
        Some(ErrorCode::InvalidBTCRelay)
    } else if text == "oracle-offline"@ {
        Some(ErrorCode::OracleOffline)
    } else if text == "liquidation"@ {
        Some(ErrorCode::Liquidation)
    } else {
        None
    }
}

/// A text stands for a status exactly if it is the name of that status: every status can be
/// written, and no other text is taken for one.
pub proof fn law_status_names(text: Seq<char>, code: StatusCode)
    ensures
        status_of(text) == Some(code) <==> text == status_name(code),
{
    reveal_strlit("running");
    reveal_strlit("error");
    reveal_strlit("shutdown");
    assert("running"@.len() == 7 && "error"@.len() == 5 && "shutdown"@.len() == 8);
}

/// A text stands for an error exactly if it is the name of that error: every error can be written,
/// and no other text is taken for one.
pub proof fn law_error_names(text: Seq<char>, code: ErrorCode)
    ensures
        error_of(text) == Some(code) <==> text == error_name(code),
{
    reveal_strlit("none");
    reveal_strlit("no-data-btc-relay");
    reveal_strlit("invalid-btc-relay");
    reveal_strlit("oracle-offline");
    reveal_strlit("liquidation");
    assert("none"@.len() == 4 && "oracle-offline"@.len() == 14 && "liquidation"@.len() == 11);
    assert("no-data-btc-relay"@.len() == 17 && "no-data-btc-relay"@[0] == 'n');
    assert("invalid-btc-relay"@.len() == 17 && "invalid-btc-relay"@[0] == 'i');
}

impl core::str::FromStr for PolkaBtcStatusCodeFromStr {
    type Err = String;

    /// Reads a status: `running`, `error` or `shutdown`, and nothing else.
    fn from_str(code: &str) -> (res: Result<Self, String>)
        ensures
            status_of(code@) matches Some(status) ==> res == Ok::<_, String>(
                PolkaBtcStatusCodeFromStr(status),
            ),
            status_of(code@) is None ==> (res matches Err(message) && message@
                == "Could not parse input as StatusCode"@),
            code@ == "running"@ ==> res == Ok::<_, String>(
                PolkaBtcStatusCodeFromStr(StatusCode::Running),
            ),
            code@ == "shutdown"@ ==> res == Ok::<_, String>(
                PolkaBtcStatusCodeFromStr(StatusCode::Shutdown),
            ),
            code@ == "error"@ ==> res == Ok::<_, String>(
                PolkaBtcStatusCodeFromStr(StatusCode::Error),
            ),
            res is Ok ==> code@ == "running"@ || code@ == "shutdown"@ || code@ == "error"@,
    {
        proof {
            law_status_names("running"@, StatusCode::Running);
            law_status_names("shutdown"@, StatusCode::Shutdown);
            law_status_names("error"@, StatusCode::Error);
        }
        let text = code.to_string();
        if text == "running".to_string() {
            Ok(PolkaBtcStatusCodeFromStr(StatusCode::Running))
        } else if text == "shutdown".to_string() {
            Ok(PolkaBtcStatusCodeFromStr(StatusCode::Shutdown))
        } else if text == "error".to_string() {
            Ok(PolkaBtcStatusCodeFromStr(StatusCode::Error))
        } else {
            Err("Could not parse input as StatusCode".to_string())
        }
    }
}

impl core::str::FromStr for PolkaBtcErrorCodeFromStr {
    type Err = String;

    /// Reads an error: `none`, `no-data-btc-relay`, `invalid-btc-relay`, `oracle-offline` or
    /// `liquidation`, and nothing else.
    fn from_str(code: &str) -> (res: Result<Self, String>)
        ensures
            error_of(code@) matches Some(error) ==> res == Ok::<_, String>(
                PolkaBtcErrorCodeFromStr(error),
            ),
            error_of(code@) is None ==> (res matches Err(message) && message@
                == "Could not parse input as ErrorCode"@),
            code@ == "none"@ ==> res == Ok::<_, String>(
                PolkaBtcErrorCodeFromStr(ErrorCode::NoError),
            ),
            code@ == "no-data-btc-relay"@ ==> res == Ok::<_, String>(
                PolkaBtcErrorCodeFromStr(ErrorCode::NoDataBTCRelay),
            ),
            code@ == "invalid-btc-relay"@ ==> res == Ok::<_, String>(
                PolkaBtcErrorCodeFromStr(ErrorCode::InvalidBTCRelay),
            ),
            code@ == "oracle-offline"@ ==> res == Ok::<_, String>(
                PolkaBtcErrorCodeFromStr(ErrorCode::OracleOffline),
            ),
            code@ == "liquidation"@ ==> res == Ok::<_, String>(
                PolkaBtcErrorCodeFromStr(ErrorCode::Liquidation),
            ),
            res is Ok ==> code@ == "none"@ || code@ == "no-data-btc-relay"@ || code@
                == "invalid-btc-relay"@ || code@ == "oracle-offline"@ || code@ == "liquidation"@,
    {
        proof {
            law_error_names("none"@, ErrorCode::NoError);
            law_error_names("no-data-btc-relay"@, ErrorCode::NoDataBTCRelay);
            law_error_names("invalid-btc-relay"@, ErrorCode::InvalidBTCRelay);
            law_error_names("oracle-offline"@, ErrorCode::OracleOffline);
            law_error_names("liquidation"@, ErrorCode::Liquidation);
        }
        let text = code.to_string();
        if text == "none".to_string() {
            Ok(PolkaBtcErrorCodeFromStr(ErrorCode::NoError))
        } else if text == "no-data-btc-relay".to_string() {
            Ok(PolkaBtcErrorCodeFromStr(ErrorCode::NoDataBTCRelay))
        } else if text == "invalid-btc-relay".to_string() {
            Ok(PolkaBtcErrorCodeFromStr(ErrorCode::InvalidBTCRelay))
        } else if text == "oracle-offline".to_string() {
            Ok(PolkaBtcErrorCodeFromStr(ErrorCode::OracleOffline))
        } else if text == "liquidation".to_string() {
            Ok(PolkaBtcErrorCodeFromStr(ErrorCode::Liquidation))
        } else {
            Err("Could not parse input as ErrorCode".to_string())
        }
    }
}

/// Each status is read from one text alone, and nothing else is read.
pub proof fn law_status_is_read_from_its_text(text: Seq<char>)
    ensures
        status_of(text) == Some(StatusCode::Running) <==> text == "running"@,
        status_of(text) == Some(StatusCode::Shutdown) <==> text == "shutdown"@,
        status_of(text) == Some(StatusCode::Error) <==> text == "error"@,
{
    law_status_names(text, StatusCode::Running);
    law_status_names(text, StatusCode::Shutdown);
    law_status_names(text, StatusCode::Error);
}

/// Each error is read from one text alone, and nothing else is read.
pub proof fn law_error_is_read_from_its_text(text: Seq<char>)
    ensures
        error_of(text) == Some(ErrorCode::NoError) <==> text == "none"@,
        error_of(text) == Some(ErrorCode::NoDataBTCRelay) <==> text == "no-data-btc-relay"@,
        error_of(text) == Some(ErrorCode::InvalidBTCRelay) <==> text == "invalid-btc-relay"@,
        error_of(text) == Some(ErrorCode::OracleOffline) <==> text == "oracle-offline"@,
        error_of(text) == Some(ErrorCode::Liquidation) <==> text == "liquidation"@,
{
    law_error_names(text, ErrorCode::NoError);
    law_error_names(text, ErrorCode::NoDataBTCRelay);
    law_error_names(text, ErrorCode::InvalidBTCRelay);
    law_error_names(text, ErrorCode::OracleOffline);
    law_error_names(text, ErrorCode::Liquidation);
}

} // verus!
