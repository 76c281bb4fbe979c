//! What a Bitcoin payment is made for.

use vstd::prelude::*;
use crate::error::Error;

verus! {

/// How far an issue request has come.
#[derive(Clone, Copy, Debug, PartialEq, Eq)]
pub enum IssueRequestStatus {
    Pending,
    Completed,
    Cancelled,
}

/// An issue request on the chain.
#[derive(Debug, PartialEq, Eq)]
pub struct IssueRequest<A> {
    pub status: IssueRequestStatus,
    /// The address that the vault expects the payment at.
    pub btc_address: A,
    /// The amount to issue.
    pub amount: u128,
    /// The fee to pay on top.
    pub fee: u128,
}

/// A recipient and an amount.
#[derive(Debug, PartialEq, Eq)]
pub struct Payment<A> {
    pub btc_address: A,
    pub satoshis: u128,
}

/// Whether the amount to pay for an issue request can be held, where there is one to pay.
pub open spec fn issue_amount_fits<A>(request: IssueRequest<A>) -> bool {
    request.status is Pending ==> request.amount + request.fee <= u128::MAX
}

/// The payment for an issue request: the amount and the fee, unless the request is closed.
pub open spec fn payment_for_issue<A>(request: IssueRequest<A>) -> Result<Payment<A>, Error> {
    match request.status {
        IssueRequestStatus::Completed => Err(Error::IssueCompleted),
        IssueRequestStatus::Cancelled => Err(Error::IssueCancelled),
        IssueRequestStatus::Pending => Ok(
            Payment {
                btc_address: request.btc_address,
                satoshis: (request.amount + request.fee) as u128,
            },
        ),
    }
}

/// The payment that the command line asks for: it has to name a recipient.
pub open spec fn payment_as_given<A>(btc_address: Option<A>, satoshis: u128) -> Result<
    Payment<A>,
    Error,
> {
    match btc_address {
        Some(btc_address) => Ok(Payment { btc_address, satoshis }),
        None => Err(Error::ExpectedBitcoinAddress),
    }
}

/// Decides what to pay for an issue request.
pub fn issue_payment<A>(request: IssueRequest<A>) -> (res: Result<Payment<A>, Error>)
    requires
        request.status is Pending ==> request.amount + request.fee <= u128::MAX,
    ensures
        res == payment_for_issue(request),
        request.status is Completed ==> res == Err::<Payment<A>, Error>(Error::IssueCompleted),
        request.status is Cancelled ==> res == Err::<Payment<A>, Error>(Error::IssueCancelled),
        request.status is Pending ==> (res matches Ok(payment) && payment.btc_address
            == request.btc_address && payment.satoshis == request.amount + request.fee),
{
    match request.status {
        IssueRequestStatus::Completed => Err(Error::IssueCompleted),
        IssueRequestStatus::Cancelled => Err(Error::IssueCancelled),
        IssueRequestStatus::Pending => Ok(
            Payment {
                btc_address: request.btc_address,
                satoshis: request.amount + request.fee,
            },
        ),
    }
}

/// Decides what to pay where no issue request is given.
pub fn given_payment<A>(btc_address: Option<A>, satoshis: u128) -> (res: Result<
    Payment<A>,
    Error,
>)
    ensures
        res == payment_as_given(btc_address, satoshis),
        btc_address matches Some(address) ==> (res matches Ok(payment) && payment.btc_address
            == address && payment.satoshis == satoshis),
        btc_address is None ==> res == Err::<Payment<A>, Error>(Error::ExpectedBitcoinAddress),
{
    match btc_address {
        Some(btc_address) => Ok(Payment { btc_address, satoshis }),
        None => Err(Error::ExpectedBitcoinAddress),
    }
}

/// A payment for an issue request moves the amount and the fee, no more and no less, to the address
/// of the request; a closed request is refused for what it is.
pub proof fn law_issue_payment_is_amount_and_fee<A>(request: IssueRequest<A>)
    requires
        request.status is Pending ==> request.amount + request.fee <= u128::MAX,
    ensures
        request.status is Pending <==> payment_for_issue(request) is Ok,
        payment_for_issue(request) matches Ok(payment) ==> payment.btc_address
            == request.btc_address && payment.satoshis - request.fee == request.amount,
        request.status is Completed <==> payment_for_issue(request) == Err::<Payment<A>, Error>(
            Error::IssueCompleted,
        ),
        request.status is Cancelled <==> payment_for_issue(request) == Err::<Payment<A>, Error>(
            Error::IssueCancelled,
        ),
{
}

/// A payment from the command line keeps its recipient and its amount, and is refused exactly if
/// there is no recipient.
pub proof fn law_given_payment_is_kept<A>(btc_address: Option<A>, satoshis: u128)
    ensures
        btc_address is Some <==> payment_as_given(btc_address, satoshis) is Ok,
        payment_as_given(btc_address, satoshis) matches Ok(payment) ==> Some(payment.btc_address)
            == btc_address && payment.satoshis == satoshis,
        payment_as_given(btc_address, satoshis) matches Err(error) ==> error
            == Error::ExpectedBitcoinAddress,
{
}

} // verus!
