//! The endpoints that take credits from a user's paid plan and add credits
//! to it.

use vstd::prelude::*;
use vstd::string::*;
use crate::error::{AppError, AppResult, ErrorKind, ErrorView};
use crate::outside::{principal_from_text, principal_of_text, principal_view};
use crate::types::{ApiResponse, CreditRequest};

verus! {

/// The character of a decimal digit.
pub open spec fn spec_digit(d: nat) -> char {
    if d == 0 {
        '0'
    } else if d == 1 {
        '1'
    } else if d == 2 {
        '2'
    } else if d == 3 {
        '3'
    } else if d == 4 {
        '4'
    } else if d == 5 {
        '5'
    } else if d == 6 {
        '6'
    } else if d == 7 {
        '7'
    } else if d == 8 {
        '8'
    } else {
        '9'
    }
}

/// A number in decimal, without leading zeros.
pub open spec fn spec_decimal(n: nat) -> Seq<char>
    decreases n,
{
    if n < 10 {
        seq![spec_digit(n)]
    } else {
        spec_decimal(n / 10).push(spec_digit(n % 10))
    }
}

/// The text of a decimal digit.
fn digit_text(d: u64) -> (text: &'static str)
    requires
        d < 10,
    ensures
        text@ == seq![spec_digit(d as nat)],
{
    proof {
        reveal_strlit("0");
        reveal_strlit("1");
        reveal_strlit("2");
        reveal_strlit("3");
        reveal_strlit("4");
        reveal_strlit("5");
        reveal_strlit("6");
        reveal_strlit("7");
        reveal_strlit("8");
        reveal_strlit("9");
    }
    let text = if d == 0 {
        "0"
    } else if d == 1 {
        "1"
    } else if d == 2 {
        "2"
    } else if d == 3 {
        "3"
    } else if d == 4 {
        "4"
    } else if d == 5 {
        "5"
    } else if d == 6 {
        "6"
    } else if d == 7 {
        "7"
    } else if d == 8 {
        "8"
    } else {
        "9"
    };
    assert(text@ =~= seq![spec_digit(d as nat)]);
    text
}

/// Writes a number in decimal.
pub fn decimal_text(n: u64) -> (text: String)
    ensures
        text@ == spec_decimal(n as nat),
    decreases n,
{
    if n < 10 {
        String::from_str(digit_text(n))
    } else {
        let head = decimal_text(n / 10);
        let text = head.concat(digit_text(n % 10));
        assert(text@ =~= spec_decimal(n as nat));
        text
    }
}

/// Whether credits are taken or added.
#[derive(Debug, Clone, Copy, PartialEq, Eq, Structural)]
pub enum CreditDirection {
    Deduct,
    Increment,
}

/// A request to the ledger to change the credits of an account, given as the
/// bytes of its principal, by `amount`.
#[derive(Debug, Clone, PartialEq, Eq)]
pub struct CreditChange {
    pub principal: Vec<u8>,
    pub amount: u64,
}

/// The request to the ledger that a credit request leads to, given whether the
/// agent through which the ledger is reached is there and what parsing the
/// user's principal gave.
pub open spec fn spec_credit_change(
    agent_available: bool,
    parsed: Result<Seq<u8>, Seq<char>>,
    amount: u64,
) -> Result<(Seq<u8>, u64), ErrorView> {
    if !agent_available {
        Err(ErrorView::plain(ErrorKind::AdminIcAgentMissing))
    } else {
        match parsed {
            Ok(bytes) => Ok((bytes, amount)),
            Err(reason) => Err(
                ErrorView::with_detail(ErrorKind::BadRequest, "Invalid user principal: "@ + reason),
            ),
        }
    }
}

/// A request to the ledger, as plain values.
pub open spec fn credit_change_view(r: AppResult<CreditChange>) -> Result<(Seq<u8>, u64), ErrorView> {
    match r {
        Ok(change) => Ok((change.principal@, change.amount)),
        Err(e) => Err(e@),
    }
}

/// Builds the request to the ledger from what parsing the user's principal
/// gave.
pub fn credit_change(agent_available: bool, parsed: Result<Vec<u8>, String>, amount: u64) -> (r:
    AppResult<CreditChange>)
    ensures
        credit_change_view(r) == spec_credit_change(agent_available, principal_view(parsed), amount),
{
    if !agent_available {
        return Err(AppError::AdminIcAgentMissing);
    }
    match parsed {
        Ok(principal) => Ok(CreditChange { principal, amount }),
        Err(reason) => Err(
            AppError::BadRequest(
                String::from_str("Invalid user principal: ").concat(reason.as_str()),
            ),
        ),
    }
}

/// The request to the ledger that takes credits from a user's account.
pub fn deduct_credits(agent_available: bool, payload: &CreditRequest) -> (r: AppResult<CreditChange>)
    ensures
        credit_change_view(r) == spec_credit_change(
            agent_available,
            principal_of_text(payload.user_principal@),
            payload.amount,
        ),
{
    if !agent_available {
        return Err(AppError::AdminIcAgentMissing);
    }
    credit_change(true, principal_from_text(payload.user_principal.as_str()), payload.amount)
}

/// The request to the ledger that adds credits to a user's account.
pub fn increment_credits(agent_available: bool, payload: &CreditRequest) -> (r: AppResult<
    CreditChange,
>)
    ensures
        credit_change_view(r) == spec_credit_change(
            agent_available,
            principal_of_text(payload.user_principal@),
            payload.amount,
        ),
{
    if !agent_available {
        return Err(AppError::AdminIcAgentMissing);
    }
    credit_change(true, principal_from_text(payload.user_principal.as_str()), payload.amount)
}

/// The message of a credit change that went through.
pub open spec fn spec_credit_message(direction: CreditDirection, amount: u64) -> Seq<char> {
    match direction {
        CreditDirection::Deduct => "Successfully deducted "@ + spec_decimal(amount as nat)
            + " credits from user"@,
        CreditDirection::Increment => "Successfully added "@ + spec_decimal(amount as nat)
            + " credits to user"@,
    }
}

/// The error of a credit change that the ledger could not be asked for.
pub open spec fn spec_credit_unreached(direction: CreditDirection, reason: Seq<char>) -> ErrorView {
    ErrorView::with_detail(
        ErrorKind::NetworkError,
        match direction {
            CreditDirection::Deduct => "Failed to deduct credits: "@ + reason,
            CreditDirection::Increment => "Failed to increment credits: "@ + reason,
        },
    )
}

/// What the ledger's reply to a credit change comes to. The outer result says
/// whether the ledger was reached, the inner one what it answered. Success is
/// answered with a message that names the amount; a ledger that was not
/// reached is a network error, and one that turned the change down makes the
/// request a bad one.
pub open spec fn spec_credit_outcome(
    direction: CreditDirection,
    amount: u64,
    reply: Result<Result<(), String>, String>,
) -> Result<Seq<char>, ErrorView> {
    match reply {
        Err(reason) => Err(spec_credit_unreached(direction, reason@)),
        Ok(Err(reason)) => Err(
            ErrorView::with_detail(ErrorKind::BadRequest, "Canister returned error: "@ + reason@),
        ),
        Ok(Ok(())) => Ok(spec_credit_message(direction, amount)),
    }
}

/// Reads the ledger's reply to a credit change.
pub fn credit_outcome(
    direction: CreditDirection,
    amount: u64,
    reply: Result<Result<(), String>, String>,
) -> (r: AppResult<ApiResponse<()>>)
    ensures
        match spec_credit_outcome(direction, amount, reply) {
            Ok(message) => r is Ok && r->Ok_0.success && r->Ok_0.msg is Some
                && r->Ok_0.msg->Some_0@ == message && r->Ok_0.error is None && r->Ok_0.data
                == Some(()),
            Err(e) => r is Err && r->Err_0@ == e,
        },
{
    match reply {
        Err(reason) => {
            let prefix = match direction {
                CreditDirection::Deduct => "Failed to deduct credits: ",
                CreditDirection::Increment => "Failed to increment credits: ",
            };
            Err(AppError::NetworkError(String::from_str(prefix).concat(reason.as_str())))
        },
        Ok(Err(reason)) => Err(
            AppError::BadRequest(
                String::from_str("Canister returned error: ").concat(reason.as_str()),
            ),
        ),
        Ok(Ok(())) => {
            let amount_text = decimal_text(amount);
            let message = match direction {
                CreditDirection::Deduct => String::from_str("Successfully deducted ").concat(
                    amount_text.as_str(),
                ).concat(" credits from user"),
                CreditDirection::Increment => String::from_str("Successfully added ").concat(
                    amount_text.as_str(),
                ).concat(" credits to user"),
            };
            Ok(ApiResponse::ok_with_msg(message))
        },
    }
}

} // verus!
