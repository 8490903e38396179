//! Wallet rules: how much can be sent, the checks on a typed amount, which
//! ledger a transfer goes through, the withdrawal button and its result
//! pages, and the token form's field checks.
use vstd::prelude::*;
use crate::decimal::{decimal, parse_bounded, parse_unsigned, u64_to_string};
use crate::principal::{ascii_lower, is_principal_text, parse_principal_text};

verus! {

/// The largest amount that can be sent: the balance less the fee, or
/// nothing when the balance does not exceed the fee.
pub fn max_transferable(balance: u128, fees: u128) -> (r: u128)
    ensures
        r == (if balance > fees {
            (balance - fees) as u128
        } else {
            0u128
        }),
{
    if balance > fees {
        balance - fees
    } else {
        0
    }
}

/// Checks an amount typed in the transfer form (already read as a token
/// amount, or not readable) against the largest amount that can be sent.
pub fn check_transfer_amount(amount: Option<u128>, max_amount: u128) -> (r: Result<u128, String>)
    ensures
        match amount {
            None => r is Err && r->Err_0@ == "Invalid amount"@,
            Some(a) => if a > max_amount {
                r is Err && r->Err_0@ == "Sorry, there are not enough funds in this account"@
            } else if a == 0 {
                r is Err && r->Err_0@ == "Cannot send 0 tokens"@
            } else {
                r == Ok::<u128, String>(a)
            },
        },
{
    match amount {
        None => Err(String::from_str("Invalid amount")),
        Some(a) => {
            if a > max_amount {
                Err(String::from_str("Sorry, there are not enough funds in this account"))
            } else if a == 0 {
                Err(String::from_str("Cannot send 0 tokens"))
            } else {
                Ok(a)
            }
        },
    }
}

/// Whether the send button can be pressed.
pub fn can_send(amount_ready: bool, destination_ready: bool, sending: bool) -> (r: bool)
    ensures
        r == (amount_ready && destination_ready && !sending),
{
    amount_ready && destination_ready && !sending
}

/// The kind of token a wallet page is about.
#[derive(Clone, Copy, Debug, PartialEq, Eq, Structural)]
pub enum TokenRoot {
    /// A token of an SNS, sent through the ledger its root lists.
    Other,
    Btc,
    Usdc,
    Coyns,
    Cents,
    Sats,
}

/// How a transfer is made.
#[derive(Clone, Copy, Debug, PartialEq, Eq, Structural)]
pub enum TransferRoute {
    /// Through the SNS ledger found from the token's root.
    SnsLedger,
    /// Through the chain-key ledger of the token.
    ChainKeyLedger,
}

/// The way a token is transferred, or why it cannot be.
pub fn transfer_route(root: TokenRoot) -> (r: Result<TransferRoute, String>)
    ensures
        match root {
            TokenRoot::Other => r == Ok::<TransferRoute, String>(TransferRoute::SnsLedger),
            TokenRoot::Btc | TokenRoot::Usdc => r == Ok::<TransferRoute, String>(
                TransferRoute::ChainKeyLedger,
            ),
            TokenRoot::Coyns => r is Err && r->Err_0@ == "Coyns cannot be transferred"@,
            TokenRoot::Cents => r is Err && r->Err_0@ == "Cents cannot be transferred"@,
            TokenRoot::Sats => r is Err && r->Err_0@ == "Satoshis cannot be transferred"@,
        },
{
    match root {
        TokenRoot::Other => Ok(TransferRoute::SnsLedger),
        TokenRoot::Btc => Ok(TransferRoute::ChainKeyLedger),
        TokenRoot::Usdc => Ok(TransferRoute::ChainKeyLedger),
        TokenRoot::Coyns => Err(String::from_str("Coyns cannot be transferred")),
        TokenRoot::Cents => Err(String::from_str("Cents cannot be transferred")),
        TokenRoot::Sats => Err(String::from_str("Satoshis cannot be transferred")),
    }
}

/// The sats typed in the withdrawal form: the number when it reads as one
/// that fits in a `usize` (the platform's, 32 bits in the browser), else zero.
pub fn sats_from_input(input: &str) -> (r: usize)
    ensures
        r as nat == (match parse_unsigned(input@, usize::MAX as nat) {
            Some(v) => v,
            None => 0,
        }),
{
    match parse_bounded(input, usize::MAX as u128) {
        Some(v) => v as usize,
        None => 0,
    }
}

/// The label of the withdrawal button.
pub fn withdraw_button_message(no_input: bool, can_withdraw: bool, is_claiming: bool) -> (r: &'static str)
    ensures
        r@ == (if no_input {
            "Enter Amount"@
        } else if !can_withdraw {
            "Not enough winnings"@
        } else if is_claiming {
            "Claiming..."@
        } else {
            "Withdraw Now!"@
        }),
{
    if no_input {
        "Enter Amount"
    } else if !can_withdraw {
        "Not enough winnings"
    } else if is_claiming {
        "Claiming..."
    } else {
        "Withdraw Now!"
    }
}

/// Whether the withdrawal button is disabled.
pub fn withdraw_button_disabled(no_input: bool, can_withdraw: bool) -> (r: bool)
    ensures
        r == (no_input || !can_withdraw),
{
    no_input || !can_withdraw
}

/// The page a withdrawal claim leads to: success with the amount, or
/// failure with the amount and the error.
pub fn withdraw_result_path(sats: usize, error: Option<&str>) -> (r: String)
    ensures
        r@ == (match error {
            None => "/hot-or-not/withdraw/success?sats="@ + decimal(sats as nat),
            Some(e) => "/hot-or-not/withdraw/failure?sats="@ + decimal(sats as nat) + "&err="@
                + e@,
        }),
{
    match error {
        None => {
            let mut s = String::from_str("/hot-or-not/withdraw/success?sats=");
            s.append(u64_to_string(sats as u64).as_str());
            s
        },
        Some(e) => {
            let mut s = String::from_str("/hot-or-not/withdraw/failure?sats=");
            s.append(u64_to_string(sats as u64).as_str());
            s.append("&err=");
            s.append(e);
            s
        },
    }
}

/// A token form field must not be empty.
pub fn non_empty_string_validator(s: String) -> (r: Option<String>)
    ensures
        r == (if s@.len() == 0 {
            None
        } else {
            Some(s)
        }),
{
    if s.as_str().unicode_len() == 0 {
        None
    } else {
        Some(s)
    }
}

/// A numeric token form field must not be empty and must read as a `u64`.
pub fn non_empty_string_validator_for_u64(s: String) -> (r: Option<u64>)
    ensures
        match r {
            Some(v) => s@.len() > 0 && parse_unsigned(s@, u64::MAX as nat) == Some(v as nat),
            None => s@.len() == 0 || parse_unsigned(s@, u64::MAX as nat) is None,
        },
{
    if s.as_str().unicode_len() == 0 {
        return None;
    }
    match parse_bounded(s.as_str(), u64::MAX as u128) {
        Some(v) => Some(v as u64),
        None => None,
    }
}

/// The destination typed in the transfer form, read as a principal and
/// printed, or the error shown when it names none.
pub fn destination_from_text(text: &str) -> (r: Result<String, String>)
    ensures
        r is Ok <==> is_principal_text(text@),
        r matches Ok(t) ==> t@ == ascii_lower(text@),
        r matches Err(e) ==> e@ == "Invalid principal"@,
{
    match parse_principal_text(text) {
        Some(t) => Ok(t),
        None => Err(String::from_str("Invalid principal")),
    }
}

} // verus!
