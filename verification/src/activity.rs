//! The activity implementations of the money-transfer example.
//!
//! Each activity resolves its banking call from the payment details alone;
//! the surrounding activity context, logging, and async plumbing live with
//! the process wiring, outside the library.

use vstd::prelude::*;
use crate::banking::{BankingError, BankingService, holds_account, is_ascii_digit, mock_accounts};
use crate::shared::PaymentDetails;

verus! {

/// The activity implementation registered on the worker.
#[derive(Debug, Default)]
pub struct Activities;

impl Activities {
    /// Withdraw the amount from the source account.
    pub fn withdraw(data: PaymentDetails) -> (r: Result<String, BankingError>)
        ensures
            match r {
                Ok(c) => {
                    &&& holds_account(mock_accounts(), data@.source_account)
                    &&& exists|i: int|
                        0 <= i < mock_accounts().len() && mock_accounts()[i].account_number
                            == data@.source_account && mock_accounts()[i].balance >= data@.amount
                    &&& c@.len() == 11
                    &&& c@[0] == 'W'
                    &&& forall|k: int| 1 <= k < 11 ==> is_ascii_digit(c@[k])
                },
                Err(BankingError::InvalidAccount(e)) => {
                    &&& !holds_account(mock_accounts(), data@.source_account)
                    &&& e.account_number@ == data@.source_account
                },
                Err(BankingError::InsufficientFunds(e)) => {
                    &&& exists|i: int|
                        0 <= i < mock_accounts().len() && mock_accounts()[i].account_number
                            == data@.source_account && mock_accounts()[i].balance
                            == e.current_balance
                    &&& e.attempted_withdrawal == data@.amount
                    &&& e.current_balance < data@.amount
                },
            },
    {
        let mut reference_id = data.reference_id;
        reference_id.append("-withdrawal");
        let bank = BankingService { hostname: String::from_str("bank-api.example.com") };
        bank.withdraw(data.source_account, data.amount, reference_id)
    }

    /// Deposit the amount; the mock consults the source account's record.
    pub fn deposit(data: PaymentDetails) -> (r: Result<String, BankingError>)
        ensures
            match r {
                Ok(c) => {
                    &&& holds_account(mock_accounts(), data@.source_account)
                    &&& c@.len() == 11
                    &&& c@[0] == 'D'
                    &&& forall|k: int| 1 <= k < 11 ==> is_ascii_digit(c@[k])
                },
                Err(BankingError::InvalidAccount(e)) => {
                    &&& !holds_account(mock_accounts(), data@.source_account)
                    &&& e.account_number@ == data@.source_account
                },
                Err(BankingError::InsufficientFunds(_)) => false,
            },
    {
        let mut reference_id = data.reference_id;
        reference_id.append("-deposit");
        let bank = BankingService { hostname: String::from_str("bank-api.example.com") };
        bank.deposit(data.source_account, data.amount, reference_id)
    }

    /// Refund the amount back; the mock consults the target account's record.
    pub fn refund(data: PaymentDetails) -> (r: Result<String, BankingError>)
        ensures
            match r {
                Ok(c) => {
                    &&& holds_account(mock_accounts(), data@.target_account)
                    &&& c@.len() == 11
                    &&& c@[0] == 'D'
                    &&& forall|k: int| 1 <= k < 11 ==> is_ascii_digit(c@[k])
                },
                Err(BankingError::InvalidAccount(e)) => {
                    &&& !holds_account(mock_accounts(), data@.target_account)
                    &&& e.account_number@ == data@.target_account
                },
                Err(BankingError::InsufficientFunds(_)) => false,
            },
    {
        let mut reference_id = data.reference_id;
        reference_id.append("-refund");
        let bank = BankingService { hostname: String::from_str("bank-api.example.com") };
        bank.deposit(data.target_account, data.amount, reference_id)
    }
}

} // verus!
