//! The toy banking service used by the activities: an in-memory bank with
//! fixed mock accounts, whole-unit balances, and randomly numbered
//! transaction confirmations.

use vstd::prelude::*;
use rand::Rng;

verus! {

/// The character of one decimal digit.
pub open spec fn digit_char(d: int) -> char {
    if d == 0 {
        '0'
    } else if d == 1 {
        '1'
    } else if d == 2 {
        '2'
    } else if d == 3 {
        '3'
    } else if d == 4 {
        '4'
    } else if d == 5 {
        '5'
    } else if d == 6 {
        '6'
    } else if d == 7 {
        '7'
    } else if d == 8 {
        '8'
    } else {
        '9'
    }
}

/// Whether a character is a decimal digit.
pub open spec fn is_ascii_digit(c: char) -> bool {
    '0' <= c && c <= '9'
}

/// The decimal rendering of a natural number, most significant digit first.
pub open spec fn decimal_digits(n: nat) -> Seq<char>
    decreases n,
{
    if n < 10 {
        seq![digit_char(n as int)]
    } else {
        decimal_digits(n / 10) + seq![digit_char((n % 10) as int)]
    }
}

/// The one-character string of a decimal digit.
fn digit_str(d: u64) -> (r: &'static str)
    requires
        d < 10,
    ensures
        r@ == seq![digit_char(d as int)],
        is_ascii_digit(r@[0]),
{
    let r: &'static str = match d {
        0 => "0",
        1 => "1",
        2 => "2",
        3 => "3",
        4 => "4",
        5 => "5",
        6 => "6",
        7 => "7",
        8 => "8",
        _ => "9",
    };
    proof {
        reveal_strlit("0");
        reveal_strlit("1");
        reveal_strlit("2");
        reveal_strlit("3");
        reveal_strlit("4");
        reveal_strlit("5");
        reveal_strlit("6");
        reveal_strlit("7");
        reveal_strlit("8");
        reveal_strlit("9");
        assert(r@ =~= seq![digit_char(d as int)]);
    }
    r
}

/// Render a number in decimal.
pub fn u64_to_string(n: u64) -> (s: String)
    ensures
        s@ == decimal_digits(n as nat),
    decreases n,
{
    if n < 10 {
        String::from_str(digit_str(n))
    } else {
        let mut s = u64_to_string(n / 10);
        s.append(digit_str(n % 10));
        s
    }
}

/// Insufficient balance for a withdrawal.
#[derive(Debug)]
pub struct InsufficientFundsError {
    /// The account's balance at the time of the attempt.
    pub current_balance: u64,
    /// The amount whose withdrawal was attempted.
    pub attempted_withdrawal: u64,
}

impl InsufficientFundsError {
    /// Render the error for display.
    pub fn message(&self) -> (r: String)
        ensures
            r@ == "insufficient funds: current balance is "@ + decimal_digits(
                self.current_balance as nat,
            ) + ", attempted withdrawal of "@ + decimal_digits(self.attempted_withdrawal as nat),
    {
        let mut s = String::from_str("insufficient funds: current balance is ");
        s.append(u64_to_string(self.current_balance).as_str());
        s.append(", attempted withdrawal of ");
        s.append(u64_to_string(self.attempted_withdrawal).as_str());
        s
    }
}

/// No account with the given number exists.
#[derive(Debug)]
pub struct InvalidAccountError {
    /// The account number that was looked up.
    pub account_number: String,
}

impl InvalidAccountError {
    /// Render the error for display.
    pub fn message(&self) -> (r: String)
        ensures
            r@ == "no account found with number "@ + self.account_number@,
    {
        let mut s = String::from_str("no account found with number ");
        s.append(self.account_number.as_str());
        s
    }
}

/// An error of the banking service.
#[derive(Debug)]
pub enum BankingError {
    /// The account's balance does not cover the withdrawal.
    InsufficientFunds(InsufficientFundsError),
    /// No account with the given number exists.
    InvalidAccount(InvalidAccountError),
}

impl BankingError {
    /// Render the error for display.
    pub fn message(&self) -> (r: String)
        ensures
            match self {
                BankingError::InsufficientFunds(e) => r@ == "insufficient funds: current balance is "@
                    + decimal_digits(e.current_balance as nat) + ", attempted withdrawal of "@
                    + decimal_digits(e.attempted_withdrawal as nat),
                BankingError::InvalidAccount(e) => r@ == "no account found with number "@
                    + e.account_number@,
            },
    {
        match self {
            BankingError::InsufficientFunds(e) => e.message(),
            BankingError::InvalidAccount(e) => e.message(),
        }
    }
}

/// Mathematical model of an [`Account`].
#[verifier::ext_equal]
pub struct AccountView {
    /// The account number.
    pub account_number: Seq<char>,
    /// The balance, in whole currency units.
    pub balance: int,
}

/// One account of the bank.
#[derive(Debug)]
pub struct Account {
    /// The account number.
    pub account_number: String,
    /// The balance, in whole currency units.
    pub balance: u64,
}

impl View for Account {
    type V = AccountView;

    open spec fn view(&self) -> AccountView {
        AccountView { account_number: self.account_number@, balance: self.balance as int }
    }
}

/// A bank holding a fixed list of accounts.
#[derive(Debug)]
pub struct Bank {
    accounts: Vec<Account>,
}

impl View for Bank {
    type V = Seq<AccountView>;

    closed spec fn view(&self) -> Seq<AccountView> {
        self.accounts@.map_values(|a: Account| a@)
    }
}

/// Whether the bank holds an account with the given number.
pub open spec fn holds_account(accounts: Seq<AccountView>, number: Seq<char>) -> bool {
    exists|i: int| 0 <= i < accounts.len() && accounts[i].account_number == number
}

impl Bank {
    /// Look up an account by number; the first match wins.
    pub fn find_account(&self, account_number: &str) -> (r: Result<&Account, InvalidAccountError>)
        ensures
            match r {
                Ok(a) => exists|i: int|
                    0 <= i < self@.len() && self@[i].account_number == account_number@ && a@
                        == self@[i] && (forall|j: int|
                        0 <= j < i ==> self@[j].account_number != account_number@),
                Err(e) => !holds_account(self@, account_number@) && e.account_number@
                    == account_number@,
            },
    {
        let needle = String::from_str(account_number);
        let n = self.accounts.len();
        let mut i: usize = 0;
        while i < n
            invariant
                n == self.accounts.len(),
                needle@ == account_number@,
                0 <= i <= n,
                forall|j: int| 0 <= j < i ==> self@[j].account_number != account_number@,
            decreases n - i,
        {
            if self.accounts[i].account_number == needle {
                let a = &self.accounts[i];
                proof {
                    assert(self@[i as int].account_number == account_number@);
                }
                return Ok(a);
            }
            i = i + 1;
        }
        Err(InvalidAccountError { account_number: needle })
    }
}

/// The accounts of the fixed mock bank.
pub open spec fn mock_accounts() -> Seq<AccountView> {
    seq![
        AccountView { account_number: "85-150"@, balance: 2000 },
        AccountView { account_number: "43-812"@, balance: 0 },
    ]
}

/// The fixed mock bank every service call consults.
pub fn mock_bank() -> (r: Bank)
    ensures
        r@ == mock_accounts(),
{
    let accounts = vec![
        Account { account_number: String::from_str("85-150"), balance: 2000 },
        Account { account_number: String::from_str("43-812"), balance: 0 },
    ];
    let bank = Bank { accounts };
    proof {
        assert(bank@ =~= mock_accounts());
    }
    bank
}

/// Relies on rand::Rng::random_range: the result lies within the requested
/// range.
#[verifier::external_body]
fn random_digit() -> (r: u64)
    ensures
        r < 10,
{
    rand::rng().random_range(0..10u64)
}

/// A transaction confirmation: the prefix followed by `length` random decimal
/// digits.
fn generate_transaction_id(prefix: &str, length: usize) -> (r: String)
    requires
        prefix@.len() + length <= usize::MAX,
    ensures
        r@.len() == prefix@.len() + length,
        r@.subrange(0, prefix@.len() as int) == prefix@,
        forall|k: int| prefix@.len() <= k < r@.len() ==> is_ascii_digit(r@[k]),
{
    let mut s = String::from_str(prefix);
    let mut i: usize = 0;
    while i < length
        invariant
            0 <= i <= length,
            s@.len() == prefix@.len() + i,
            s@.subrange(0, prefix@.len() as int) == prefix@,
            forall|k: int| prefix@.len() <= k < s@.len() ==> is_ascii_digit(s@[k]),
        decreases length - i,
    {
        let d = random_digit();
        let ghost before = s@;
        s.append(digit_str(d));
        proof {
            assert(s@.subrange(0, prefix@.len() as int) =~= before.subrange(
                0,
                prefix@.len() as int,
            ));
        }
        i = i + 1;
    }
    s
}

/// The banking service the activities call.
#[derive(Debug)]
pub struct BankingService {
    /// The service host; the mock consults the fixed in-memory bank instead.
    pub hostname: String,
}

impl BankingService {
    /// Withdraw `amount` from the account, returning a confirmation id
    /// starting with `W`.
    pub fn withdraw(
        &self,
        account_number: String,
        amount: u64,
        reference_id: String,
    ) -> (r: Result<String, BankingError>)
        ensures
            match r {
                Ok(c) => {
                    &&& holds_account(mock_accounts(), account_number@)
                    &&& exists|i: int|
                        0 <= i < mock_accounts().len() && mock_accounts()[i].account_number
                            == account_number@ && mock_accounts()[i].balance >= amount
                    &&& c@.len() == 11
                    &&& c@[0] == 'W'
                    &&& forall|k: int| 1 <= k < 11 ==> is_ascii_digit(c@[k])
                },
                Err(BankingError::InvalidAccount(e)) => {
                    &&& !holds_account(mock_accounts(), account_number@)
                    &&& e.account_number@ == account_number@
                },
                Err(BankingError::InsufficientFunds(e)) => {
                    &&& exists|i: int|
                        0 <= i < mock_accounts().len() && mock_accounts()[i].account_number
                            == account_number@ && mock_accounts()[i].balance == e.current_balance
                            && e.current_balance < amount
                    &&& e.attempted_withdrawal == amount
                },
            },
    {
        let _ = reference_id;
        let bank = mock_bank();
        let account = match bank.find_account(account_number.as_str()) {
            Ok(a) => a,
            Err(e) => {
                return Err(BankingError::InvalidAccount(e));
            },
        };
        if account.balance < amount {
            return Err(BankingError::InsufficientFunds(InsufficientFundsError {
                current_balance: account.balance,
                attempted_withdrawal: amount,
            }));
        }
        proof {
            reveal_strlit("W");
        }
        let confirmation = generate_transaction_id("W", 10);
        proof {
            assert(confirmation@[0] == confirmation@.subrange(0, 1)[0]);
        }
        Ok(confirmation)
    }

    /// Deposit `amount` into the account, returning a confirmation id
    /// starting with `D`.
    pub fn deposit(
        &self,
        account_number: String,
        amount: u64,
        reference_id: String,
    ) -> (r: Result<String, BankingError>)
        ensures
            match r {
                Ok(c) => {
                    &&& holds_account(mock_accounts(), account_number@)
                    &&& c@.len() == 11
                    &&& c@[0] == 'D'
                    &&& forall|k: int| 1 <= k < 11 ==> is_ascii_digit(c@[k])
                },
                Err(BankingError::InvalidAccount(e)) => {
                    &&& !holds_account(mock_accounts(), account_number@)
                    &&& e.account_number@ == account_number@
                },
                Err(BankingError::InsufficientFunds(_)) => false,
            },
    {
        let _ = amount;
        let _ = reference_id;
        let bank = mock_bank();
        match bank.find_account(account_number.as_str()) {
            Ok(_) => {},
            Err(e) => {
                return Err(BankingError::InvalidAccount(e));
            },
        }
        proof {
            reveal_strlit("D");
        }
        let confirmation = generate_transaction_id("D", 10);
        proof {
            assert(confirmation@[0] == confirmation@.subrange(0, 1)[0]);
        }
        Ok(confirmation)
    }

    /// A deposit that always fails, for exercising failure paths: it reports
    /// the account as invalid even when it exists.
    pub fn deposit_that_fails(
        &self,
        account_number: &str,
        _amount: i64,
        _reference_id: &str,
    ) -> (r: Result<String, BankingError>)
        ensures
            r matches Err(BankingError::InvalidAccount(e)) && e.account_number@ == account_number@,
    {
        let bank = mock_bank();
        match bank.find_account(account_number) {
            Ok(_) => {},
            Err(e) => {
                return Err(BankingError::InvalidAccount(e));
            },
        }
        proof {
            reveal_strlit("D");
        }
        let _confirmation = generate_transaction_id("D", 10);
        Err(BankingError::InvalidAccount(InvalidAccountError {
            account_number: String::from_str(account_number),
        }))
    }
}

} // verus!
