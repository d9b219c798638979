use vstd::prelude::*;
use crate::text::same_text;

verus! {

/// Why a bank account turned a command down.
#[derive(Debug, PartialEq)]
pub enum BankAccountError {
    AccountAlreadyOpen,
    CannotDepositNegativeAmount,
    CannotWithdrawNegativeAmount,
    InsufficientFunds,
    InvalidAmount,
    InvalidCheckNumber,
    InvalidAccountId,
    InvalidCheck,
    AtmRuleViolation,
    CannotWriteNegativeCheckAmount,
    UnexpectedError(String),
}

/// The mathematical value of a [`BankAccountError`]: the variant, and for an
/// unexpected error its text as a sequence of characters.
pub enum BankAccountErrorView {
    AccountAlreadyOpen,
    CannotDepositNegativeAmount,
    CannotWithdrawNegativeAmount,
    InsufficientFunds,
    InvalidAmount,
    InvalidCheckNumber,
    InvalidAccountId,
    InvalidCheck,
    AtmRuleViolation,
    CannotWriteNegativeCheckAmount,
    UnexpectedError(Seq<char>),
}

impl View for BankAccountError {
    type V = BankAccountErrorView;

    open spec fn view(&self) -> BankAccountErrorView {
        match self {
            BankAccountError::AccountAlreadyOpen => BankAccountErrorView::AccountAlreadyOpen,
            BankAccountError::CannotDepositNegativeAmount => BankAccountErrorView::CannotDepositNegativeAmount,
            BankAccountError::CannotWithdrawNegativeAmount => BankAccountErrorView::CannotWithdrawNegativeAmount,
            BankAccountError::InsufficientFunds => BankAccountErrorView::InsufficientFunds,
            BankAccountError::InvalidAmount => BankAccountErrorView::InvalidAmount,
            BankAccountError::InvalidCheckNumber => BankAccountErrorView::InvalidCheckNumber,
            BankAccountError::InvalidAccountId => BankAccountErrorView::InvalidAccountId,
            BankAccountError::InvalidCheck => BankAccountErrorView::InvalidCheck,
            BankAccountError::AtmRuleViolation => BankAccountErrorView::AtmRuleViolation,
            BankAccountError::CannotWriteNegativeCheckAmount => BankAccountErrorView::CannotWriteNegativeCheckAmount,
            BankAccountError::UnexpectedError(text) => BankAccountErrorView::UnexpectedError(text@),
        }
    }
}

impl BankAccountErrorView {
    /// The error that the name `name` stands for: the variant of that name
    /// where there is one, for the names listed here, and otherwise an
    /// unexpected error that carries `name` itself.
    pub open spec fn named(name: Seq<char>) -> Self {
        if name == "AccountAlreadyOpen"@ {
            BankAccountErrorView::AccountAlreadyOpen
        } else if name == "CannotDepositNegativeAmount"@ {
            BankAccountErrorView::CannotDepositNegativeAmount
        } else if name == "InsufficientFunds"@ {
            BankAccountErrorView::InsufficientFunds
        } else if name == "InvalidAmount"@ {
            BankAccountErrorView::InvalidAmount
        } else if name == "InvalidCheckNumber"@ {
            BankAccountErrorView::InvalidCheckNumber
        } else if name == "InvalidAccountId"@ {
            BankAccountErrorView::InvalidAccountId
        } else if name == "InvalidCheck"@ {
            BankAccountErrorView::InvalidCheck
        } else if name == "AtmRuleViolation"@ {
            BankAccountErrorView::AtmRuleViolation
        } else if name == "CannotWriteNegativeCheckAmount"@ {
            BankAccountErrorView::CannotWriteNegativeCheckAmount
        } else {
            BankAccountErrorView::UnexpectedError(name)
        }
    }

    /// The text shown for this error.
    pub open spec fn message(self) -> Seq<char> {
        match self {
            BankAccountErrorView::AccountAlreadyOpen => "account already open"@,
            BankAccountErrorView::CannotDepositNegativeAmount => "cannot deposit negative amount"@,
            BankAccountErrorView::CannotWithdrawNegativeAmount => "cannot withdraw negative amount"@,
            BankAccountErrorView::InsufficientFunds => "insufficient funds"@,
            BankAccountErrorView::InvalidAmount => "invalid amount"@,
            BankAccountErrorView::InvalidCheckNumber => "invalid check number"@,
            BankAccountErrorView::InvalidAccountId => "invalid account id"@,
            BankAccountErrorView::InvalidCheck => "invalid check"@,
            BankAccountErrorView::AtmRuleViolation => "atm rule violation"@,
            BankAccountErrorView::CannotWriteNegativeCheckAmount => "cannot write negative check amount"@,
            BankAccountErrorView::UnexpectedError(text) => "Unexpected Error: "@ + text,
        }
    }
}

impl BankAccountError {
    /// The error that the name `msg` stands for. `CannotWithdrawNegativeAmount`
    /// is not among the names: like any other text it gives an unexpected
    /// error.
    pub fn from(msg: &str) -> (error: Self)
        ensures
            error@ == BankAccountErrorView::named(msg@),
    {
        if same_text(msg, "AccountAlreadyOpen") {
            BankAccountError::AccountAlreadyOpen
        } else if same_text(msg, "CannotDepositNegativeAmount") {
            BankAccountError::CannotDepositNegativeAmount
        } else if same_text(msg, "InsufficientFunds") {
            BankAccountError::InsufficientFunds
        } else if same_text(msg, "InvalidAmount") {
            BankAccountError::InvalidAmount
        } else if same_text(msg, "InvalidCheckNumber") {
            BankAccountError::InvalidCheckNumber
        } else if same_text(msg, "InvalidAccountId") {
            BankAccountError::InvalidAccountId
        } else if same_text(msg, "InvalidCheck") {
            BankAccountError::InvalidCheck
        } else if same_text(msg, "AtmRuleViolation") {
            BankAccountError::AtmRuleViolation
        } else if same_text(msg, "CannotWriteNegativeCheckAmount") {
            BankAccountError::CannotWriteNegativeCheckAmount
        } else {
            BankAccountError::UnexpectedError(msg.to_owned())
        }
    }

    /// The text shown for this error.
    pub fn to_string(&self) -> (text: String)
        ensures
            text@ == self@.message(),
    {
        match self {
            BankAccountError::AccountAlreadyOpen => "account already open".to_owned(),
            BankAccountError::CannotDepositNegativeAmount => "cannot deposit negative amount".to_owned(),
            BankAccountError::CannotWithdrawNegativeAmount => "cannot withdraw negative amount".to_owned(),
            BankAccountError::InsufficientFunds => "insufficient funds".to_owned(),
            BankAccountError::InvalidAmount => "invalid amount".to_owned(),
            BankAccountError::InvalidCheckNumber => "invalid check number".to_owned(),
            BankAccountError::InvalidAccountId => "invalid account id".to_owned(),
            BankAccountError::InvalidCheck => "invalid check".to_owned(),
            BankAccountError::AtmRuleViolation => "atm rule violation".to_owned(),
            BankAccountError::CannotWriteNegativeCheckAmount => "cannot write negative check amount".to_owned(),
            BankAccountError::UnexpectedError(text) => "Unexpected Error: ".to_owned().concat(
                text.as_str(),
            ),
        }
    }
}

} // verus!
