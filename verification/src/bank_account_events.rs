use vstd::prelude::*;
use crate::aggregate::DomainEvent;

verus! {

/// A fact about one bank account. Amounts and balances are whole currency
/// units. Each money event carries the balance that results from it, so that
/// replaying a history never recomputes a balance.
#[derive(Debug, PartialEq)]
pub enum BankAccountEvent {
    AccountOpened { account_id: String },
    CustomerDepositedMoney { amount: i64, balance: i64 },
    CustomerWithdrewCash { amount: i64, balance: i64 },
    CustomerWroteCheck { check_number: String, amount: i64, balance: i64 },
}

/// The mathematical value of a [`BankAccountEvent`].
pub enum BankAccountEventView {
    AccountOpened { account_id: Seq<char> },
    CustomerDepositedMoney { amount: int, balance: int },
    CustomerWithdrewCash { amount: int, balance: int },
    CustomerWroteCheck { check_number: Seq<char>, amount: int, balance: int },
}

impl View for BankAccountEvent {
    type V = BankAccountEventView;

    open spec fn view(&self) -> BankAccountEventView {
        match self {
            BankAccountEvent::AccountOpened { account_id } => BankAccountEventView::AccountOpened {
                account_id: account_id@,
            },
            BankAccountEvent::CustomerDepositedMoney {
                amount,
                balance,
            } => BankAccountEventView::CustomerDepositedMoney {
                amount: *amount as int,
                balance: *balance as int,
            },
            BankAccountEvent::CustomerWithdrewCash {
                amount,
                balance,
            } => BankAccountEventView::CustomerWithdrewCash {
                amount: *amount as int,
                balance: *balance as int,
            },
            BankAccountEvent::CustomerWroteCheck {
                check_number,
                amount,
                balance,
            } => BankAccountEventView::CustomerWroteCheck {
                check_number: check_number@,
                amount: *amount as int,
                balance: *balance as int,
            },
        }
    }
}

impl Clone for BankAccountEvent {
    fn clone(&self) -> (copy: Self)
        ensures
            copy == *self,
    {
        match self {
            BankAccountEvent::AccountOpened { account_id } => BankAccountEvent::AccountOpened {
                account_id: account_id.clone(),
            },
            BankAccountEvent::CustomerDepositedMoney {
                amount,
                balance,
            } => BankAccountEvent::CustomerDepositedMoney { amount: *amount, balance: *balance },
            BankAccountEvent::CustomerWithdrewCash {
                amount,
                balance,
            } => BankAccountEvent::CustomerWithdrewCash { amount: *amount, balance: *balance },
            BankAccountEvent::CustomerWroteCheck {
                check_number,
                amount,
                balance,
            } => BankAccountEvent::CustomerWroteCheck {
                check_number: check_number.clone(),
                amount: *amount,
                balance: *balance,
            },
        }
    }
}

impl DomainEvent for BankAccountEvent {
    /// The name of the event's variant.
    open spec fn kind_name(value: BankAccountEventView) -> Seq<char> {
        match value {
            BankAccountEventView::AccountOpened { .. } => "AccountOpened"@,
            BankAccountEventView::CustomerDepositedMoney { .. } => "CustomerDepositedMoney"@,
            BankAccountEventView::CustomerWithdrewCash { .. } => "CustomerWithdrewCash"@,
            BankAccountEventView::CustomerWroteCheck { .. } => "CustomerWroteCheck"@,
        }
    }

    /// The same version for every event.
    open spec fn version_name(value: BankAccountEventView) -> Seq<char> {
        "1.0"@
    }

    fn event_type(&self) -> (name: String) {
        match self {
            BankAccountEvent::AccountOpened { .. } => "AccountOpened".to_owned(),
            BankAccountEvent::CustomerDepositedMoney { .. } => "CustomerDepositedMoney".to_owned(),
            BankAccountEvent::CustomerWithdrewCash { .. } => "CustomerWithdrewCash".to_owned(),
            BankAccountEvent::CustomerWroteCheck { .. } => "CustomerWroteCheck".to_owned(),
        }
    }

    fn event_version(&self) -> (version: String) {
        "1.0".to_owned()
    }

    fn duplicate(&self) -> (copy: Self) {
        self.clone()
    }
}

} // verus!
