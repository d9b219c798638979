use event_ledger::aggregate::DomainEvent;
use event_ledger::bank_account_errors::BankAccountError;
use event_ledger::bank_account_events::BankAccountEvent;

#[test]
fn bank_account_event_version_is_1_0() {
    let event = BankAccountEvent::AccountOpened { account_id: "123".to_string() };
    assert_eq!(event.event_version(), "1.0".to_string());
}

#[test]
fn bank_account_event_type_is_account_opened() {
    let event = BankAccountEvent::AccountOpened { account_id: "123".to_string() };
    assert_eq!(event.event_type(), "AccountOpened".to_string());
}

#[test]
fn bank_account_event_type_is_customer_deposited_money() {
    let event = BankAccountEvent::CustomerDepositedMoney { amount: 100, balance: 100 };
    assert_eq!(event.event_type(), "CustomerDepositedMoney".to_string());
}

#[test]
fn bank_account_event_type_is_customer_withdrew_cash() {
    let event = BankAccountEvent::CustomerWithdrewCash { amount: 100, balance: 100 };
    assert_eq!(event.event_type(), "CustomerWithdrewCash".to_string());
}

#[test]
fn bank_account_event_type_is_customer_wrote_check() {
    let event = BankAccountEvent::CustomerWroteCheck {
        check_number: "123".to_string(),
        amount: 100,
        balance: 100,
    };
    assert_eq!(event.event_type(), "CustomerWroteCheck".to_string());
}

#[test]
fn bank_account_event_duplicate_is_equal() {
    let event = BankAccountEvent::CustomerWroteCheck {
        check_number: "1170".to_string(),
        amount: 100,
        balance: 250,
    };
    assert_eq!(event.duplicate(), event);
    assert_eq!(event.clone(), event);
    let opened = BankAccountEvent::AccountOpened { account_id: "A1".to_string() };
    assert_eq!(opened.duplicate(), opened);
    assert_ne!(opened.duplicate(), event);
}

#[test]
fn can_create_bank_account_error_from_string() {
    let error = BankAccountError::from("AccountAlreadyOpen");
    assert_eq!(error, BankAccountError::AccountAlreadyOpen);

    let error = BankAccountError::from("CannotDepositNegativeAmount");
    assert_eq!(error, BankAccountError::CannotDepositNegativeAmount);

    let error = BankAccountError::from("InsufficientFunds");
    assert_eq!(error, BankAccountError::InsufficientFunds);

    let error = BankAccountError::from("InvalidAmount");
    assert_eq!(error, BankAccountError::InvalidAmount);

    let error = BankAccountError::from("InvalidCheckNumber");
    assert_eq!(error, BankAccountError::InvalidCheckNumber);

    let error = BankAccountError::from("InvalidAccountId");
    assert_eq!(error, BankAccountError::InvalidAccountId);

    let error = BankAccountError::from("InvalidCheck");
    assert_eq!(error, BankAccountError::InvalidCheck);

    let error = BankAccountError::from("AtmRuleViolation");
    assert_eq!(error, BankAccountError::AtmRuleViolation);

    let error = BankAccountError::from("CannotWriteNegativeCheckAmount");
    assert_eq!(error, BankAccountError::CannotWriteNegativeCheckAmount);

    let error = BankAccountError::from("AnyNonMatchingErrorString");
    assert_eq!(
        error,
        BankAccountError::UnexpectedError("AnyNonMatchingErrorString".to_string())
    );
}

#[test]
fn withdraw_error_name_is_not_among_the_names() {
    assert_eq!(
        BankAccountError::from("CannotWithdrawNegativeAmount"),
        BankAccountError::UnexpectedError("CannotWithdrawNegativeAmount".to_string())
    );
    assert_eq!(BankAccountError::from(""), BankAccountError::UnexpectedError(String::new()));
}

#[test]
fn bank_account_error_messages() {
    assert_eq!(BankAccountError::AccountAlreadyOpen.to_string(), "account already open");
    assert_eq!(
        BankAccountError::CannotDepositNegativeAmount.to_string(),
        "cannot deposit negative amount"
    );
    assert_eq!(
        BankAccountError::CannotWithdrawNegativeAmount.to_string(),
        "cannot withdraw negative amount"
    );
    assert_eq!(BankAccountError::InsufficientFunds.to_string(), "insufficient funds");
    assert_eq!(BankAccountError::InvalidAmount.to_string(), "invalid amount");
    assert_eq!(BankAccountError::InvalidCheckNumber.to_string(), "invalid check number");
    assert_eq!(BankAccountError::InvalidAccountId.to_string(), "invalid account id");
    assert_eq!(BankAccountError::InvalidCheck.to_string(), "invalid check");
    assert_eq!(BankAccountError::AtmRuleViolation.to_string(), "atm rule violation");
    assert_eq!(
        BankAccountError::CannotWriteNegativeCheckAmount.to_string(),
        "cannot write negative check amount"
    );
    assert_eq!(
        BankAccountError::UnexpectedError("boom".to_string()).to_string(),
        "Unexpected Error: boom"
    );
}
