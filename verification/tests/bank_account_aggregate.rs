use std::sync::Mutex;

use event_ledger::aggregate::{Aggregate, CommandHandler};
use event_ledger::bank_account_aggregate::BankAccount;
use event_ledger::bank_account_commands::BankAccountCommand;
use event_ledger::bank_account_errors::BankAccountError;
use event_ledger::bank_account_events::BankAccountEvent;
use event_ledger::bank_account_service::{
    AtmError, BankAccountApi, BankAccountServices, CheckingError, HappyPathBankAccountServices,
};

struct MockBankAccountServices {
    atm_withdrawal_response: Mutex<Option<Result<(), AtmError>>>,
    validate_check_response: Mutex<Option<Result<(), CheckingError>>>,
}

impl Default for MockBankAccountServices {
    fn default() -> Self {
        Self {
            atm_withdrawal_response: Mutex::new(None),
            validate_check_response: Mutex::new(None),
        }
    }
}

impl MockBankAccountServices {
    fn set_atm_withdrawal_response(&self, response: Result<(), AtmError>) {
        *self.atm_withdrawal_response.lock().unwrap() = Some(response);
    }

    fn set_validate_check_response(&self, response: Result<(), CheckingError>) {
        *self.validate_check_response.lock().unwrap() = Some(response);
    }
}

impl BankAccountApi for MockBankAccountServices {
    fn atm_withdrawal(&self, _atm_id: &str, _amount: i64) -> Result<(), AtmError> {
        self.atm_withdrawal_response.lock().unwrap().take().unwrap()
    }

    fn validate_check(&self, _account_id: &str, _check_number: &str) -> Result<(), CheckingError> {
        self.validate_check_response.lock().unwrap().take().unwrap()
    }
}

fn given(events: Vec<BankAccountEvent>) -> BankAccount {
    let mut account = BankAccount::default();
    for event in events {
        account.apply(event);
    }
    account
}

fn when<S: BankAccountApi>(
    account: &BankAccount,
    command: BankAccountCommand,
    services: &BankAccountServices<S>,
) -> Result<Vec<BankAccountEvent>, BankAccountError> {
    assert!(account.accepts(&command));
    account.handle(command, services)
}

fn error_message(outcome: Result<Vec<BankAccountEvent>, BankAccountError>) -> String {
    match outcome {
        Ok(events) => panic!("expected an error, got {:?}", events),
        Err(error) => error.to_string(),
    }
}

#[test]
fn test_deposit_money() {
    let expected = BankAccountEvent::CustomerDepositedMoney { amount: 200, balance: 200 };
    let command = BankAccountCommand::DepositMoney { amount: 200 };
    let services = BankAccountServices::new(MockBankAccountServices::default());
    let account = given(vec![]);
    assert_eq!(when(&account, command, &services), Ok(vec![expected]));
}

#[test]
fn test_deposit_money_with_balance() {
    let previous = BankAccountEvent::CustomerDepositedMoney { amount: 200, balance: 200 };
    let expected = BankAccountEvent::CustomerDepositedMoney { amount: 200, balance: 400 };
    let command = BankAccountCommand::DepositMoney { amount: 200 };
    let services = BankAccountServices::new(MockBankAccountServices::default());
    let account = given(vec![previous]);
    assert_eq!(when(&account, command, &services), Ok(vec![expected]));
}

#[test]
fn test_withdraw_money() {
    let previous = BankAccountEvent::CustomerDepositedMoney { amount: 200, balance: 200 };
    let expected = BankAccountEvent::CustomerWithdrewCash { amount: 100, balance: 100 };
    let services = MockBankAccountServices::default();
    services.set_atm_withdrawal_response(Ok(()));
    let command = BankAccountCommand::WithdrawMoney {
        amount: 100,
        atm_id: "ATM34f1ba3c".to_string(),
    };
    let account = given(vec![previous]);
    let services = BankAccountServices::new(services);
    assert_eq!(when(&account, command, &services), Ok(vec![expected]));
}

#[test]
fn test_withdraw_money_client_error() {
    let previous = BankAccountEvent::CustomerDepositedMoney { amount: 200, balance: 200 };
    let services = MockBankAccountServices::default();
    services.set_atm_withdrawal_response(Err(AtmError));
    let command = BankAccountCommand::WithdrawMoney {
        amount: 100,
        atm_id: "ATM34f1ba3c".to_string(),
    };
    let services = BankAccountServices::new(services);
    let account = given(vec![previous]);
    assert_eq!(
        error_message(when(&account, command, &services)),
        BankAccountError::AtmRuleViolation.to_string()
    );
}

#[test]
fn test_withdraw_money_funds_not_available() {
    let command = BankAccountCommand::WithdrawMoney {
        amount: 200,
        atm_id: "ATM34f1ba3c".to_string(),
    };
    let services = BankAccountServices::new(MockBankAccountServices::default());
    let account = given(vec![]);
    assert_eq!(
        error_message(when(&account, command, &services)),
        BankAccountError::InsufficientFunds.to_string()
    );
}

#[test]
fn test_wrote_check() {
    let previous = BankAccountEvent::CustomerDepositedMoney { amount: 200, balance: 200 };
    let expected = BankAccountEvent::CustomerWroteCheck {
        check_number: "1170".to_string(),
        amount: 100,
        balance: 100,
    };
    let services = MockBankAccountServices::default();
    services.set_validate_check_response(Ok(()));
    let services = BankAccountServices::new(services);
    let command = BankAccountCommand::WriteCheck { check_number: "1170".to_string(), amount: 100 };
    let account = given(vec![previous]);
    assert_eq!(when(&account, command, &services), Ok(vec![expected]));
}

#[test]
fn test_wrote_check_bad_check() {
    let previous = BankAccountEvent::CustomerDepositedMoney { amount: 200, balance: 200 };
    let services = MockBankAccountServices::default();
    services.set_validate_check_response(Err(CheckingError));
    let services = BankAccountServices::new(services);
    let command = BankAccountCommand::WriteCheck { check_number: "1170".to_string(), amount: 100 };
    let account = given(vec![previous]);
    assert_eq!(
        error_message(when(&account, command, &services)),
        BankAccountError::InvalidCheck.to_string()
    );
}

#[test]
fn test_wrote_check_funds_not_available() {
    let command = BankAccountCommand::WriteCheck { check_number: "1170".to_string(), amount: 100 };
    let services = BankAccountServices::new(MockBankAccountServices::default());
    let account = given(vec![]);
    assert_eq!(
        error_message(when(&account, command, &services)),
        BankAccountError::InsufficientFunds.to_string()
    );
}

#[test]
fn happy_path_bank_account_services_atm_withdrawal_returns_ok() {
    let services = HappyPathBankAccountServices;
    let result = services.atm_withdrawal("123", 100);
    assert!(result.is_ok());
}

#[test]
fn happy_path_bank_account_services_validate_check_returns_ok() {
    let services = HappyPathBankAccountServices;
    let result = services.validate_check("123", "123");
    assert!(result.is_ok());
}

#[test]
fn open_account_is_refused_once_open() {
    let services = BankAccountServices::new(HappyPathBankAccountServices);
    let account = given(vec![]);
    let opened = when(
        &account,
        BankAccountCommand::OpenAccount { account_id: "A1".to_string() },
        &services,
    );
    assert_eq!(opened, Ok(vec![BankAccountEvent::AccountOpened { account_id: "A1".to_string() }]));
    let account = given(opened.unwrap());
    assert_eq!(account.account_id(), "A1");
    let again = when(
        &account,
        BankAccountCommand::OpenAccount { account_id: "A2".to_string() },
        &services,
    );
    assert_eq!(again, Err(BankAccountError::AccountAlreadyOpen));
}

#[test]
fn negative_amounts_are_refused_before_anything_else() {
    let services = BankAccountServices::new(MockBankAccountServices::default());
    let account = given(vec![]);
    assert_eq!(
        when(&account, BankAccountCommand::DepositMoney { amount: -1 }, &services),
        Err(BankAccountError::CannotDepositNegativeAmount)
    );
    assert_eq!(
        when(
            &account,
            BankAccountCommand::WithdrawMoney { amount: -1, atm_id: "ATM1".to_string() },
            &services
        ),
        Err(BankAccountError::CannotWithdrawNegativeAmount)
    );
    assert_eq!(
        when(
            &account,
            BankAccountCommand::WriteCheck { check_number: "1".to_string(), amount: -1 },
            &services
        ),
        Err(BankAccountError::CannotWriteNegativeCheckAmount)
    );
}

#[test]
fn deposit_before_opening_is_accepted() {
    let services = BankAccountServices::new(HappyPathBankAccountServices);
    let account = given(vec![]);
    assert_eq!(account.account_id(), "");
    assert_eq!(account.balance(), 0);
    let outcome = when(&account, BankAccountCommand::DepositMoney { amount: 75 }, &services);
    assert_eq!(
        outcome,
        Ok(vec![BankAccountEvent::CustomerDepositedMoney { amount: 75, balance: 75 }])
    );
    let account = given(outcome.unwrap());
    assert_eq!(account.balance(), 75);
    assert_eq!(account.account_id(), "");
}

#[test]
fn deposit_beyond_the_largest_balance_is_out_of_range() {
    let account = given(vec![BankAccountEvent::CustomerDepositedMoney {
        amount: i64::MAX,
        balance: i64::MAX,
    }]);
    assert!(!account.accepts(&BankAccountCommand::DepositMoney { amount: 1 }));
    assert!(account.accepts(&BankAccountCommand::DepositMoney { amount: 0 }));
    assert!(account.accepts(&BankAccountCommand::DepositMoney { amount: -1 }));
}

#[test]
fn withdrawal_of_the_whole_balance_leaves_nothing() {
    let services = BankAccountServices::new(HappyPathBankAccountServices);
    let account = given(vec![BankAccountEvent::CustomerDepositedMoney { amount: 50, balance: 50 }]);
    assert_eq!(
        when(
            &account,
            BankAccountCommand::WithdrawMoney { amount: 50, atm_id: "ATM1".to_string() },
            &services
        ),
        Ok(vec![BankAccountEvent::CustomerWithdrewCash { amount: 50, balance: 0 }])
    );
    assert_eq!(
        when(
            &account,
            BankAccountCommand::WithdrawMoney { amount: 51, atm_id: "ATM1".to_string() },
            &services
        ),
        Err(BankAccountError::InsufficientFunds)
    );
}

#[test]
fn aggregate_type_is_account() {
    assert_eq!(BankAccount::aggregate_type(), "account");
}
