use vstd::prelude::*;

verus! {

/// The ATM service turned a withdrawal down.
#[derive(Debug)]
pub struct AtmError;

/// The check-validation service turned a check down.
#[derive(Debug)]
pub struct CheckingError;

/// The outside services that a bank account consults while it decides on a
/// command. An answer may differ from one call to the next, so a service is
/// described by the answers that it may give: an implementation that says
/// nothing about them may give any answer.
pub trait BankAccountApi: Sync + Send {
    /// True if the ATM service may answer a request to pay out `amount` at
    /// the ATM `atm_id` with approval (`approved`) or with refusal.
    open spec fn atm_answers(&self, atm_id: Seq<char>, amount: i64, approved: bool) -> bool {
        true
    }

    /// True if the check-validation service may answer a request about check
    /// `check` on account `account_id` with approval (`approved`) or with
    /// refusal.
    open spec fn check_answers(
        &self,
        account_id: Seq<char>,
        check: Seq<char>,
        approved: bool,
    ) -> bool {
        true
    }

    /// Asks the ATM `atm_id` whether it pays out `amount`.
    fn atm_withdrawal(&self, atm_id: &str, amount: i64) -> (answer: Result<(), AtmError>)
        ensures
            self.atm_answers(atm_id@, amount, answer is Ok),
    ;

    /// Asks whether check `check` may be drawn on account `account_id`.
    fn validate_check(&self, account_id: &str, check: &str) -> (answer: Result<(), CheckingError>)
        ensures
            self.check_answers(account_id@, check@, answer is Ok),
    ;
}

/// Services that approve every request.
#[derive(Debug)]
pub struct HappyPathBankAccountServices;

impl BankAccountApi for HappyPathBankAccountServices {
    /// The only answer is approval.
    open spec fn atm_answers(&self, atm_id: Seq<char>, amount: i64, approved: bool) -> bool {
        approved
    }

    /// The only answer is approval.
    open spec fn check_answers(
        &self,
        account_id: Seq<char>,
        check: Seq<char>,
        approved: bool,
    ) -> bool {
        approved
    }

    fn atm_withdrawal(&self, _atm_id: &str, _amount: i64) -> (answer: Result<(), AtmError>)
        ensures
            answer is Ok,
    {
        Ok(())
    }

    fn validate_check(&self, _account_id: &str, _check_number: &str) -> (answer: Result<
        (),
        CheckingError,
    >)
        ensures
            answer is Ok,
    {
        Ok(())
    }
}

/// The services handed to a bank account together with a command. Which
/// services they are is fixed by the type `S`, so that what is known of `S`
/// is known of what the account decides with them.
pub struct BankAccountServices<S: BankAccountApi> {
    pub services: S,
}

impl<S: BankAccountApi> BankAccountServices<S> {
    /// The services `services`, as a bank account takes them.
    pub fn new(services: S) -> (wrapped: Self)
        ensures
            wrapped.services == services,
    {
        Self { services }
    }
}

/// The services as a whole hand each request on to the services inside, and
/// answer as those do.
impl<S: BankAccountApi> BankAccountApi for BankAccountServices<S> {
    /// The answers that the services inside may give to the same request.
    open spec fn atm_answers(&self, atm_id: Seq<char>, amount: i64, approved: bool) -> bool {
        self.services.atm_answers(atm_id, amount, approved)
    }

    /// The answers that the services inside may give to the same request.
    open spec fn check_answers(
        &self,
        account_id: Seq<char>,
        check: Seq<char>,
        approved: bool,
    ) -> bool {
        self.services.check_answers(account_id, check, approved)
    }

    fn atm_withdrawal(&self, atm_id: &str, amount: i64) -> (answer: Result<(), AtmError>) {
        self.services.atm_withdrawal(atm_id, amount)
    }

    fn validate_check(&self, account_id: &str, check: &str) -> (answer: Result<
        (),
        CheckingError,
    >) {
        self.services.validate_check(account_id, check)
    }
}

} // verus!
