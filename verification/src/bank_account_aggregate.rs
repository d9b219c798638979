use vstd::prelude::*;
use crate::aggregate::{event_values, Aggregate, CommandHandler};
use crate::bank_account_errors::{BankAccountError, BankAccountErrorView};
use crate::bank_account_commands::{BankAccountCommand, BankAccountCommandView};
use crate::bank_account_events::{BankAccountEvent, BankAccountEventView};
use crate::bank_account_service::{AtmError, BankAccountApi, BankAccountServices, CheckingError};

verus! {

/// The state of one bank account, as its event history leaves it. An empty
/// `account_id` means that the account has not been opened.
#[derive(Debug)]
pub struct BankAccount {
    account_id: String,
    balance: i64,
}

/// The mathematical value of a [`BankAccount`].
pub struct BankAccountState {
    pub account_id: Seq<char>,
    pub balance: int,
}

/// What a bank account answers to a command: the events to record, or the
/// reason for turning the command down.
pub type Decision = Result<Seq<BankAccountEventView>, BankAccountErrorView>;

impl View for BankAccount {
    type V = BankAccountState;

    closed spec fn view(&self) -> BankAccountState {
        BankAccountState { account_id: self.account_id@, balance: self.balance as int }
    }
}

/// The value of what a command handler returned.
pub open spec fn decision_view(
    outcome: Result<Vec<BankAccountEvent>, BankAccountError>,
) -> Decision {
    match outcome {
        Ok(events) => Ok(event_values(events@)),
        Err(error) => Err(error@),
    }
}

impl BankAccountState {
    /// The account before its first event: not opened, with nothing in it.
    pub open spec fn initial() -> Self {
        BankAccountState { account_id: Seq::empty(), balance: 0 }
    }

    /// The state after `event`. The balance is taken from the event, never
    /// recomputed.
    pub open spec fn apply(self, event: BankAccountEventView) -> Self {
        match event {
            BankAccountEventView::AccountOpened { account_id } => BankAccountState {
                account_id,
                balance: self.balance,
            },
            BankAccountEventView::CustomerDepositedMoney { amount, balance } => BankAccountState {
                account_id: self.account_id,
                balance,
            },
            BankAccountEventView::CustomerWithdrewCash { amount, balance } => BankAccountState {
                account_id: self.account_id,
                balance,
            },
            BankAccountEventView::CustomerWroteCheck {
                check_number,
                amount,
                balance,
            } => BankAccountState { account_id: self.account_id, balance },
        }
    }

    /// Opening: refused once the account has an id.
    pub open spec fn open_account(self, account_id: Seq<char>) -> Decision {
        if self.account_id.len() != 0 {
            Err(BankAccountErrorView::AccountAlreadyOpen)
        } else {
            Ok(seq![BankAccountEventView::AccountOpened { account_id }])
        }
    }

    /// Depositing: refused for a negative amount, accepted otherwise, whether
    /// or not the account has been opened.
    pub open spec fn deposit_money(self, amount: int) -> Decision {
        if amount < 0 {
            Err(BankAccountErrorView::CannotDepositNegativeAmount)
        } else {
            Ok(
                seq![
                    BankAccountEventView::CustomerDepositedMoney {
                        amount,
                        balance: self.balance + amount,
                    },
                ],
            )
        }
    }

    /// Withdrawing at an ATM, where `atm_approves` is the ATM service's
    /// answer. The answer matters only once the amount and the funds have
    /// passed.
    pub open spec fn withdraw_money(self, amount: int, atm_approves: bool) -> Decision {
        if amount < 0 {
            Err(BankAccountErrorView::CannotWithdrawNegativeAmount)
        } else if self.balance - amount < 0 {
            Err(BankAccountErrorView::InsufficientFunds)
        } else if !atm_approves {
            Err(BankAccountErrorView::AtmRuleViolation)
        } else {
            Ok(
                seq![
                    BankAccountEventView::CustomerWithdrewCash {
                        amount,
                        balance: self.balance - amount,
                    },
                ],
            )
        }
    }

    /// Writing a check, where `check_is_valid` is the check-validation
    /// service's answer. The answer matters only once the amount and the funds
    /// have passed.
    pub open spec fn write_check(
        self,
        check_number: Seq<char>,
        amount: int,
        check_is_valid: bool,
    ) -> Decision {
        if amount < 0 {
            Err(BankAccountErrorView::CannotWriteNegativeCheckAmount)
        } else if self.balance - amount < 0 {
            Err(BankAccountErrorView::InsufficientFunds)
        } else if !check_is_valid {
            Err(BankAccountErrorView::InvalidCheck)
        } else {
            Ok(
                seq![
                    BankAccountEventView::CustomerWroteCheck {
                        check_number,
                        amount,
                        balance: self.balance - amount,
                    },
                ],
            )
        }
    }

    /// True if the withdrawal or the check of `amount` gets as far as asking
    /// the outside service.
    pub open spec fn consults_service(self, amount: int) -> bool {
        amount >= 0 && self.balance - amount >= 0
    }

    /// True if `outcome` is what a withdrawal of `amount` at ATM `atm_id`
    /// comes to with the services `services`: the decision for an answer
    /// that the ATM service may give when asked about this ATM and this
    /// amount, where it is asked at all.
    pub open spec fn asks_atm<S: BankAccountApi>(
        self,
        amount: i64,
        atm_id: Seq<char>,
        services: S,
        outcome: Result<Vec<BankAccountEvent>, BankAccountError>,
    ) -> bool {
        if self.consults_service(amount as int) {
            exists|asked: &str, answer: Result<(), AtmError>|
                {
                    &&& asked@ == atm_id
                    &&& #[trigger] call_ensures(
                        S::atm_withdrawal,
                        (&services, asked, amount),
                        answer,
                    )
                    &&& decision_view(outcome) == self.withdraw_money(amount as int, answer is Ok)
                }
        } else {
            decision_view(outcome) == self.withdraw_money(amount as int, true)
        }
    }

    /// True if `outcome` is what a check `check_number` over `amount` comes
    /// to with the services `services`: the decision for an answer that the
    /// check-validation service may give when asked about this account and
    /// this check, where it is asked at all.
    pub open spec fn asks_checking<S: BankAccountApi>(
        self,
        amount: i64,
        check_number: Seq<char>,
        services: S,
        outcome: Result<Vec<BankAccountEvent>, BankAccountError>,
    ) -> bool {
        if self.consults_service(amount as int) {
            exists|account: &str, check: &str, answer: Result<(), CheckingError>|
                {
                    &&& account@ == self.account_id
                    &&& check@ == check_number
                    &&& #[trigger] call_ensures(
                        S::validate_check,
                        (&services, account, check),
                        answer,
                    )
                    &&& decision_view(outcome) == self.write_check(
                        check_number,
                        amount as int,
                        answer is Ok,
                    )
                }
        } else {
            decision_view(outcome) == self.write_check(check_number, amount as int, true)
        }
    }

    /// The decision on `command`, where `service_approves` is the answer of
    /// the outside service that the command consults, if it consults one.
    pub open spec fn handle(
        self,
        command: BankAccountCommandView,
        service_approves: bool,
    ) -> Decision {
        match command {
            BankAccountCommandView::OpenAccount { account_id } => self.open_account(account_id),
            BankAccountCommandView::DepositMoney { amount } => self.deposit_money(amount),
            BankAccountCommandView::WithdrawMoney { amount, atm_id } => self.withdraw_money(
                amount,
                service_approves,
            ),
            BankAccountCommandView::WriteCheck { check_number, amount } => self.write_check(
                check_number,
                amount,
                service_approves,
            ),
        }
    }

    /// True if the balance that `command` leads to fits the machine's
    /// integers. Only a deposit can exceed them.
    pub open spec fn in_range(self, command: BankAccountCommandView) -> bool {
        command matches BankAccountCommandView::DepositMoney { amount } ==> self.balance + amount
            <= i64::MAX
    }
}

/// An account without history: opening it is accepted; a deposit is
/// accepted although the account has not been opened, and leaves a balance
/// equal to the amount; a withdrawal or a check of more than nothing is
/// refused for want of funds; so no command but a deposit can put money into
/// an account.
pub proof fn lemma_commands_without_history(
    account_id: Seq<char>,
    check_number: Seq<char>,
    amount: int,
    service_approves: bool,
)
    ensures
        BankAccountState::initial().open_account(account_id) == Ok::<
            Seq<BankAccountEventView>,
            BankAccountErrorView,
        >(seq![BankAccountEventView::AccountOpened { account_id }]),
        amount >= 0 ==> BankAccountState::initial().deposit_money(amount) == Ok::<
            Seq<BankAccountEventView>,
            BankAccountErrorView,
        >(seq![BankAccountEventView::CustomerDepositedMoney { amount, balance: amount }]),
        amount > 0 ==> BankAccountState::initial().withdraw_money(amount, service_approves) == Err::<
            Seq<BankAccountEventView>,
            BankAccountErrorView,
        >(BankAccountErrorView::InsufficientFunds),
        amount > 0 ==> BankAccountState::initial().write_check(
            check_number,
            amount,
            service_approves,
        ) == Err::<Seq<BankAccountEventView>, BankAccountErrorView>(
            BankAccountErrorView::InsufficientFunds,
        ),
{
}

/// A command that is turned down, and a command that asks an outside
/// service which refuses, leave no event behind; an accepted command leaves
/// exactly one, and a money event carries the balance that applying it
/// gives.
pub proof fn lemma_decision_shape(
    state: BankAccountState,
    command: BankAccountCommandView,
    service_approves: bool,
)
    ensures
        match state.handle(command, service_approves) {
            Ok(events) => {
                &&& events.len() == 1
                &&& command is OpenAccount || state.apply(events[0]).account_id == state.account_id
                &&& command matches BankAccountCommandView::DepositMoney { amount }
                    ==> state.apply(events[0]).balance == state.balance + amount
                &&& command matches BankAccountCommandView::WithdrawMoney { amount, .. }
                    ==> state.apply(events[0]).balance == state.balance - amount
                &&& command matches BankAccountCommandView::WriteCheck { amount, .. }
                    ==> state.apply(events[0]).balance == state.balance - amount
            },
            Err(_) => true,
        },
        !service_approves && !(command is OpenAccount) && !(command is DepositMoney)
            ==> state.handle(command, service_approves) is Err,
{
}

impl Default for BankAccount {
    fn default() -> (account: Self)
        ensures
            account@ == BankAccountState::initial(),
    {
        BankAccount { account_id: String::new(), balance: 0 }
    }
}

impl BankAccount {
    /// The account with the id `account_id` and the balance `balance`: a
    /// state that was reached earlier and is taken up again.
    pub fn new(account_id: String, balance: i64) -> (account: Self)
        ensures
            account@ == (BankAccountState { account_id: account_id@, balance: balance as int }),
    {
        BankAccount { account_id, balance }
    }

    /// The account's balance.
    pub fn balance(&self) -> (balance: i64)
        ensures
            balance == self@.balance,
    {
        self.balance
    }

    /// The account's id, empty until the account is opened.
    pub fn account_id(&self) -> (account_id: &str)
        ensures
            account_id@ == self@.account_id,
    {
        self.account_id.as_str()
    }

    /// Decides on opening the account under `account_id`. No service is
    /// consulted.
    pub fn handle_open_account_command<S: BankAccountApi>(
        &self,
        _services: &S,
        account_id: String,
    ) -> (outcome: Result<Vec<BankAccountEvent>, BankAccountError>)
        ensures
            decision_view(outcome) == self@.open_account(account_id@),
    {
        if !self.account_id.as_str().is_empty() {
            return Err(BankAccountError::AccountAlreadyOpen);
        }
        let events = vec![BankAccountEvent::AccountOpened { account_id }];
        assert(event_values(events@) =~= seq![
            BankAccountEventView::AccountOpened { account_id: account_id@ },
        ]);
        Ok(events)
    }

    /// Decides on depositing `amount`. No service is consulted. The new
    /// balance must fit the machine's integers.
    pub fn handle_deposit_money_command<S: BankAccountApi>(
        &self,
        _services: &S,
        amount: i64,
    ) -> (outcome: Result<Vec<BankAccountEvent>, BankAccountError>)
        requires
            self@.balance + amount <= i64::MAX,
        ensures
            decision_view(outcome) == self@.deposit_money(amount as int),
    {
        if amount < 0 {
            return Err(BankAccountError::CannotDepositNegativeAmount);
        }
        let balance = self.balance + amount;
        let events = vec![BankAccountEvent::CustomerDepositedMoney { amount, balance }];
        assert(event_values(events@) =~= seq![
            BankAccountEventView::CustomerDepositedMoney {
                amount: amount as int,
                balance: balance as int,
            },
        ]);
        Ok(events)
    }

    /// Decides on withdrawing `amount`, given the ATM service's answer.
    pub fn decide_withdrawal(&self, amount: i64, atm_answer: Result<(), AtmError>) -> (outcome:
        Result<Vec<BankAccountEvent>, BankAccountError>)
        ensures
            decision_view(outcome) == self@.withdraw_money(amount as int, atm_answer is Ok),
    {
        if amount < 0 {
            return Err(BankAccountError::CannotWithdrawNegativeAmount);
        }
        if self.balance < amount {
            return Err(BankAccountError::InsufficientFunds);
        }
        if atm_answer.is_err() {
            return Err(BankAccountError::AtmRuleViolation);
        }
        let balance = self.balance - amount;
        let events = vec![BankAccountEvent::CustomerWithdrewCash { amount, balance }];
        assert(event_values(events@) =~= seq![
            BankAccountEventView::CustomerWithdrewCash {
                amount: amount as int,
                balance: balance as int,
            },
        ]);
        Ok(events)
    }

    /// Decides on writing check `check_number` over `amount`, given the
    /// check-validation service's answer.
    pub fn decide_check(
        &self,
        check_number: String,
        amount: i64,
        check_answer: Result<(), CheckingError>,
    ) -> (outcome: Result<Vec<BankAccountEvent>, BankAccountError>)
        ensures
            decision_view(outcome) == self@.write_check(
                check_number@,
                amount as int,
                check_answer is Ok,
            ),
    {
        if amount < 0 {
            return Err(BankAccountError::CannotWriteNegativeCheckAmount);
        }
        if self.balance < amount {
            return Err(BankAccountError::InsufficientFunds);
        }
        if check_answer.is_err() {
            return Err(BankAccountError::InvalidCheck);
        }
        let balance = self.balance - amount;
        let events = vec![BankAccountEvent::CustomerWroteCheck { check_number, amount, balance }];
        assert(event_values(events@) =~= seq![
            BankAccountEventView::CustomerWroteCheck {
                check_number: check_number@,
                amount: amount as int,
                balance: balance as int,
            },
        ]);
        Ok(events)
    }

    /// Decides on withdrawing `amount` at ATM `atm_id`. If the amount is
    /// negative or the funds do not suffice, the withdrawal is refused and
    /// the ATM service is not asked. Otherwise the service is asked once,
    /// about this ATM and this amount, and the outcome is the decision for
    /// the answer it gave.
    pub fn handle_withdraw_money_command<S: BankAccountApi>(
        &self,
        services: &S,
        amount: i64,
        atm_id: String,
    ) -> (outcome: Result<Vec<BankAccountEvent>, BankAccountError>)
        ensures
            self@.asks_atm(amount, atm_id@, *services, outcome),
    {
        if amount < 0 || self.balance < amount {
            return self.decide_withdrawal(amount, Ok(()));
        }
        let atm_answer = services.atm_withdrawal(atm_id.as_str(), amount);
        self.decide_withdrawal(amount, atm_answer)
    }

    /// Decides on writing check `check_number` over `amount`. If the amount
    /// is negative or the funds do not suffice, the check is refused and the
    /// check-validation service is not asked. Otherwise the service is asked
    /// once, about this account and this check, and the outcome is the
    /// decision for the answer it gave.
    pub fn handle_write_check_command<S: BankAccountApi>(
        &self,
        services: &S,
        check_number: String,
        amount: i64,
    ) -> (outcome: Result<Vec<BankAccountEvent>, BankAccountError>)
        ensures
            self@.asks_checking(amount, check_number@, *services, outcome),
    {
        if amount < 0 || self.balance < amount {
            return self.decide_check(check_number, amount, Ok(()));
        }
        let check_answer = services.validate_check(
            self.account_id.as_str(),
            check_number.as_str(),
        );
        self.decide_check(check_number, amount, check_answer)
    }
}

impl Aggregate for BankAccount {
    type Command = BankAccountCommand;

    type Event = BankAccountEvent;

    type Error = BankAccountError;

    open spec fn initial() -> BankAccountState {
        BankAccountState::initial()
    }

    open spec fn applied(state: BankAccountState, event: BankAccountEventView) -> BankAccountState {
        state.apply(event)
    }

    open spec fn in_range(state: BankAccountState, command: BankAccountCommand) -> bool {
        state.in_range(command@)
    }

    fn aggregate_type() -> (name: String)
        ensures
            name@ == "account"@,
    {
        "account".to_owned()
    }

    fn fresh() -> (aggregate: Self) {
        BankAccount::default()
    }

    fn accepts(&self, command: &BankAccountCommand) -> (ok: bool) {
        match command {
            BankAccountCommand::DepositMoney { amount } => *amount <= 0 || self.balance <= i64::MAX
                - *amount,
            _ => true,
        }
    }

    fn apply(&mut self, event: BankAccountEvent) {
        match event {
            BankAccountEvent::AccountOpened { account_id } => {
                self.account_id = account_id;
            },
            BankAccountEvent::CustomerDepositedMoney { amount: _, balance } => {
                self.balance = balance;
            },
            BankAccountEvent::CustomerWithdrewCash { amount: _, balance } => {
                self.balance = balance;
            },
            BankAccountEvent::CustomerWroteCheck { check_number: _, amount: _, balance } => {
                self.balance = balance;
            },
        }
    }
}

/// The bank account decides with services of any kind `S`. With services
/// that approve everything, every decision is fixed by the state and the
/// command alone.
impl<S: BankAccountApi> CommandHandler<BankAccountServices<S>> for BankAccount {
    open spec fn decides(
        state: BankAccountState,
        command: BankAccountCommand,
        services: BankAccountServices<S>,
        outcome: Result<Vec<BankAccountEvent>, BankAccountError>,
    ) -> bool {
        match command {
            BankAccountCommand::OpenAccount { account_id } => decision_view(outcome)
                == state.open_account(account_id@),
            BankAccountCommand::DepositMoney { amount } => decision_view(outcome)
                == state.deposit_money(amount as int),
            BankAccountCommand::WithdrawMoney { amount, atm_id } => state.asks_atm(
                amount,
                atm_id@,
                services,
                outcome,
            ),
            BankAccountCommand::WriteCheck { check_number, amount } => state.asks_checking(
                amount,
                check_number@,
                services,
                outcome,
            ),
        }
    }

    fn handle(&self, command: BankAccountCommand, services: &BankAccountServices<S>) -> (outcome:
        Result<Vec<BankAccountEvent>, BankAccountError>) {
        match command {
            BankAccountCommand::OpenAccount { account_id } => self.handle_open_account_command(
                services,
                account_id,
            ),
            BankAccountCommand::DepositMoney { amount } => self.handle_deposit_money_command(
                services,
                amount,
            ),
            BankAccountCommand::WithdrawMoney {
                amount,
                atm_id,
            } => self.handle_withdraw_money_command(services, amount, atm_id),
            BankAccountCommand::WriteCheck {
                check_number,
                amount,
            } => self.handle_write_check_command(services, check_number, amount),
        }
    }
}

/// With services that approve every request, the state and the command
/// alone fix what the account decides: the decision for an approval. So an
/// opened account with funds has its withdrawal and its check accepted, with
/// the event that carries the new balance.
pub proof fn lemma_approving_services_decide_alone<S: BankAccountApi>(
    state: BankAccountState,
    command: BankAccountCommand,
    services: BankAccountServices<S>,
    outcome: Result<Vec<BankAccountEvent>, BankAccountError>,
)
    requires
        forall|atm_id: Seq<char>, amount: i64, approved: bool|
            #[trigger] services.atm_answers(atm_id, amount, approved) == approved,
        forall|account_id: Seq<char>, check: Seq<char>, approved: bool|
            #[trigger] services.check_answers(account_id, check, approved) == approved,
        <BankAccount as CommandHandler<BankAccountServices<S>>>::decides(
            state,
            command,
            services,
            outcome,
        ),
    ensures
        decision_view(outcome) == state.handle(command@, true),
{
}

/// With services that refuse every request, no withdrawal and no check is
/// accepted: the decision is that for a refusal.
pub proof fn lemma_refusing_services_decide_alone<S: BankAccountApi>(
    state: BankAccountState,
    command: BankAccountCommand,
    services: BankAccountServices<S>,
    outcome: Result<Vec<BankAccountEvent>, BankAccountError>,
)
    requires
        forall|atm_id: Seq<char>, amount: i64, approved: bool|
            #[trigger] services.atm_answers(atm_id, amount, approved) == !approved,
        forall|account_id: Seq<char>, check: Seq<char>, approved: bool|
            #[trigger] services.check_answers(account_id, check, approved) == !approved,
        <BankAccount as CommandHandler<BankAccountServices<S>>>::decides(
            state,
            command,
            services,
            outcome,
        ),
    ensures
        decision_view(outcome) == state.handle(command@, false),
{
}

} // verus!
