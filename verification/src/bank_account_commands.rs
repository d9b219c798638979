use vstd::prelude::*;

verus! {

/// The account to open.
#[derive(Debug)]
pub struct BankAccountOpenAccountCommandData {
    pub account_id: String,
}

/// The amount to deposit, in whole currency units.
#[derive(Debug)]
pub struct BankAccountDepositMoneyCommandData {
    pub amount: i64,
}

/// The amount to withdraw and the ATM it is withdrawn from.
#[derive(Debug)]
pub struct BankAccountWithdrawMoneyCommandData {
    pub amount: i64,
    pub atm_id: String,
}

/// The check to write and its amount.
#[derive(Debug)]
pub struct BankAccountWriteCheckCommandData {
    pub check_number: String,
    pub amount: i64,
}

/// A request to change one bank account. A command is never stored: it is
/// either turned into events or turned down.
#[derive(Debug)]
pub enum BankAccountCommand {
    OpenAccount { account_id: String },
    DepositMoney { amount: i64 },
    WithdrawMoney { amount: i64, atm_id: String },
    WriteCheck { check_number: String, amount: i64 },
}

/// The mathematical value of a [`BankAccountCommand`].
pub enum BankAccountCommandView {
    OpenAccount { account_id: Seq<char> },
    DepositMoney { amount: int },
    WithdrawMoney { amount: int, atm_id: Seq<char> },
    WriteCheck { check_number: Seq<char>, amount: int },
}

impl View for BankAccountCommand {
    type V = BankAccountCommandView;

    open spec fn view(&self) -> BankAccountCommandView {
        match self {
            BankAccountCommand::OpenAccount { account_id } => BankAccountCommandView::OpenAccount {
                account_id: account_id@,
            },
            BankAccountCommand::DepositMoney { amount } => BankAccountCommandView::DepositMoney {
                amount: *amount as int,
            },
            BankAccountCommand::WithdrawMoney {
                amount,
                atm_id,
            } => BankAccountCommandView::WithdrawMoney { amount: *amount as int, atm_id: atm_id@ },
            BankAccountCommand::WriteCheck {
                check_number,
                amount,
            } => BankAccountCommandView::WriteCheck {
                check_number: check_number@,
                amount: *amount as int,
            },
        }
    }
}

impl BankAccountCommand {
    /// The command that opens the account named in `data`.
    pub fn open_account(data: BankAccountOpenAccountCommandData) -> (command: Self)
        ensures
            command@ == (BankAccountCommandView::OpenAccount { account_id: data.account_id@ }),
    {
        BankAccountCommand::OpenAccount { account_id: data.account_id }
    }

    /// The command that deposits the amount in `data`.
    pub fn deposit_money(data: BankAccountDepositMoneyCommandData) -> (command: Self)
        ensures
            command@ == (BankAccountCommandView::DepositMoney { amount: data.amount as int }),
    {
        BankAccountCommand::DepositMoney { amount: data.amount }
    }

    /// The command that withdraws the amount in `data` at the ATM in `data`.
    pub fn withdraw_money(data: BankAccountWithdrawMoneyCommandData) -> (command: Self)
        ensures
            command@ == (BankAccountCommandView::WithdrawMoney {
                amount: data.amount as int,
                atm_id: data.atm_id@,
            }),
    {
        BankAccountCommand::WithdrawMoney { amount: data.amount, atm_id: data.atm_id }
    }

    /// The command that writes the check in `data`.
    pub fn write_check(data: BankAccountWriteCheckCommandData) -> (command: Self)
        ensures
            command@ == (BankAccountCommandView::WriteCheck {
                check_number: data.check_number@,
                amount: data.amount as int,
            }),
    {
        BankAccountCommand::WriteCheck { check_number: data.check_number, amount: data.amount }
    }
}

} // verus!
