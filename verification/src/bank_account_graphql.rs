use vstd::prelude::*;
use crate::bank_account_commands::BankAccountCommand;
use crate::bank_account_errors::BankAccountError;
use crate::bank_account_service::BankAccountApi;
use crate::bank_account_handlers::{
    issue_command,
    issued,
    refusal_text,
    refusal_to_string,
    AccountCqrs,
};
use crate::cqrs::AggregateError;
use crate::bank_account_views::{AccountQuery, BankAccountView};
use crate::event_log::is_event_log;
use crate::event_store::metadata_view;
use crate::projection::Projection;

verus! {

/// The read side of the bank account API.
#[derive(Debug, Default)]
pub struct BankAccountGraphQlQuery {}

impl BankAccountGraphQlQuery {
    /// A copy of the read model of the account `id`, or the text that says
    /// that there is none.
    pub fn bank_account_query(&self, view_repo: &AccountQuery, id: String) -> (found: Result<
        BankAccountView,
        String,
    >)
        ensures
            match found {
                Ok(view) => view_repo@.contains_key(id@) && view@ == view_repo@[id@],
                Err(text) => !view_repo@.contains_key(id@) && text@ == "Bank account not found"@,
            },
    {
        match view_repo.load(id.as_str()) {
            Some(view) => Ok(view.duplicate()),
            None => Err("Bank account not found".to_owned()),
        }
    }
}

/// The write side of the bank account API.
#[derive(Debug, Default)]
pub struct BankAccountGraphQlMutation {}

impl BankAccountGraphQlMutation {
    /// Issues `command` for the account `id`, without metadata, and answers
    /// with a copy of the account's read model as it is afterwards. A
    /// refused command is answered with the text of the refusal; an accepted
    /// one that leaves the account without a read model, with the text that
    /// says that there is none.
    pub fn bank_account_mutation<S: BankAccountApi>(
        &self,
        cqrs: &mut AccountCqrs<S>,
        id: String,
        command: BankAccountCommand,
    ) -> (changed: Result<BankAccountView, String>)
        requires
            is_event_log(old(cqrs).log()),
        ensures
            is_event_log(final(cqrs).log()),
            exists|answer: Result<(), AggregateError<BankAccountError>>|
                {
                    &&& #[trigger] issued(
                        *old(cqrs),
                        *final(cqrs),
                        id@,
                        command,
                        Seq::empty(),
                        answer,
                    )
                    &&& match answer {
                        Err(refusal) => changed matches Err(text) && text@ == refusal_text(
                            refusal,
                        ),
                        Ok(()) => match changed {
                            Ok(view) => final(cqrs).subscribers().1@.contains_key(id@) && view@
                                == final(cqrs).subscribers().1@[id@],
                            Err(text) => !final(cqrs).subscribers().1@.contains_key(id@) && text@
                                == "Bank account not found"@,
                        },
                    }
                },
    {
        let metadata: Vec<(String, String)> = Vec::new();
        assert(metadata_view(metadata@) =~= Seq::empty());
        let answer = issue_command(cqrs, id.as_str(), command, metadata);
        assert(issued(*old(cqrs), *cqrs, id@, command, Seq::empty(), answer));
        match answer {
            Ok(()) => {},
            Err(refusal) => {
                return Err(refusal_to_string(refusal));
            },
        }
        match cqrs.queries().1.load(id.as_str()) {
            Some(view) => Ok(view.duplicate()),
            None => Err("Bank account not found".to_owned()),
        }
    }
}

} // verus!
