use vstd::prelude::*;
use crate::aggregate::{event_values, Aggregate, CommandHandler};
use crate::bank_account_aggregate::BankAccount;
use crate::bank_account_commands::BankAccountCommand;
use crate::bank_account_errors::BankAccountError;
use crate::bank_account_events::{BankAccountEvent, BankAccountEventView};
use crate::bank_account_service::{
    BankAccountApi,
    BankAccountServices,
    HappyPathBankAccountServices,
};
use crate::bank_account_views::{
    AccountQuery,
    BankAccountView,
    BankAccountViewState,
    SimpleLoggingQuery,
};
use crate::cqrs::{AggregateError, CqrsFramework};
use crate::event_log::{
    is_event_log,
    last_sequence,
    lemma_append_then_load,
    stamped,
    stream,
    EnvelopeView,
};
use crate::event_store::{metadata_view, EventStore};
use crate::metadata_extension::MetadataExtension;
use crate::projection::{projected, Projection};
use crate::query::{
    lemma_read_model_follows_log,
    model_or_empty,
    DispatchError,
    GenericQuery,
};
use crate::view_repository::ViewRepository;

verus! {

/// The framework for bank accounts that consult services of kind `S`: every
/// committed event is logged, then folded into the account's read model.
pub type AccountCqrs<S> = CqrsFramework<
    BankAccount,
    BankAccountServices<S>,
    (SimpleLoggingQuery, AccountQuery),
>;

/// A framework for bank accounts without history, with services that
/// approve every request: they refuse no withdrawal and no check.
pub fn get_bank_account_cqrs_framework() -> (cqrs: AccountCqrs<HappyPathBankAccountServices>)
    ensures
        cqrs.services().services == HappyPathBankAccountServices,
        forall|atm_id: Seq<char>, amount: i64, approved: bool|
            #[trigger] cqrs.services().atm_answers(atm_id, amount, approved) == approved,
        forall|account_id: Seq<char>, check: Seq<char>, approved: bool|
            #[trigger] cqrs.services().check_answers(account_id, check, approved) == approved,
        cqrs.log() == Seq::<EnvelopeView<BankAccountEventView>>::empty(),
        is_event_log(cqrs.log()),
        cqrs.noted_failures() == Seq::<DispatchError>::empty(),
        cqrs.subscribers().0@ == Seq::<Seq<char>>::empty(),
        cqrs.subscribers().1@ == Map::<Seq<char>, BankAccountViewState>::empty(),
        read_models_follow_log(cqrs),
{
    let simple_query = SimpleLoggingQuery::new();
    let account_query: AccountQuery = GenericQuery::new(ViewRepository::new());
    let services = BankAccountServices::new(HappyPathBankAccountServices);
    let store: EventStore<BankAccountEvent> = EventStore::new();
    let cqrs: AccountCqrs<HappyPathBankAccountServices> = CqrsFramework::new(
        store,
        (simple_query, account_query),
        services,
    );
    assert forall|id: Seq<char>|
        #[trigger] model_or_empty::<BankAccountEvent, BankAccountView>(cqrs.subscribers().1@, id)
            == projected::<BankAccountEvent, BankAccountView>(stream(cqrs.log(), id)) by {
        assert(stream(cqrs.log(), id) =~= Seq::empty());
    }
    cqrs
}

/// The text shown for a command that was not carried out: the account's own
/// reason, or the reason of the store.
pub open spec fn refusal_text(error: AggregateError<BankAccountError>) -> Seq<char> {
    match error {
        AggregateError::UserError(reason) => reason@.message(),
        AggregateError::AggregateConflict => "aggregate conflict"@,
        AggregateError::UnexpectedError(reason) => reason@,
    }
}

/// The HTTP status that answers a command that was not carried out: 400 for
/// a command that the account turned down, 409 for a conflict with another
/// writer, 500 for a failure of the store.
pub open spec fn refusal_status(error: AggregateError<BankAccountError>) -> int {
    match error {
        AggregateError::UserError(_) => 400,
        AggregateError::AggregateConflict => 409,
        AggregateError::UnexpectedError(_) => 500,
    }
}

/// What issuing `command` for account `id` comes to. A deposit whose
/// balance would not fit the machine's integers is turned down as an
/// invalid amount, and nothing changes. Any other command is carried out on
/// the state that the log holds for the account.
pub open spec fn issued<S: BankAccountApi>(
    before: AccountCqrs<S>,
    after: AccountCqrs<S>,
    id: Seq<char>,
    command: BankAccountCommand,
    metadata: Seq<(Seq<char>, Seq<char>)>,
    answer: Result<(), AggregateError<BankAccountError>>,
) -> bool {
    if !BankAccount::in_range(before.state_of(id), command) {
        &&& answer == Err::<(), AggregateError<BankAccountError>>(
            AggregateError::UserError(BankAccountError::InvalidAmount),
        )
        &&& before.untouched(after)
    } else {
        exists|outcome: Result<Vec<BankAccountEvent>, BankAccountError>, taken: bool|
            {
                &&& <BankAccount as CommandHandler<BankAccountServices<S>>>::decides(
                    before.state_of(id),
                    command,
                    before.services(),
                    outcome,
                )
                &&& #[trigger] before.carried_out(
                    after,
                    id,
                    last_sequence(before.log(), id),
                    outcome,
                    metadata,
                    taken,
                    answer,
                )
            }
    }
}

/// True if every read model of `cqrs` is what folding the account's whole
/// stream gives, and the stream of an account without a read model folds to
/// the empty read model.
pub open spec fn read_models_follow_log<S: BankAccountApi>(cqrs: AccountCqrs<S>) -> bool {
    forall|id: Seq<char>|
        #[trigger] model_or_empty::<BankAccountEvent, BankAccountView>(cqrs.subscribers().1@, id)
            == projected::<BankAccountEvent, BankAccountView>(stream(cqrs.log(), id))
}

/// Issuing a command keeps the read models in step with the log: whatever
/// the command and whatever its answer, if every read model was what its
/// stream folds to before, it is so afterwards.
pub proof fn lemma_issuing_keeps_read_models<S: BankAccountApi>(
    before: AccountCqrs<S>,
    after: AccountCqrs<S>,
    id: Seq<char>,
    command: BankAccountCommand,
    metadata: Seq<(Seq<char>, Seq<char>)>,
    answer: Result<(), AggregateError<BankAccountError>>,
)
    requires
        issued(before, after, id, command, metadata, answer),
        read_models_follow_log(before),
    ensures
        read_models_follow_log(after),
{
    if BankAccount::in_range(before.state_of(id), command) {
        let (outcome, taken) = choose|
            outcome: Result<Vec<BankAccountEvent>, BankAccountError>,
            taken: bool,
        |
            {
                &&& <BankAccount as CommandHandler<BankAccountServices<S>>>::decides(
                    before.state_of(id),
                    command,
                    before.services(),
                    outcome,
                )
                &&& #[trigger] before.carried_out(
                    after,
                    id,
                    last_sequence(before.log(), id),
                    outcome,
                    metadata,
                    taken,
                    answer,
                )
            };
        if outcome is Ok && answer is Ok {
            let events = outcome->Ok_0;
            let expected = last_sequence(before.log(), id);
            let payloads = event_values(events@);
            let committed = stamped(id, expected, payloads, metadata);
            let models = before.subscribers().1@;
            assert(after.log() == before.log() + committed);
            if events@.len() == 0 {
                assert(committed =~= Seq::empty());
                assert(before.log() + committed =~= before.log());
            } else {
                assert forall|other: Seq<char>|
                    #[trigger] model_or_empty::<BankAccountEvent, BankAccountView>(
                        after.subscribers().1@,
                        other,
                    ) == projected::<BankAccountEvent, BankAccountView>(
                        stream(after.log(), other),
                    ) by {
                    lemma_append_then_load(before.log(), id, expected, payloads, metadata, other);
                    lemma_read_model_follows_log::<BankAccountEvent, BankAccountView>(
                        before.log(),
                        models,
                        id,
                        expected,
                        payloads,
                        metadata,
                    );
                    assert(model_or_empty::<BankAccountEvent, BankAccountView>(models, other)
                        == projected::<BankAccountEvent, BankAccountView>(
                        stream(before.log(), other),
                    ));
                }
            }
        }
    }
}

/// Issues `command` for the account `id`, with `metadata` for its events.
pub fn issue_command<S: BankAccountApi>(
    cqrs: &mut AccountCqrs<S>,
    id: &str,
    command: BankAccountCommand,
    metadata: Vec<(String, String)>,
) -> (answer: Result<(), AggregateError<BankAccountError>>)
    requires
        is_event_log(old(cqrs).log()),
    ensures
        is_event_log(final(cqrs).log()),
        issued(*old(cqrs), *final(cqrs), id@, command, metadata_view(metadata@), answer),
{
    let context = cqrs.load_aggregate(id);
    if !context.aggregate.accepts(&command) {
        return Err(AggregateError::UserError(BankAccountError::InvalidAmount));
    }
    cqrs.execute_in_context(context, command, metadata)
}

/// The text for a command that was not carried out.
pub fn refusal_to_string(error: AggregateError<BankAccountError>) -> (text: String)
    ensures
        text@ == refusal_text(error),
{
    match error {
        AggregateError::UserError(reason) => reason.to_string(),
        AggregateError::AggregateConflict => "aggregate conflict".to_owned(),
        AggregateError::UnexpectedError(reason) => reason,
    }
}

/// The response to a command: status 204 and no text if it was carried out,
/// else the status and the text of the refusal.
pub open spec fn command_response(answer: Result<(), AggregateError<BankAccountError>>) -> (
    int,
    Seq<char>,
) {
    match answer {
        Ok(()) => (204, Seq::empty()),
        Err(error) => (refusal_status(error), refusal_text(error)),
    }
}

/// The command endpoint: issues `command` for the account `id` and answers
/// with the response to what came of it.
pub fn command_handler<S: BankAccountApi>(
    id: &str,
    cqrs: &mut AccountCqrs<S>,
    metadata: MetadataExtension,
    command: BankAccountCommand,
) -> (response: (u16, String))
    requires
        is_event_log(old(cqrs).log()),
    ensures
        is_event_log(final(cqrs).log()),
        exists|answer: Result<(), AggregateError<BankAccountError>>|
            {
                &&& #[trigger] issued(*old(cqrs), *final(cqrs), id@, command, metadata@, answer)
                &&& (response.0 as int, response.1@) == command_response(answer)
            },
{
    let answer = issue_command(cqrs, id, command, metadata.0);
    assert(issued(*old(cqrs), *cqrs, id@, command, metadata@, answer));
    match answer {
        Ok(()) => (204, String::new()),
        Err(error) => {
            let status: u16 = match &error {
                AggregateError::UserError(_) => 400,
                AggregateError::AggregateConflict => 409,
                AggregateError::UnexpectedError(_) => 500,
            };
            (status, refusal_to_string(error))
        },
    }
}

/// The query endpoint: answers with status 200 and a copy of the read model
/// of the account `id`, or with status 404 if there is none yet. The event
/// log is not consulted.
pub fn query_handler(id: &str, view_repo: &AccountQuery) -> (response: (
    u16,
    Option<BankAccountView>,
))
    ensures
        match response.1 {
            Some(view) => response.0 == 200 && view_repo@.contains_key(id@) && view@
                == view_repo@[id@],
            None => response.0 == 404 && !view_repo@.contains_key(id@),
        },
{
    match view_repo.load(id) {
        None => (404, None),
        Some(account_view) => (200, Some(account_view.duplicate())),
    }
}

} // verus!
