use vstd::prelude::*;
use crate::bank_account_events::{BankAccountEvent, BankAccountEventView};
use crate::event_log::{payloads_of, EnvelopeView, EventLog};
use crate::event_store::{envelope_views, EventEnvelope};
use crate::projection::{projected_from, Projection};
use crate::query::{model_or_empty, projected_models, DispatchError, GenericQuery, Query};
use crate::text::{natural_text, natural_to_text};

verus! {

/// One line of an account's ledger: what happened, and the amount moved.
#[derive(Debug, PartialEq)]
pub struct AccountTransaction {
    description: String,
    amount: i64,
}

impl View for AccountTransaction {
    type V = (Seq<char>, int);

    closed spec fn view(&self) -> (Seq<char>, int) {
        (self.description@, self.amount as int)
    }
}

impl AccountTransaction {
    /// The ledger line with `description` and `amount`.
    pub fn new(description: &str, amount: i64) -> (transaction: Self)
        ensures
            transaction@ == (description@, amount as int),
    {
        Self { description: description.to_owned(), amount }
    }

    /// What happened.
    pub fn description(&self) -> (description: &str)
        ensures
            description@ == self@.0,
    {
        self.description.as_str()
    }

    /// The amount moved.
    pub fn amount(&self) -> (amount: i64)
        ensures
            amount == self@.1,
    {
        self.amount
    }

    /// A second ledger line of the same value.
    pub fn duplicate(&self) -> (copy: Self)
        ensures
            copy@ == self@,
    {
        Self { description: self.description.clone(), amount: self.amount }
    }
}

/// What a reader sees of one bank account: its id once it is opened, its
/// balance, the numbers of the checks written on it, and its ledger.
///
/// The read model remembers the sequence number of the last envelope folded
/// into it, and takes no envelope with that number or a lower one again. An
/// envelope that is delivered a second time therefore counts once.
#[derive(Debug)]
pub struct BankAccountView {
    account_id: Option<String>,
    balance: i64,
    written_checks: Vec<String>,
    account_transactions: Vec<AccountTransaction>,
    last_sequence: usize,
}

/// The mathematical value of a [`BankAccountView`].
pub struct BankAccountViewState {
    pub account_id: Option<Seq<char>>,
    pub balance: int,
    pub written_checks: Seq<Seq<char>>,
    pub account_transactions: Seq<(Seq<char>, int)>,
    /// The sequence number of the last envelope folded in, 0 if there is
    /// none.
    pub last_sequence: nat,
}

impl BankAccountViewState {
    /// The read model of an account without events.
    pub open spec fn empty() -> Self {
        BankAccountViewState {
            account_id: None,
            balance: 0,
            written_checks: Seq::empty(),
            account_transactions: Seq::empty(),
            last_sequence: 0,
        }
    }

    /// What `event` does to the read model. Opening sets the id. A deposit
    /// adds the ledger line "deposit", a withdrawal the line "atm
    /// withdrawal", a check a line under the check's number and the number
    /// to the written checks; each of the three takes the balance from the
    /// event.
    pub open spec fn record(self, event: BankAccountEventView) -> Self {
        match event {
            BankAccountEventView::AccountOpened { account_id } => BankAccountViewState {
                account_id: Some(account_id),
                ..self
            },
            BankAccountEventView::CustomerDepositedMoney { amount, balance } => BankAccountViewState {
                balance,
                account_transactions: self.account_transactions.push(("deposit"@, amount)),
                ..self
            },
            BankAccountEventView::CustomerWithdrewCash { amount, balance } => BankAccountViewState {
                balance,
                account_transactions: self.account_transactions.push(("atm withdrawal"@, amount)),
                ..self
            },
            BankAccountEventView::CustomerWroteCheck {
                check_number,
                amount,
                balance,
            } => BankAccountViewState {
                balance,
                written_checks: self.written_checks.push(check_number),
                account_transactions: self.account_transactions.push((check_number, amount)),
                ..self
            },
        }
    }
}

impl BankAccountViewState {
    /// The read model after `envelope`. An envelope whose sequence number is
    /// not above the last one folded in has been seen before, and changes
    /// nothing. Any other envelope is recorded, and its sequence number is
    /// remembered.
    pub open spec fn update(self, envelope: EnvelopeView<BankAccountEventView>) -> Self {
        if envelope.sequence <= self.last_sequence {
            self
        } else {
            BankAccountViewState {
                last_sequence: envelope.sequence,
                ..self.record(envelope.payload)
            }
        }
    }
}

/// An envelope that is delivered a second time counts once: folding it in
/// again leaves the read model as the first time left it, whatever its
/// event.
pub proof fn lemma_redelivery_changes_nothing(
    model: BankAccountViewState,
    envelope: EnvelopeView<BankAccountEventView>,
)
    ensures
        model.update(envelope).update(envelope) == model.update(envelope),
{
}

/// An envelope that the read model has seen changes nothing: one whose
/// sequence number is not above the last one folded in. One that it has not
/// seen adds at most one ledger line and one check number.
pub proof fn lemma_seen_envelopes_are_skipped(
    model: BankAccountViewState,
    envelope: EnvelopeView<BankAccountEventView>,
)
    ensures
        envelope.sequence <= model.last_sequence ==> model.update(envelope) == model,
        model.update(envelope).last_sequence >= model.last_sequence,
        model.update(envelope).last_sequence >= envelope.sequence,
        model.update(envelope).account_transactions.len() <= model.account_transactions.len() + 1,
        model.update(envelope).written_checks.len() <= model.written_checks.len() + 1,
{
}

/// The read model after the envelopes of `batch`, folded in first to last.
pub open spec fn folded(
    model: BankAccountViewState,
    batch: EventLog<BankAccountEventView>,
) -> BankAccountViewState {
    projected_from::<BankAccountEvent, BankAccountView>(model, batch)
}

/// Folding a batch in never lowers the last sequence number, and a batch
/// none of whose envelopes is above the last sequence number changes
/// nothing.
pub proof fn lemma_seen_batches_are_skipped(
    model: BankAccountViewState,
    batch: EventLog<BankAccountEventView>,
)
    ensures
        folded(model, batch).last_sequence >= model.last_sequence,
        (forall|at: int| 0 <= at < batch.len() ==> (#[trigger] batch[at]).sequence
            <= model.last_sequence) ==> folded(model, batch) == model,
    decreases batch.len(),
{
    if batch.len() > 0 {
        lemma_seen_batches_are_skipped(model, batch.drop_last());
        if forall|at: int| 0 <= at < batch.len() ==> (#[trigger] batch[at]).sequence
            <= model.last_sequence {
            assert forall|at: int| 0 <= at < batch.drop_last().len() implies (
            #[trigger] batch.drop_last()[at]).sequence <= model.last_sequence by {
                assert(batch.drop_last()[at] == batch[at]);
            }
            assert(batch[batch.len() - 1].sequence <= model.last_sequence);
        }
    }
}

/// A batch that is delivered a second time counts once: if its sequence
/// numbers never go down, as those of a committed batch never do, folding it
/// in again leaves the read model as the first time left it.
pub proof fn lemma_redelivered_batch_changes_nothing(
    model: BankAccountViewState,
    batch: EventLog<BankAccountEventView>,
)
    requires
        forall|earlier: int, later: int|
            0 <= earlier <= later < batch.len() ==> (#[trigger] batch[earlier]).sequence <= (
            #[trigger] batch[later]).sequence,
    ensures
        folded(folded(model, batch), batch) == folded(model, batch),
{
    let after = folded(model, batch);
    if batch.len() > 0 {
        let last = batch.len() - 1;
        lemma_seen_batches_are_skipped(model, batch.drop_last());
        assert(after.last_sequence >= batch[last].sequence);
        assert forall|at: int| 0 <= at < batch.len() implies (#[trigger] batch[at]).sequence
            <= after.last_sequence by {
            assert(batch[at].sequence <= batch[last].sequence);
        }
    }
    lemma_seen_batches_are_skipped(after, batch);
}

/// The values of the texts in `texts`, in the same order.
pub open spec fn text_views(texts: Seq<String>) -> Seq<Seq<char>> {
    texts.map_values(|text: String| text@)
}

/// The values of the ledger lines in `lines`, in the same order.
pub open spec fn transaction_views(lines: Seq<AccountTransaction>) -> Seq<(Seq<char>, int)> {
    lines.map_values(|line: AccountTransaction| line@)
}

impl View for BankAccountView {
    type V = BankAccountViewState;

    closed spec fn view(&self) -> BankAccountViewState {
        BankAccountViewState {
            account_id: match self.account_id {
                Some(id) => Some(id@),
                None => None,
            },
            balance: self.balance as int,
            written_checks: text_views(self.written_checks@),
            account_transactions: transaction_views(self.account_transactions@),
            last_sequence: self.last_sequence as nat,
        }
    }
}

impl Default for BankAccountView {
    fn default() -> (view: Self)
        ensures
            view@ == BankAccountViewState::empty(),
    {
        let view = BankAccountView {
            account_id: None,
            balance: 0,
            written_checks: Vec::new(),
            account_transactions: Vec::new(),
            last_sequence: 0,
        };
        assert(view@.written_checks =~= Seq::empty());
        assert(view@.account_transactions =~= Seq::empty());
        view
    }
}

impl BankAccountView {
    /// The read model with these parts: one that was stored earlier and is
    /// taken up again. `last_sequence` is the sequence number of the last
    /// envelope that went into it.
    pub fn new(
        account_id: Option<String>,
        balance: i64,
        written_checks: Vec<String>,
        account_transactions: Vec<AccountTransaction>,
        last_sequence: usize,
    ) -> (view: Self)
        ensures
            view@ == (BankAccountViewState {
                account_id: match account_id {
                    Some(id) => Some(id@),
                    None => None,
                },
                balance: balance as int,
                written_checks: text_views(written_checks@),
                account_transactions: transaction_views(account_transactions@),
                last_sequence: last_sequence as nat,
            }),
    {
        BankAccountView { account_id, balance, written_checks, account_transactions, last_sequence }
    }

    /// The sequence number of the last envelope folded in, 0 if there is
    /// none.
    pub fn last_sequence(&self) -> (last: usize)
        ensures
            last == self@.last_sequence,
    {
        self.last_sequence
    }

    /// The account's id, once the account is opened.
    pub fn account_id(&self) -> (account_id: Option<&str>)
        ensures
            match account_id {
                Some(id) => self@.account_id == Some(id@),
                None => self@.account_id is None,
            },
    {
        match &self.account_id {
            Some(id) => Some(id.as_str()),
            None => None,
        }
    }

    /// The balance after the last event.
    pub fn balance(&self) -> (balance: i64)
        ensures
            balance == self@.balance,
    {
        self.balance
    }

    /// The numbers of the checks written, oldest first.
    pub fn written_checks(&self) -> (checks: &Vec<String>)
        ensures
            text_views(checks@) == self@.written_checks,
    {
        &self.written_checks
    }

    /// The ledger, oldest line first.
    pub fn account_transactions(&self) -> (lines: &Vec<AccountTransaction>)
        ensures
            transaction_views(lines@) == self@.account_transactions,
    {
        &self.account_transactions
    }
}

impl Projection<BankAccountEvent> for BankAccountView {
    open spec fn empty() -> BankAccountViewState {
        BankAccountViewState::empty()
    }

    open spec fn updated(
        model: BankAccountViewState,
        envelope: EnvelopeView<BankAccountEventView>,
    ) -> BankAccountViewState {
        model.update(envelope)
    }

    fn blank() -> (model: Self) {
        BankAccountView::default()
    }

    fn update(&mut self, event: &EventEnvelope<BankAccountEvent>) {
        if event.sequence <= self.last_sequence {
            return ;
        }
        self.last_sequence = event.sequence;
        let ghost checks = self.written_checks@;
        let ghost lines = self.account_transactions@;
        match &event.payload {
            BankAccountEvent::AccountOpened { account_id } => {
                self.account_id = Some(account_id.clone());
            },
            BankAccountEvent::CustomerDepositedMoney { amount, balance } => {
                let line = AccountTransaction::new("deposit", *amount);
                self.account_transactions.push(line);
                self.balance = *balance;
                assert(transaction_views(lines.push(line)) =~= transaction_views(lines).push(line@));
            },
            BankAccountEvent::CustomerWithdrewCash { amount, balance } => {
                let line = AccountTransaction::new("atm withdrawal", *amount);
                self.account_transactions.push(line);
                self.balance = *balance;
                assert(transaction_views(lines.push(line)) =~= transaction_views(lines).push(line@));
            },
            BankAccountEvent::CustomerWroteCheck { check_number, amount, balance } => {
                let line = AccountTransaction::new(check_number.as_str(), *amount);
                let number = check_number.clone();
                self.account_transactions.push(line);
                self.written_checks.push(number);
                self.balance = *balance;
                assert(transaction_views(lines.push(line)) =~= transaction_views(lines).push(line@));
                assert(text_views(checks.push(number)) =~= text_views(checks).push(number@));
            },
        }
    }

    fn duplicate(&self) -> (copy: Self) {
        let mut checks: Vec<String> = Vec::new();
        let mut done: usize = 0;
        while done < self.written_checks.len()
            invariant
                done <= self.written_checks.len(),
                checks@ == self.written_checks@.take(done as int),
            decreases self.written_checks.len() - done,
        {
            checks.push(self.written_checks[done].clone());
            assert(checks@ =~= self.written_checks@.take(done + 1));
            done += 1;
        }
        assert(self.written_checks@.take(done as int) =~= self.written_checks@);
        let mut lines: Vec<AccountTransaction> = Vec::new();
        let mut copied: usize = 0;
        while copied < self.account_transactions.len()
            invariant
                copied <= self.account_transactions.len(),
                transaction_views(lines@) == transaction_views(
                    self.account_transactions@.take(copied as int),
                ),
            decreases self.account_transactions.len() - copied,
        {
            let ghost so_far = lines@;
            let line = self.account_transactions[copied].duplicate();
            lines.push(line);
            assert(transaction_views(so_far.push(line)) =~= transaction_views(so_far).push(line@));
            assert(transaction_views(self.account_transactions@.take(copied + 1))
                =~= transaction_views(self.account_transactions@.take(copied as int)).push(
                self.account_transactions@[copied as int]@,
            ));
            copied += 1;
        }
        assert(self.account_transactions@.take(copied as int) =~= self.account_transactions@);
        BankAccountView {
            account_id: match &self.account_id {
                Some(id) => Some(id.clone()),
                None => None,
            },
            balance: self.balance,
            written_checks: checks,
            account_transactions: lines,
            last_sequence: self.last_sequence,
        }
    }
}

/// The projector that keeps the read model of every bank account.
pub type AccountQuery = GenericQuery<BankAccountView>;

/// What the events of `payloads` do to the read model, one after the other.
pub open spec fn recorded(
    model: BankAccountViewState,
    payloads: Seq<BankAccountEventView>,
) -> BankAccountViewState
    decreases payloads.len(),
{
    if payloads.len() == 0 {
        model
    } else {
        recorded(model, payloads.drop_last()).record(payloads.last())
    }
}

/// Nothing new is skipped: a batch whose sequence numbers go on from the last
/// one folded in, as those of the next committed batch do, is recorded in
/// full, event by event, and its last sequence number is remembered.
pub proof fn lemma_next_batch_is_recorded_in_full(
    model: BankAccountViewState,
    batch: EventLog<BankAccountEventView>,
)
    requires
        forall|at: int|
            0 <= at < batch.len() ==> (#[trigger] batch[at]).sequence == model.last_sequence + at
                + 1,
    ensures
        folded(model, batch) == (BankAccountViewState {
            last_sequence: model.last_sequence + batch.len(),
            ..recorded(model, payloads_of(batch))
        }),
    decreases batch.len(),
{
    if batch.len() > 0 {
        let earlier = batch.drop_last();
        assert forall|at: int| 0 <= at < earlier.len() implies (#[trigger] earlier[at]).sequence
            == model.last_sequence + at + 1 by {
            assert(earlier[at] == batch[at]);
        }
        lemma_next_batch_is_recorded_in_full(model, earlier);
        assert(batch[batch.len() - 1].sequence == model.last_sequence + batch.len());
        assert(payloads_of(batch).drop_last() =~= payloads_of(earlier));
        assert(payloads_of(batch).last() == batch.last().payload);
    } else {
        assert(payloads_of(batch) =~= Seq::empty());
    }
}

/// A batch that is delivered to the projector a second time counts once:
/// the stored read models are as the first delivery left them.
pub proof fn lemma_projector_is_idempotent(
    models: Map<Seq<char>, BankAccountViewState>,
    id: Seq<char>,
    batch: EventLog<BankAccountEventView>,
)
    requires
        forall|earlier: int, later: int|
            0 <= earlier <= later < batch.len() ==> (#[trigger] batch[earlier]).sequence <= (
            #[trigger] batch[later]).sequence,
    ensures
        projected_models::<BankAccountEvent, BankAccountView>(
            projected_models::<BankAccountEvent, BankAccountView>(models, id, batch),
            id,
            batch,
        ) == projected_models::<BankAccountEvent, BankAccountView>(models, id, batch),
{
    let stored = model_or_empty::<BankAccountEvent, BankAccountView>(models, id);
    lemma_redelivered_batch_changes_nothing(stored, batch);
    let once = projected_models::<BankAccountEvent, BankAccountView>(models, id, batch);
    assert(model_or_empty::<BankAccountEvent, BankAccountView>(once, id) == folded(stored, batch));
    assert(projected_models::<BankAccountEvent, BankAccountView>(once, id, batch) =~= once);
}

/// The text that `format!("{:#?}", ..)` writes for an event of value
/// `event`: std's pretty `Debug` form of the event.
pub uninterp spec fn pretty_debug(event: BankAccountEventView) -> Seq<char>;

/// Formats `event` with std's `format!` and the pretty `Debug` form
/// (`{:#?}`). The contract claims only that the text depends on nothing but
/// the event's value.
#[verifier::external_body]
fn debug_text(event: &BankAccountEvent) -> (text: String)
    ensures
        text@ == pretty_debug(event@),
{
    format!("{:#?}", event)
}

/// The log entry for `envelope` of aggregate `aggregate_id`: the id, a
/// hyphen and the sequence number on one line, the event below.
pub open spec fn log_entry(
    aggregate_id: Seq<char>,
    envelope: EnvelopeView<BankAccountEventView>,
) -> Seq<char> {
    aggregate_id + "-"@ + natural_text(envelope.sequence) + "\n"@ + pretty_debug(envelope.payload)
}

/// The log entries for `events`, in the same order.
pub open spec fn log_entries(
    aggregate_id: Seq<char>,
    events: EventLog<BankAccountEventView>,
) -> Seq<Seq<char>> {
    events.map_values(
        |envelope: EnvelopeView<BankAccountEventView>| log_entry(aggregate_id, envelope),
    )
}

/// A subscriber that writes a log entry for every committed event. The
/// entries are kept until the caller takes them to print them. Its view is
/// the entries kept.
#[derive(Debug)]
pub struct SimpleLoggingQuery {
    entries: Vec<String>,
}

impl View for SimpleLoggingQuery {
    type V = Seq<Seq<char>>;

    closed spec fn view(&self) -> Seq<Seq<char>> {
        text_views(self.entries@)
    }
}

impl SimpleLoggingQuery {
    /// A logging subscriber without entries.
    pub fn new() -> (query: Self)
        ensures
            query@ == Seq::<Seq<char>>::empty(),
    {
        let query = SimpleLoggingQuery { entries: Vec::new() };
        assert(query@ =~= Seq::<Seq<char>>::empty());
        query
    }

    /// The entries kept, oldest first.
    pub fn entries(&self) -> (entries: &Vec<String>)
        ensures
            text_views(entries@) == self@,
    {
        &self.entries
    }

    /// Hands out the entries kept and keeps none.
    pub fn take_entries(&mut self) -> (entries: Vec<String>)
        ensures
            text_views(entries@) == old(self)@,
            final(self)@ == Seq::<Seq<char>>::empty(),
    {
        let mut entries: Vec<String> = Vec::new();
        std::mem::swap(&mut entries, &mut self.entries);
        assert(self@ =~= Seq::<Seq<char>>::empty());
        entries
    }
}

impl Query<BankAccountEvent> for SimpleLoggingQuery {
    /// Logging always succeeds, and adds one entry for each event.
    open spec fn delivered(
        before: Self,
        after: Self,
        aggregate_id: Seq<char>,
        events: EventLog<BankAccountEventView>,
        taken: bool,
    ) -> bool {
        taken && after@ == before@ + log_entries(aggregate_id, events)
    }

    fn dispatch(
        &mut self,
        aggregate_id: &str,
        events: &Vec<EventEnvelope<BankAccountEvent>>,
    ) -> (outcome: Result<(), DispatchError>) {
        let ghost before = self@;
        let ghost all = envelope_views(events@);
        let mut done: usize = 0;
        assert(self@ =~= before + log_entries(aggregate_id@, all.take(0)));
        while done < events.len()
            invariant
                done <= events.len(),
                all == envelope_views(events@),
                self@ == before + log_entries(aggregate_id@, all.take(done as int)),
            decreases events.len() - done,
        {
            let event = &events[done];
            let ghost kept = self.entries@;
            let entry = aggregate_id.to_owned().concat("-").concat(
                natural_to_text(event.sequence as u64).as_str(),
            ).concat("\n").concat(debug_text(&event.payload).as_str());
            assert(entry@ == log_entry(aggregate_id@, event@));
            self.entries.push(entry);
            assert(text_views(kept.push(entry)) =~= text_views(kept).push(entry@));
            assert(log_entries(aggregate_id@, all.take(done + 1)) =~= log_entries(
                aggregate_id@,
                all.take(done as int),
            ).push(log_entry(aggregate_id@, event@)));
            done += 1;
        }
        assert(all.take(done as int) =~= all);
        Ok(())
    }
}

} // verus!
