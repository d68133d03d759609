//! The request log: one row for each view of the badge.
//!
//! A view is recorded in one transaction of three steps: open it, insert the
//! row and read it back, commit. The database does the work; what is decided
//! between the steps is a state machine here. Whoever runs it performs the
//! action that a step asks for and hands back what happened as the next event.

use chrono::NaiveDateTime;
use vstd::prelude::*;

verus! {

/// The date and time type of the `chrono` crate, without a time zone. The
/// request log hands such values on as the store gave them and never looks
/// inside.
#[verifier::external_type_specification]
#[verifier::external_body]
pub struct ExNaiveDateTime(chrono::NaiveDateTime);

/// The statement that records a view. Its first parameter is the address of
/// the client and its second the user agent; the store sets both timestamps
/// and hands the whole row back.
pub const INSERT_STATEMENT: &'static str =
    "INSERT INTO requests (ip_address, user_agent, created_at, updated_at) \
     VALUES ($1, $2, NOW(), NOW()) \
     RETURNING id, ip_address, user_agent, created_at, updated_at";

/// One view of the badge. Before it is stored its `id` is 0 and it has no
/// timestamps; the store assigns all three.
#[derive(Debug, PartialEq, Eq)]
pub struct RequestInfo {
    pub id: i32,
    pub ip_address: String,
    pub user_agent: String,
    pub created_at: Option<NaiveDateTime>,
    pub updated_at: Option<NaiveDateTime>,
}

/// What a `RequestInfo` stands for.
pub struct Record {
    pub id: int,
    pub ip_address: Seq<char>,
    pub user_agent: Seq<char>,
    pub created_at: Option<NaiveDateTime>,
    pub updated_at: Option<NaiveDateTime>,
}

impl View for RequestInfo {
    type V = Record;

    open spec fn view(&self) -> Record {
        Record {
            id: self.id as int,
            ip_address: self.ip_address@,
            user_agent: self.user_agent@,
            created_at: self.created_at,
            updated_at: self.updated_at,
        }
    }
}

/// A row of the request log as the store hands it back after the insert.
#[derive(Debug, PartialEq, Eq)]
pub struct StoredRow {
    pub id: i32,
    pub ip_address: String,
    pub user_agent: String,
    pub created_at: NaiveDateTime,
    pub updated_at: NaiveDateTime,
}

impl View for StoredRow {
    type V = Record;

    /// The record that the row holds: every column as it is, both timestamps
    /// present.
    open spec fn view(&self) -> Record {
        Record {
            id: self.id as int,
            ip_address: self.ip_address@,
            user_agent: self.user_agent@,
            created_at: Some(self.created_at),
            updated_at: Some(self.updated_at),
        }
    }
}

/// A failure of the store, with the store's own description of it.
#[derive(Debug, PartialEq, Eq)]
pub struct StoreError {
    pub description: String,
}

impl View for StoreError {
    type V = Seq<char>;

    open spec fn view(&self) -> Seq<char> {
        self.description@
    }
}

impl StoreError {
    /// The description of the failure.
    pub fn to_string(&self) -> (text: String)
        ensures
            text@ == self@,
    {
        self.description.clone()
    }
}

/// A statement with the values of its parameters, in their order.
#[derive(Debug, PartialEq, Eq)]
pub struct InsertCommand {
    pub statement: String,
    pub parameters: Vec<String>,
}

/// What an `InsertCommand` stands for.
pub struct Command {
    pub statement: Seq<char>,
    pub parameters: Seq<Seq<char>>,
}

impl View for InsertCommand {
    type V = Command;

    open spec fn view(&self) -> Command {
        Command { statement: self.statement@, parameters: self.parameters.deep_view() }
    }
}

/// The command that records `record`: the insert statement with the client's
/// address and the user agent as its parameters, in that order.
pub open spec fn insert_command(record: Record) -> Command {
    Command {
        statement: INSERT_STATEMENT@,
        parameters: seq![record.ip_address, record.user_agent],
    }
}

/// What the runner of a transaction is asked to do next.
#[derive(Debug, PartialEq, Eq)]
pub enum StoreAction {
    /// Open a transaction.
    Begin,
    /// Run the command inside the transaction and fetch the one row it returns.
    Insert(InsertCommand),
    /// Commit the transaction.
    Commit,
    /// Nothing more: hand this result to the caller. After an error the
    /// transaction is dropped without a commit.
    Finish(Result<RequestInfo, StoreError>),
}

/// What a `StoreAction` stands for.
pub enum Action {
    Begin,
    Insert(Command),
    Commit,
    Finish(Result<Record, Seq<char>>),
}

impl View for StoreAction {
    type V = Action;

    open spec fn view(&self) -> Action {
        match *self {
            StoreAction::Begin => Action::Begin,
            StoreAction::Insert(command) => Action::Insert(command@),
            StoreAction::Commit => Action::Commit,
            StoreAction::Finish(Ok(record)) => Action::Finish(Ok(record@)),
            StoreAction::Finish(Err(error)) => Action::Finish(Err(error@)),
        }
    }
}

/// What happened when the runner performed the last action.
#[derive(Debug, PartialEq, Eq)]
pub enum StoreEvent {
    /// The transaction is open.
    Begun,
    /// The row was inserted, and this is what the store handed back.
    Inserted(StoredRow),
    /// The transaction is committed.
    Committed,
    /// The action failed, for the reason given.
    Failed(StoreError),
}

/// What a `StoreEvent` stands for.
pub enum Event {
    Begun,
    Inserted(Record),
    Committed,
    Failed(Seq<char>),
}

impl View for StoreEvent {
    type V = Event;

    open spec fn view(&self) -> Event {
        match *self {
            StoreEvent::Begun => Event::Begun,
            StoreEvent::Inserted(row) => Event::Inserted(row@),
            StoreEvent::Committed => Event::Committed,
            StoreEvent::Failed(error) => Event::Failed(error@),
        }
    }
}

/// How far the transaction that records a view has come.
#[derive(Debug, PartialEq, Eq)]
pub enum Transaction {
    /// Waiting for the transaction to open; `request` is what will be stored.
    Opening { request: RequestInfo },
    /// Waiting for the inserted row.
    Inserting,
    /// Waiting for the commit; `record` is the row that was inserted.
    Committing { record: RequestInfo },
    /// Finished, with a record or with an error.
    Closed,
}

/// What a `Transaction` stands for.
pub enum Progress {
    Opening { request: Record },
    Inserting,
    Committing { record: Record },
    Closed,
}

impl View for Transaction {
    type V = Progress;

    open spec fn view(&self) -> Progress {
        match *self {
            Transaction::Opening { request } => Progress::Opening { request: request@ },
            Transaction::Inserting => Progress::Inserting,
            Transaction::Committing { record } => Progress::Committing { record: record@ },
            Transaction::Closed => Progress::Closed,
        }
    }
}

/// Whether `event` can follow the action that `progress` waits for: the event
/// that carries it on, or a failure. Nothing can follow once the transaction
/// is closed.
pub open spec fn fits(progress: Progress, event: Event) -> bool {
    match (progress, event) {
        (Progress::Closed, _) => false,
        (_, Event::Failed(_)) => true,
        (Progress::Opening { .. }, Event::Begun) => true,
        (Progress::Inserting, Event::Inserted(_)) => true,
        (Progress::Committing { .. }, Event::Committed) => true,
        _ => false,
    }
}

/// The step that the transaction takes on `event`. A failure closes it with
/// the error, and neither retries nor commits. Otherwise the transaction
/// opens, then inserts, then commits, and closes with the row that was
/// inserted. An event that does not fit has no step.
pub open spec fn transition(progress: Progress, event: Event) -> Option<(Progress, Action)> {
    match (progress, event) {
        (Progress::Closed, _) => None,
        (_, Event::Failed(error)) => Some((Progress::Closed, Action::Finish(Err(error)))),
        (Progress::Opening { request }, Event::Begun) => Some(
            (Progress::Inserting, Action::Insert(insert_command(request))),
        ),
        (Progress::Inserting, Event::Inserted(row)) => Some(
            (Progress::Committing { record: row }, Action::Commit),
        ),
        (Progress::Committing { record }, Event::Committed) => Some(
            (Progress::Closed, Action::Finish(Ok(record))),
        ),
        _ => None,
    }
}

/// Where a transaction stands after the events of `events`, one after the
/// other from `progress` on, and the actions that it asked for on the way, one
/// for each event. `None` if one of the events does not fit.
pub open spec fn run(progress: Progress, events: Seq<Event>) -> Option<(Progress, Seq<Action>)>
    decreases events.len(),
{
    if events.len() == 0 {
        Some((progress, Seq::empty()))
    } else {
        match run(progress, events.drop_last()) {
            Some((reached, actions)) => match transition(reached, events.last()) {
                Some((next, action)) => Some((next, actions.push(action))),
                None => None,
            },
            None => None,
        }
    }
}

/// The three events of a run without failures that ends with `record`.
pub open spec fn successful_events(record: Record) -> Seq<Event> {
    seq![Event::Begun, Event::Inserted(record), Event::Committed]
}

/// The three actions of a run without failures that ends with `record`.
pub open spec fn successful_actions(request: Record, record: Record) -> Seq<Action> {
    seq![Action::Insert(insert_command(request)), Action::Commit, Action::Finish(Ok(record))]
}

/// What the events and actions of a run from the start are, by where the run
/// stands.
spec fn run_shape(
    request: Record,
    events: Seq<Event>,
    reached: Progress,
    actions: Seq<Action>,
) -> bool {
    let insert = Action::Insert(insert_command(request));
    match reached {
        Progress::Opening { request: waiting } => {
            &&& waiting == request
            &&& events.len() == 0
            &&& actions.len() == 0
        },
        Progress::Inserting => {
            &&& events == seq![Event::Begun]
            &&& actions == seq![insert]
        },
        Progress::Committing { record } => {
            &&& events == seq![Event::Begun, Event::Inserted(record)]
            &&& actions == seq![insert, Action::Commit]
        },
        Progress::Closed => {
            &&& 1 <= events.len() == actions.len()
            &&& match actions.last() {
                Action::Finish(Ok(record)) => {
                    &&& events == successful_events(record)
                    &&& actions == successful_actions(request, record)
                },
                Action::Finish(Err(description)) => {
                    &&& events.last() == Event::Failed(description)
                    &&& forall|i: int| 0 <= i < events.len() ==> events[i] != Event::Committed
                },
                _ => false,
            }
        },
    }
}

/// Every run from the start has the shape that belongs to where it stands.
proof fn lemma_run_shape(request: Record, events: Seq<Event>)
    ensures
        run(Progress::Opening { request }, events) matches Some((reached, actions))
            ==> run_shape(request, events, reached, actions),
    decreases events.len(),
{
    if events.len() > 0 {
        let earlier = events.drop_last();
        lemma_run_shape(request, earlier);
        assert(events =~= earlier.push(events.last()));
        if let Some((reached, actions)) = run(Progress::Opening { request }, earlier) {
            if let Some((next, action)) = transition(reached, events.last()) {
                let insert = Action::Insert(insert_command(request));
                match next {
                    Progress::Opening { .. } => {},
                    Progress::Inserting => {
                        assert(events =~= seq![Event::Begun]);
                        assert(actions.push(action) =~= seq![insert]);
                    },
                    Progress::Committing { record } => {
                        assert(events =~= seq![Event::Begun, Event::Inserted(record)]);
                        assert(actions.push(action) =~= seq![insert, Action::Commit]);
                    },
                    Progress::Closed => {
                        if let Action::Finish(Ok(record)) = action {
                            assert(events =~= successful_events(record));
                            assert(actions.push(action) =~= successful_actions(request, record));
                        } else {
                            assert forall|i: int| 0 <= i < events.len() implies events[i]
                                != Event::Committed by {
                                if i < earlier.len() {
                                    assert(events[i] == earlier[i]);
                                }
                            }
                        }
                    },
                }
            }
        }
    }
}

/// A failure at any step ends the transaction with that failure: it is handed
/// to the caller as it came, nothing is tried again and nothing is committed.
pub proof fn lemma_failure_is_final(progress: Progress, description: Seq<char>)
    requires
        progress !is Closed,
    ensures
        transition(progress, Event::Failed(description)) == Some(
            (Progress::Closed, Action::Finish(Err(description))),
        ),
{
}

/// A run without failures records the request with one insert and one commit,
/// and hands back the row that the store returned for the insert.
pub proof fn lemma_success_runs(request: Record, row: Record)
    ensures
        run(Progress::Opening { request }, successful_events(row)) == Some(
            (Progress::Closed, successful_actions(request, row)),
        ),
{
    let start = Progress::Opening { request };
    let insert = Action::Insert(insert_command(request));
    let one = seq![Event::Begun];
    let two = seq![Event::Begun, Event::Inserted(row)];
    let three = successful_events(row);
    assert(one.drop_last() =~= Seq::<Event>::empty());
    assert(two.drop_last() =~= one);
    assert(three.drop_last() =~= two);
    assert(run(start, Seq::<Event>::empty()) == Some((start, Seq::<Action>::empty())));
    assert(run(start, one) == Some((Progress::Inserting, Seq::<Action>::empty().push(insert))));
    assert(run(start, two).unwrap().1 =~= seq![insert, Action::Commit]);
    assert(run(start, three).unwrap().1 =~= successful_actions(request, row));
}

/// A record is handed to the caller after exactly one insert and one commit,
/// and it is the row that the store returned for the insert: whenever a run
/// from the start ends with a record, the store opened the transaction,
/// inserted that row and committed, and that is all that happened.
pub proof fn lemma_one_row_for_each_record(
    request: Record,
    events: Seq<Event>,
    reached: Progress,
    actions: Seq<Action>,
    record: Record,
)
    requires
        run(Progress::Opening { request }, events) == Some((reached, actions)),
        actions.len() > 0,
        actions.last() == Action::Finish(Ok::<Record, Seq<char>>(record)),
    ensures
        reached == Progress::Closed,
        events == successful_events(record),
        actions == successful_actions(request, record),
{
    lemma_run_shape(request, events);
}

/// A run that ends with a failure has committed nothing: the failure is its
/// last event, and no commit went through before it.
pub proof fn lemma_failed_run_commits_nothing(
    request: Record,
    events: Seq<Event>,
    reached: Progress,
    actions: Seq<Action>,
    description: Seq<char>,
)
    requires
        run(Progress::Opening { request }, events) == Some((reached, actions)),
        actions.len() > 0,
        actions.last() == Action::Finish(Err::<Record, Seq<char>>(description)),
    ensures
        reached == Progress::Closed,
        events.len() > 0,
        events.last() == Event::Failed(description),
        forall|i: int| 0 <= i < events.len() ==> events[i] != Event::Committed,
{
    lemma_run_shape(request, events);
}

impl RequestInfo {
    /// Starts the transaction that records `request`: the first action is to
    /// open it.
    pub fn create(request: RequestInfo) -> (start: (Transaction, StoreAction))
        ensures
            start.0@ == (Progress::Opening { request: request@ }),
            start.1@ == Action::Begin,
    {
        (Transaction::Opening { request }, StoreAction::Begin)
    }

    /// The record that a stored row holds.
    pub fn from_row(row: StoredRow) -> (record: RequestInfo)
        ensures
            record@ == row@,
    {
        RequestInfo {
            id: row.id,
            ip_address: row.ip_address,
            user_agent: row.user_agent,
            created_at: Some(row.created_at),
            updated_at: Some(row.updated_at),
        }
    }

    /// The command that inserts this request.
    pub fn insert_command(&self) -> (command: InsertCommand)
        ensures
            command@ == insert_command(self@),
    {
        let mut parameters: Vec<String> = Vec::new();
        parameters.push(self.ip_address.clone());
        parameters.push(self.user_agent.clone());
        let command = InsertCommand { statement: String::from_str(INSERT_STATEMENT), parameters };
        assert(command.parameters.deep_view() =~= seq![self.ip_address@, self.user_agent@]);
        command
    }
}

impl Transaction {
    /// Takes the step for `event`: the state after it and the action to
    /// perform next, or `None` if the event does not fit the state.
    pub fn step(self, event: StoreEvent) -> (next: Option<(Transaction, StoreAction)>)
        ensures
            next is Some <==> fits(self@, event@),
            match next {
                Some((transaction, action)) => transition(self@, event@) == Some(
                    (transaction@, action@),
                ),
                None => transition(self@, event@) is None,
            },
    {
        match (self, event) {
            (Transaction::Closed, _) => None,
            (_, StoreEvent::Failed(error)) => Some(
                (Transaction::Closed, StoreAction::Finish(Err(error))),
            ),
            (Transaction::Opening { request }, StoreEvent::Begun) => {
                let command = request.insert_command();
                Some((Transaction::Inserting, StoreAction::Insert(command)))
            },
            (Transaction::Inserting, StoreEvent::Inserted(row)) => {
                let record = RequestInfo::from_row(row);
                Some((Transaction::Committing { record }, StoreAction::Commit))
            },
            (Transaction::Committing { record }, StoreEvent::Committed) => Some(
                (Transaction::Closed, StoreAction::Finish(Ok(record))),
            ),
            _ => None,
        }
    }
}

} // verus!
