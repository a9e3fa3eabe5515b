//! The consumer loop as a state machine. The loop itself polls the broker,
//! asks the database and sends records; after each of these it reports what
//! happened as an [`Event`], and [`k_consumer`] answers with the next state and
//! the one thing to do next.

use crate::envelope::{decode, decode_spec, DecodeError};
use crate::json::{json_text, parsed_json, Json, JsonView};
use crate::kafka_producer::{produce, produce_spec, Record, RecordView};
use crate::resolver::{resolve, resolve_spec, QueryOutcome, QueryOutcomeView, ResolveError};
use crate::transform::{created_by, created_by_spec, transform, transform_spec, TransformError};
use std::collections::HashMap;
use vstd::prelude::*;

verus! {

/// Address of the broker.
pub const BROKERS: &'static str = "localhost:9092";

/// The consumer group that the worker joins.
pub const GROUP_ID: &'static str = "consumer-group-a";

/// The topic that requests arrive on, and the envelope key that marks one.
pub const REQUEST_TOPIC: &'static str = "post_get_user";

/// The topic that replies go to.
pub const RESPONSE_TOPIC: &'static str = "response_user";

/// The envelope key of every reply.
pub const REPLY_KEY: &'static str = "register_landlords";

/// The consumer's `enable.partition.eof`.
pub const ENABLE_PARTITION_EOF: &'static str = "false";

/// The consumer's `session.timeout.ms`.
pub const SESSION_TIMEOUT_MS: &'static str = "6000";

/// The consumer's `enable.auto.commit`: off, for the worker commits each
/// message by hand once it is done with it, and no message before that.
pub const ENABLE_AUTO_COMMIT: &'static str = "false";

/// The consumer's `auto.offset.reset`.
pub const AUTO_OFFSET_RESET: &'static str = "earliest";

/// What the broker does to the worker's partitions.
#[derive(Debug, Clone, Copy, PartialEq, Eq, Structural)]
pub enum Rebalance {
    /// Partitions are handed to the worker; it resumes from the committed offsets.
    Assigned,
    /// Partitions are about to be taken from the worker.
    Revoked,
}

/// What the worker owes the broker before a rebalance goes through.
#[derive(Debug, Clone, Copy, PartialEq, Eq, Structural)]
pub enum Upkeep {
    /// Flush the producer and commit the consumer's state.
    FlushAndCommitState,
    /// Nothing.
    Resume,
}

/// Where a message stands in its topic.
#[derive(Debug, Clone, Copy, PartialEq, Eq, Structural)]
pub struct Position {
    pub partition: i32,
    pub offset: i64,
}

/// Where the worker stands with the message in hand.
#[derive(Debug, PartialEq, Eq)]
pub enum Phase {
    /// No message in hand; the next thing to come is a poll's result.
    Idle,
    /// The request at `at` was accepted and the database has been asked for its user.
    Resolving { at: Position, inner: Json },
    /// The reply to the request at `at` has been handed to the producer.
    Publishing { at: Position },
}

/// The worker's state: the message in hand, and for each partition the
/// offset of the last message that was committed.
#[derive(Debug, PartialEq, Eq)]
pub struct State {
    pub phase: Phase,
    pub progress: HashMap<i32, i64>,
}

/// What the loop reports.
#[derive(Debug, PartialEq, Eq)]
pub enum Event {
    /// The poll delivered the message at `at`.
    Message { topic: String, at: Position, value: Vec<u8> },
    /// The poll failed.
    PollFailed,
    /// The database answered, or could not.
    Looked(QueryOutcome),
    /// The producer acknowledged the record, or gave up on it.
    Sent { acknowledged: bool },
}

/// Why a message was committed without a reply.
#[derive(Debug, Clone, Copy, PartialEq, Eq, Structural)]
pub enum Skip {
    /// The envelope key or the topic is not that of a request.
    NotAddressed,
    /// The message value is no envelope.
    Undecodable(DecodeError),
    /// The envelope's payload is not JSON.
    MalformedPayload,
    /// The inner document lacks a usable `user_reg.createdby`.
    BadPath(TransformError),
    /// The database knows no such user, or more than one.
    Unresolved(ResolveError),
}

/// How a message left the worker's hands when its offset is committed.
#[derive(Debug, Clone, Copy, PartialEq, Eq, Structural)]
pub enum Disposal {
    /// The reply was published and acknowledged.
    Processed,
    /// No reply will ever be due.
    Skipped(Skip),
}

/// Why a message is left uncommitted, to be delivered again.
#[derive(Debug, Clone, Copy, PartialEq, Eq, Structural)]
pub enum Retry {
    /// The database could not be asked.
    DatabaseUnavailable,
    /// The producer did not get the record acknowledged.
    PublishFailed,
    /// The report does not answer what the worker last asked for.
    OutOfTurn,
}

/// The one thing to do next.
#[derive(Debug, PartialEq, Eq)]
pub enum Action {
    /// Ask the database for the name of this user, then report `Looked`.
    Lookup { user_id: String },
    /// Send this record, then report `Sent`.
    Publish(Record),
    /// Commit the offset of the message at `at`, then poll.
    Commit { at: Position, disposal: Disposal },
    /// Commit the consumer's current state, then poll.
    CommitState,
    /// Commit nothing and go back to the message at `back_to`, if there is one, so
    /// that the next poll delivers it again.
    Redeliver { back_to: Option<Position>, retry: Retry },
}

/// The mathematical value of a [`Phase`].
pub enum PhaseView {
    Idle,
    Resolving { at: Position, inner: JsonView },
    Publishing { at: Position },
}

/// The mathematical value of a [`State`].
pub struct StateView {
    pub phase: PhaseView,
    pub progress: Map<i32, i64>,
}

/// The mathematical value of an [`Event`].
pub enum EventView {
    Message { topic: Seq<char>, at: Position, value: Seq<u8> },
    PollFailed,
    Looked(QueryOutcomeView),
    Sent { acknowledged: bool },
}

/// The mathematical value of an [`Action`].
pub enum ActionView {
    Lookup { user_id: Seq<char> },
    Publish(RecordView),
    Commit { at: Position, disposal: Disposal },
    CommitState,
    Redeliver { back_to: Option<Position>, retry: Retry },
}

impl View for Phase {
    type V = PhaseView;

    open spec fn view(&self) -> PhaseView {
        match self {
            Phase::Idle => PhaseView::Idle,
            Phase::Resolving { at, inner } => PhaseView::Resolving { at: *at, inner: inner@ },
            Phase::Publishing { at } => PhaseView::Publishing { at: *at },
        }
    }
}

impl View for State {
    type V = StateView;

    open spec fn view(&self) -> StateView {
        StateView { phase: self.phase@, progress: self.progress@ }
    }
}

impl View for Event {
    type V = EventView;

    open spec fn view(&self) -> EventView {
        match self {
            Event::Message { topic, at, value } => EventView::Message {
                topic: topic@,
                at: *at,
                value: value@,
            },
            Event::PollFailed => EventView::PollFailed,
            Event::Looked(outcome) => EventView::Looked(outcome@),
            Event::Sent { acknowledged } => EventView::Sent { acknowledged: *acknowledged },
        }
    }
}

impl View for Action {
    type V = ActionView;

    open spec fn view(&self) -> ActionView {
        match self {
            Action::Lookup { user_id } => ActionView::Lookup { user_id: user_id@ },
            Action::Publish(record) => ActionView::Publish(record@),
            Action::Commit { at, disposal } => ActionView::Commit { at: *at, disposal: *disposal },
            Action::CommitState => ActionView::CommitState,
            Action::Redeliver { back_to, retry } => ActionView::Redeliver {
                back_to: *back_to,
                retry: *retry,
            },
        }
    }
}

/// The request topic, and the envelope key of a request.
pub open spec fn request_topic() -> Seq<char> {
    "post_get_user"@
}

/// The response topic.
pub open spec fn response_topic() -> Seq<char> {
    "response_user"@
}

/// The envelope key of a reply.
pub open spec fn reply_key() -> Seq<char> {
    "register_landlords"@
}

/// A commit of the message at `at` without a reply.
pub open spec fn skip(at: Position, reason: Skip) -> (PhaseView, ActionView) {
    (PhaseView::Idle, ActionView::Commit { at, disposal: Disposal::Skipped(reason) })
}

/// What a freshly polled message leads to: a lookup where it is a request with
/// a readable user identifier, a commit without reply otherwise.
pub open spec fn on_message(topic: Seq<char>, at: Position, value: Seq<u8>) -> (
    PhaseView,
    ActionView,
) {
    match decode_spec(value) {
        Err(error) => skip(at, Skip::Undecodable(error)),
        Ok(envelope) => if envelope.key != request_topic() || topic != request_topic() {
            skip(at, Skip::NotAddressed)
        } else {
            match parsed_json(envelope.payload) {
                None => skip(at, Skip::MalformedPayload),
                Some(inner) => match created_by_spec(inner) {
                    Err(error) => skip(at, Skip::BadPath(error)),
                    Ok(user_id) => (
                        PhaseView::Resolving { at, inner },
                        ActionView::Lookup { user_id },
                    ),
                },
            }
        },
    }
}

/// What the database's answer leads to for the request at `at` whose inner
/// document is `inner`.
pub open spec fn on_looked(at: Position, inner: JsonView, outcome: QueryOutcomeView) -> (
    PhaseView,
    ActionView,
) {
    match resolve_spec(outcome) {
        Err(ResolveError::Unavailable) => (
            PhaseView::Idle,
            ActionView::Redeliver { back_to: Some(at), retry: Retry::DatabaseUnavailable },
        ),
        Err(error) => skip(at, Skip::Unresolved(error)),
        Ok(name) => match transform_spec(inner, name) {
            Err(error) => skip(at, Skip::BadPath(error)),
            Ok(reply) => (
                PhaseView::Publishing { at },
                ActionView::Publish(produce_spec(reply_key(), json_text(reply), response_topic())),
            ),
        },
    }
}

/// The position of the message in hand.
pub open spec fn in_hand(phase: PhaseView) -> Option<Position> {
    match phase {
        PhaseView::Idle => None,
        PhaseView::Resolving { at, .. } => Some(at),
        PhaseView::Publishing { at } => Some(at),
    }
}

/// What a report leads to that does not answer what the worker last asked
/// for: the message in hand, if there is one, is left to be delivered again.
pub open spec fn out_of_turn(phase: PhaseView) -> (PhaseView, ActionView) {
    (PhaseView::Idle, ActionView::Redeliver { back_to: in_hand(phase), retry: Retry::OutOfTurn })
}

/// The phase after `event`, and the action that the event calls for.
pub open spec fn phase_step(phase: PhaseView, event: EventView) -> (PhaseView, ActionView) {
    match event {
        EventView::Message { topic, at, value } => on_message(topic, at, value),
        EventView::PollFailed => (PhaseView::Idle, ActionView::CommitState),
        EventView::Looked(outcome) => match phase {
            PhaseView::Resolving { at, inner } => on_looked(at, inner, outcome),
            _ => out_of_turn(phase),
        },
        EventView::Sent { acknowledged } => match phase {
            PhaseView::Publishing { at } => if acknowledged {
                (PhaseView::Idle, ActionView::Commit { at, disposal: Disposal::Processed })
            } else {
                (
                    PhaseView::Idle,
                    ActionView::Redeliver { back_to: Some(at), retry: Retry::PublishFailed },
                )
            },
            _ => out_of_turn(phase),
        },
    }
}

/// The progress once `action` is carried out: a commit moves its partition to
/// the committed message's offset, and nothing else moves anything.
pub open spec fn progress_after(progress: Map<i32, i64>, action: ActionView) -> Map<i32, i64> {
    match action {
        ActionView::Commit { at, .. } => progress.insert(at.partition, at.offset),
        _ => progress,
    }
}

/// The worker's transition: the state after `event`, and the action it calls for.
pub open spec fn step_spec(state: StateView, event: EventView) -> (StateView, ActionView) {
    let (phase, action) = phase_step(state.phase, event);
    (StateView { phase, progress: progress_after(state.progress, action) }, action)
}

/// The state in which the worker starts.
pub open spec fn initial_state() -> StateView {
    StateView { phase: PhaseView::Idle, progress: Map::empty() }
}

/// The state that the worker is in after a run of events.
pub open spec fn state_after(events: Seq<EventView>) -> StateView
    decreases events.len(),
{
    if events.len() == 0 {
        initial_state()
    } else {
        step_spec(state_after(events.drop_last()), events.last()).0
    }
}

/// The action that the worker answers the event at position `at` with.
pub open spec fn action_at(events: Seq<EventView>, at: int) -> ActionView
    recommends
        0 <= at < events.len(),
{
    step_spec(state_after(events.take(at)), events[at]).1
}

/// The state before an event is the state that the event before it left.
proof fn lemma_state_after_take(events: Seq<EventView>, at: int)
    requires
        0 < at <= events.len(),
    ensures
        state_after(events.take(at)) == step_spec(
            state_after(events.take(at - 1)),
            events[at - 1],
        ).0,
{
    assert(events.take(at).drop_last() =~= events.take(at - 1));
    assert(events.take(at).last() == events[at - 1]);
}

/// A message whose envelope key is not that of a request is committed at once,
/// in every state: the database is not asked and nothing is published.
pub proof fn lemma_foreign_key_is_committed(
    state: StateView,
    topic: Seq<char>,
    at: Position,
    value: Seq<u8>,
)
    requires
        decode_spec(value) matches Ok(envelope) && envelope.key != request_topic(),
    ensures
        step_spec(state, EventView::Message { topic, at, value }).1 == (ActionView::Commit {
            at,
            disposal: Disposal::Skipped(Skip::NotAddressed),
        }),
        step_spec(state, EventView::Message { topic, at, value }).0.phase is Idle,
{
}

/// Where the database could not be asked, nothing is committed and the
/// message is left to be delivered again; where it knows no such user, the
/// pending request is committed without a reply.
pub proof fn lemma_lookup_failure(state: StateView, outcome: QueryOutcomeView)
    ensures
        resolve_spec(outcome) == Err::<Seq<char>, ResolveError>(ResolveError::Unavailable) ==> {
            &&& step_spec(state, EventView::Looked(outcome)).1 is Redeliver
            &&& step_spec(state, EventView::Looked(outcome)).1->back_to == in_hand(state.phase)
            &&& step_spec(state, EventView::Looked(outcome)).0 == (StateView {
                phase: PhaseView::Idle,
                progress: state.progress,
            })
        },
        state.phase is Resolving && resolve_spec(outcome) == Err::<Seq<char>, ResolveError>(
            ResolveError::NotFound,
        ) ==> step_spec(state, EventView::Looked(outcome)).1 == (ActionView::Commit {
            at: state.phase->Resolving_at,
            disposal: Disposal::Skipped(Skip::Unresolved(ResolveError::NotFound)),
        }),
{
}

/// A record is handed to the producer exactly when the worker starts to wait
/// for its acknowledgement, and every record goes to the response topic under
/// the reply key.
pub proof fn lemma_publish_enters_publishing(state: StateView, event: EventView)
    ensures
        step_spec(state, event).0.phase is Publishing <==> step_spec(state, event).1 is Publish,
        step_spec(state, event).1 is Publish ==> {
            &&& state.phase is Resolving
            &&& event is Looked
            &&& step_spec(state, event).0.phase->Publishing_at == state.phase->Resolving_at
            &&& step_spec(state, event).1->Publish_0.topic == response_topic()
            &&& transform_spec(state.phase->inner, resolve_spec(event->Looked_0)->Ok_0) matches Ok(
                reply,
            )
            &&& step_spec(state, event).1->Publish_0 == produce_spec(
                reply_key(),
                json_text(reply),
                response_topic(),
            )
        },
{
}

/// The database is asked exactly when the worker starts to wait for its
/// answer, and only a freshly polled message makes it ask.
pub proof fn lemma_lookup_enters_resolving(state: StateView, event: EventView)
    ensures
        step_spec(state, event).0.phase is Resolving <==> step_spec(state, event).1 is Lookup,
        step_spec(state, event).1 is Lookup ==> {
            &&& event is Message
            &&& step_spec(state, event).0.phase->Resolving_at == event->Message_at
        },
{
}

/// In every run of the worker, a request that waits for the database's answer
/// holds a readable user identifier, so a name, once resolved, always leads to
/// a publish.
pub proof fn lemma_pending_request_is_readable(events: Seq<EventView>)
    ensures
        state_after(events).phase matches PhaseView::Resolving { inner, .. } ==> {
            &&& created_by_spec(inner) is Ok
            &&& forall|name: Seq<char>| #[trigger] transform_spec(inner, name) is Ok
        },
{
}

/// An action moves the progress only by committing a message, and then only
/// in that message's partition.
pub proof fn lemma_progress_follows_commits(state: StateView, event: EventView)
    ensures
        ({
            let (next, action) = step_spec(state, event);
            match action {
                ActionView::Commit { at, .. } => {
                    &&& next.progress.contains_key(at.partition)
                    &&& next.progress[at.partition] == at.offset
                    &&& forall|other: i32|
                        other != at.partition ==> (next.progress.contains_key(other)
                            <==> state.progress.contains_key(other))
                    &&& forall|other: i32|
                        other != at.partition && state.progress.contains_key(other)
                            ==> next.progress[other] == state.progress[other]
                },
                _ => next.progress == state.progress,
            }
        }),
{
}

/// In every run of the worker, a message that is committed as processed was
/// polled two events earlier, led to one lookup and then to one publish to
/// the response topic, and is committed on that record's acknowledgement.
pub proof fn lemma_commit_follows_one_publish(events: Seq<EventView>, at: int)
    requires
        0 <= at < events.len(),
        action_at(events, at) matches ActionView::Commit { disposal: Disposal::Processed, .. },
    ensures
        at >= 2,
        events[at - 2] is Message,
        action_at(events, at - 2) is Lookup,
        events[at - 1] is Looked,
        action_at(events, at - 1) is Publish,
        action_at(events, at - 1)->Publish_0.topic == response_topic(),
        events[at] == (EventView::Sent { acknowledged: true }),
        action_at(events, at)->Commit_at == events[at - 2]->Message_at,
{
    assert(state_after(events.take(at)).phase is Publishing);
    if at == 0 {
        assert(events.take(0).len() == 0);
    } else {
        lemma_state_after_take(events, at);
        lemma_publish_enters_publishing(state_after(events.take(at - 1)), events[at - 1]);
        if at == 1 {
            assert(events.take(0).len() == 0);
        } else {
            lemma_state_after_take(events, at - 1);
            lemma_lookup_enters_resolving(state_after(events.take(at - 2)), events[at - 2]);
        }
    }
}

/// Handles a freshly polled message.
pub fn receive(topic: String, at: Position, value: Vec<u8>) -> (next: (Phase, Action))
    ensures
        (next.0@, next.1@) == on_message(topic@, at, value@),
{
    let envelope = match decode(value.as_slice()) {
        Ok(envelope) => envelope,
        Err(error) => {
            let disposal = Disposal::Skipped(Skip::Undecodable(error));
            return (Phase::Idle, Action::Commit { at, disposal });
        },
    };
    let request: String = "post_get_user".to_owned();
    if !(envelope.key == request && topic == request) {
        let disposal = Disposal::Skipped(Skip::NotAddressed);
        return (Phase::Idle, Action::Commit { at, disposal });
    }
    let inner = match envelope.inner() {
        Some(inner) => inner,
        None => {
            let disposal = Disposal::Skipped(Skip::MalformedPayload);
            return (Phase::Idle, Action::Commit { at, disposal });
        },
    };
    match created_by(&inner) {
        Ok(user_id) => (Phase::Resolving { at, inner }, Action::Lookup { user_id }),
        Err(error) => (
            Phase::Idle,
            Action::Commit { at, disposal: Disposal::Skipped(Skip::BadPath(error)) },
        ),
    }
}

/// Handles the database's answer for the request at `at` whose inner document
/// is `inner`.
pub fn looked(at: Position, inner: Json, outcome: QueryOutcome) -> (next: (Phase, Action))
    ensures
        (next.0@, next.1@) == on_looked(at, inner@, outcome@),
{
    let name = match resolve(outcome) {
        Ok(name) => name,
        Err(ResolveError::Unavailable) => {
            let retry = Retry::DatabaseUnavailable;
            return (Phase::Idle, Action::Redeliver { back_to: Some(at), retry });
        },
        Err(error) => {
            let disposal = Disposal::Skipped(Skip::Unresolved(error));
            return (Phase::Idle, Action::Commit { at, disposal });
        },
    };
    match transform(inner, name) {
        Ok(reply) => (
            Phase::Publishing { at },
            Action::Publish(produce("register_landlords", reply.to_text(), "response_user")),
        ),
        Err(error) => (
            Phase::Idle,
            Action::Commit { at, disposal: Disposal::Skipped(Skip::BadPath(error)) },
        ),
    }
}

impl Phase {
    /// The position of the message in hand.
    pub fn in_hand(&self) -> (at: Option<Position>)
        ensures
            at == in_hand(self@),
    {
        match self {
            Phase::Idle => None,
            Phase::Resolving { at, .. } => Some(*at),
            Phase::Publishing { at } => Some(*at),
        }
    }
}

impl State {
    /// The state in which the worker starts: no message in hand, nothing committed.
    pub fn new() -> (state: State)
        ensures
            state@ == initial_state(),
    {
        State { phase: Phase::Idle, progress: HashMap::new() }
    }

    /// The offset of the last message committed in `partition`.
    pub fn last_committed(&self, partition: i32) -> (offset: Option<i64>)
        ensures
            match offset {
                Some(o) => self@.progress.contains_key(partition) && self@.progress[partition] == o,
                None => !self@.progress.contains_key(partition),
            },
    {
        match self.progress.get(&partition) {
            Some(offset) => Some(*offset),
            None => None,
        }
    }
}

/// One turn of the consumer loop: takes the report of what happened and says
/// what to do next.
pub fn k_consumer(state: State, event: Event) -> (next: (State, Action))
    ensures
        (next.0@, next.1@) == step_spec(state@, event@),
{
    let State { phase, progress } = state;
    let mut progress = progress;
    let (phase, action) = match event {
        Event::Message { topic, at, value } => receive(topic, at, value),
        Event::PollFailed => (Phase::Idle, Action::CommitState),
        Event::Looked(outcome) => match phase {
            Phase::Resolving { at, inner } => looked(at, inner, outcome),
            other => (
                Phase::Idle,
                Action::Redeliver { back_to: other.in_hand(), retry: Retry::OutOfTurn },
            ),
        },
        Event::Sent { acknowledged } => match phase {
            Phase::Publishing { at } => if acknowledged {
                (Phase::Idle, Action::Commit { at, disposal: Disposal::Processed })
            } else {
                (Phase::Idle, Action::Redeliver { back_to: Some(at), retry: Retry::PublishFailed })
            },
            other => (
                Phase::Idle,
                Action::Redeliver { back_to: other.in_hand(), retry: Retry::OutOfTurn },
            ),
        },
    };
    match &action {
        Action::Commit { at, .. } => {
            progress.insert(at.partition, at.offset);
        },
        _ => {},
    }
    (State { phase, progress }, action)
}

/// What is due before the broker rebalances: records still in flight are
/// flushed and the consumer's state is committed before partitions go.
pub fn pre_rebalance(change: Rebalance) -> (upkeep: Upkeep)
    ensures
        upkeep == (match change {
            Rebalance::Revoked => Upkeep::FlushAndCommitState,
            Rebalance::Assigned => Upkeep::Resume,
        }),
{
    match change {
        Rebalance::Revoked => Upkeep::FlushAndCommitState,
        Rebalance::Assigned => Upkeep::Resume,
    }
}

impl Action {
    /// Whether the action reports trouble that is worth a warning in the log:
    /// every redelivery, every commit after a failed poll, and every message
    /// dropped for what it holds.
    pub open spec fn warns_spec(action: ActionView) -> bool {
        match action {
            ActionView::Lookup { .. } => false,
            ActionView::Publish(_) => false,
            ActionView::Commit { disposal: Disposal::Processed, .. } => false,
            ActionView::Commit { disposal: Disposal::Skipped(Skip::NotAddressed), .. } => false,
            ActionView::Commit { .. } => true,
            ActionView::CommitState => true,
            ActionView::Redeliver { .. } => true,
        }
    }

    /// Whether the loop should log a warning before it carries the action out.
    pub fn warns(&self) -> (warn: bool)
        ensures
            warn == Action::warns_spec(self@),
    {
        match self {
            Action::Lookup { .. } => false,
            Action::Publish(_) => false,
            Action::Commit { disposal: Disposal::Processed, .. } => false,
            Action::Commit { disposal: Disposal::Skipped(Skip::NotAddressed), .. } => false,
            Action::Commit { .. } => true,
            Action::CommitState => true,
            Action::Redeliver { .. } => true,
        }
    }

    /// Whether the action commits the offset of a message.
    pub fn commits(&self) -> (commit: bool)
        ensures
            commit == (self@ is Commit),
    {
        match self {
            Action::Commit { .. } => true,
            _ => false,
        }
    }
}

} // verus!
