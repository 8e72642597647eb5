//! The wait for a transaction's confirmation, as a machine: one query at a time, a pause of
//! fixed length between two queries, and no limit on their number.

use crate::felt::Felt;
use vstd::prelude::*;

verus! {

/// What the network says of a transaction.
#[derive(Debug, PartialEq, Eq)]
pub enum TransactionStatus {
    /// The transaction is not confirmed yet.
    Pending,
    /// The transaction was accepted.
    Accepted,
    /// The transaction was rejected, for this reason.
    Rejected { reason: String },
}

/// What the poll awaits.
#[derive(Debug, Clone, Copy, PartialEq, Eq, Structural)]
pub enum WatchState {
    /// The answer to a status query.
    Polling,
    /// The end of a pause.
    Waiting,
    /// Nothing: the poll has ended.
    Done,
}

/// What happened outside.
#[derive(Debug, PartialEq, Eq)]
pub enum WatchEvent {
    /// The status query was answered.
    Status(TransactionStatus),
    /// The pause is over.
    Waited,
    /// The status query failed.
    QueryFailed,
    /// The caller gave the wait up.
    Cancelled,
}

/// Why a poll ended without a confirmation.
#[derive(Debug, PartialEq, Eq)]
pub enum WatchError {
    /// The transaction was rejected, for this reason.
    Rejected { reason: String },
    /// A status query failed.
    Network,
    /// The caller gave the wait up.
    Cancelled,
    /// The event is none that the state awaits.
    UnexpectedEvent,
}

/// What is to be done outside.
#[derive(Debug, PartialEq, Eq)]
pub enum WatchAction {
    /// Ask the network for the transaction's status.
    Query { transaction_hash: Felt },
    /// Pause for this many milliseconds.
    Wait { millis: u64 },
    /// Stop: the transaction is confirmed.
    Confirmed,
    /// Stop with this error.
    Fail(WatchError),
}

/// A poll for one transaction's confirmation.
#[derive(Debug, Clone, Copy)]
pub struct Watch {
    /// The transaction.
    pub transaction_hash: Felt,
    /// The time between two queries, in milliseconds.
    pub poll_interval: u64,
}

impl Watch {
    /// The first state and the first action: a query, at once.
    pub open spec fn spec_begin(self) -> (WatchState, WatchAction) {
        (WatchState::Polling, WatchAction::Query { transaction_hash: self.transaction_hash })
    }

    /// The next state and the action for an event.
    pub open spec fn spec_step(self, state: WatchState, event: WatchEvent) -> (
        WatchState,
        WatchAction,
    ) {
        let unexpected = (WatchState::Done, WatchAction::Fail(WatchError::UnexpectedEvent));
        match event {
            WatchEvent::Cancelled => if state is Done {
                unexpected
            } else {
                (WatchState::Done, WatchAction::Fail(WatchError::Cancelled))
            },
            WatchEvent::Status(status) => if state is Polling {
                match status {
                    TransactionStatus::Pending => (
                        WatchState::Waiting,
                        WatchAction::Wait { millis: self.poll_interval },
                    ),
                    TransactionStatus::Accepted => (WatchState::Done, WatchAction::Confirmed),
                    TransactionStatus::Rejected { reason } => (
                        WatchState::Done,
                        WatchAction::Fail(WatchError::Rejected { reason }),
                    ),
                }
            } else {
                unexpected
            },
            WatchEvent::QueryFailed => if state is Polling {
                (WatchState::Done, WatchAction::Fail(WatchError::Network))
            } else {
                unexpected
            },
            WatchEvent::Waited => if state is Waiting {
                (
                    WatchState::Polling,
                    WatchAction::Query { transaction_hash: self.transaction_hash },
                )
            } else {
                unexpected
            },
        }
    }

    /// The actions that a sequence of events draws from a state, in order. Events that come
    /// after the poll has ended draw none.
    pub open spec fn spec_run_from(self, state: WatchState, events: Seq<WatchEvent>) -> Seq<
        WatchAction,
    >
        decreases events.len(),
    {
        if events.len() == 0 || state is Done {
            Seq::empty()
        } else {
            let (next, action) = self.spec_step(state, events[0]);
            seq![action] + self.spec_run_from(next, events.drop_first())
        }
    }

    /// The actions of a whole poll: the first query, then those that the events draw.
    pub open spec fn spec_run(self, events: Seq<WatchEvent>) -> Seq<WatchAction> {
        let (state, action) = self.spec_begin();
        seq![action] + self.spec_run_from(state, events)
    }

    /// A poll for the transaction at the given interval.
    pub fn new(transaction_hash: Felt, poll_interval: u64) -> (watch: Watch)
        ensures
            watch.transaction_hash == transaction_hash,
            watch.poll_interval == poll_interval,
    {
        Watch { transaction_hash, poll_interval }
    }

    /// The first state and the first action.
    pub fn begin(&self) -> (r: (WatchState, WatchAction))
        ensures
            r == self.spec_begin(),
    {
        (WatchState::Polling, WatchAction::Query { transaction_hash: self.transaction_hash })
    }

    /// The next state and the action for an event. A pending transaction is asked for again
    /// after the pause, however often that has happened before.
    pub fn step(&self, state: WatchState, event: &WatchEvent) -> (r: (WatchState, WatchAction))
        ensures
            r == self.spec_step(state, *event),
    {
        let unexpected: (WatchState, WatchAction) = (
            WatchState::Done,
            WatchAction::Fail(WatchError::UnexpectedEvent),
        );
        match event {
            WatchEvent::Cancelled => match state {
                WatchState::Done => unexpected,
                _ => (WatchState::Done, WatchAction::Fail(WatchError::Cancelled)),
            },
            WatchEvent::Status(status) => match state {
                WatchState::Polling => match status {
                    TransactionStatus::Pending => (
                        WatchState::Waiting,
                        WatchAction::Wait { millis: self.poll_interval },
                    ),
                    TransactionStatus::Accepted => (WatchState::Done, WatchAction::Confirmed),
                    TransactionStatus::Rejected { reason } => (
                        WatchState::Done,
                        WatchAction::Fail(WatchError::Rejected { reason: reason.clone() }),
                    ),
                },
                _ => unexpected,
            },
            WatchEvent::QueryFailed => match state {
                WatchState::Polling => (WatchState::Done, WatchAction::Fail(WatchError::Network)),
                _ => unexpected,
            },
            WatchEvent::Waited => match state {
                WatchState::Waiting => (
                    WatchState::Polling,
                    WatchAction::Query { transaction_hash: self.transaction_hash },
                ),
                _ => unexpected,
            },
        }
    }

    /// Plays a poll against a record of what happened outside: the actions that the events
    /// draw, in order, up to the one that ends the poll.
    pub fn run(&self, events: &Vec<WatchEvent>) -> (actions: Vec<WatchAction>)
        ensures
            actions@ == self.spec_run(events@),
    {
        let (first_state, first_action): (WatchState, WatchAction) = self.begin();
        let mut state: WatchState = first_state;
        let mut actions: Vec<WatchAction> = Vec::new();
        actions.push(first_action);
        let mut i: usize = 0;
        proof {
            assert(events@.skip(0) =~= events@);
            assert(actions@ =~= seq![first_action]);
        }
        while i < events.len() && state != WatchState::Done
            invariant
                i <= events.len(),
                actions@ + self.spec_run_from(state, events@.skip(i as int)) == self.spec_run(
                    events@,
                ),
            decreases events.len() - i,
        {
            let (next, action): (WatchState, WatchAction) = self.step(state, &events[i]);
            proof {
                let rest = events@.skip(i as int);
                assert(rest.drop_first() =~= events@.skip(i + 1));
                assert(actions@.push(action) + self.spec_run_from(next, rest.drop_first())
                    =~= actions@ + self.spec_run_from(state, rest));
            }
            actions.push(action);
            state = next;
            i = i + 1;
        }
        proof {
            assert(self.spec_run_from(state, events@.skip(i as int)) =~= Seq::empty());
            assert(actions@ + Seq::<WatchAction>::empty() =~= actions@);
        }
        actions
    }
}

/// The events of `rounds` rounds in each of which the transaction is found pending and the
/// pause runs out.
pub open spec fn pending_rounds(rounds: nat) -> Seq<WatchEvent>
    decreases rounds,
{
    if rounds == 0 {
        Seq::empty()
    } else {
        seq![WatchEvent::Status(TransactionStatus::Pending), WatchEvent::Waited] + pending_rounds(
            (rounds - 1) as nat,
        )
    }
}

/// The actions of `rounds` rounds in each of which the poll pauses and asks again.
pub open spec fn pause_rounds(watch: Watch, rounds: nat) -> Seq<WatchAction>
    decreases rounds,
{
    if rounds == 0 {
        Seq::empty()
    } else {
        seq![
            WatchAction::Wait { millis: watch.poll_interval },
            WatchAction::Query { transaction_hash: watch.transaction_hash },
        ] + pause_rounds(watch, (rounds - 1) as nat)
    }
}

/// The poll has no limit of its own: however long the transaction stays pending, each answer
/// draws a pause of the configured length and then the next query, and what follows is
/// handled as in the first round.
pub proof fn lemma_pending_keeps_polling(watch: Watch, rounds: nat, later: Seq<WatchEvent>)
    ensures
        watch.spec_run_from(WatchState::Polling, pending_rounds(rounds) + later) == pause_rounds(
            watch,
            rounds,
        ) + watch.spec_run_from(WatchState::Polling, later),
    decreases rounds,
{
    if rounds == 0 {
        assert(pending_rounds(rounds) + later =~= later);
        assert(pause_rounds(watch, rounds) + watch.spec_run_from(WatchState::Polling, later)
            =~= watch.spec_run_from(WatchState::Polling, later));
    } else {
        let before = (rounds - 1) as nat;
        let events = pending_rounds(rounds) + later;
        let tail = pending_rounds(before) + later;
        lemma_pending_keeps_polling(watch, before, later);
        assert(events[0] == WatchEvent::Status(TransactionStatus::Pending));
        assert(events.drop_first()[0] == WatchEvent::Waited);
        assert(events.drop_first().drop_first() =~= tail);
        assert(watch.spec_run_from(WatchState::Waiting, events.drop_first()) =~= seq![
            WatchAction::Query { transaction_hash: watch.transaction_hash },
        ] + watch.spec_run_from(WatchState::Polling, tail));
        assert(watch.spec_run_from(WatchState::Polling, events) =~= seq![
            WatchAction::Wait { millis: watch.poll_interval },
        ] + watch.spec_run_from(WatchState::Waiting, events.drop_first()));
        assert(watch.spec_run_from(WatchState::Polling, events) =~= pause_rounds(watch, rounds)
            + watch.spec_run_from(WatchState::Polling, later));
    }
}

/// A transaction that is pending `rounds` times and then accepted is asked for `rounds + 1`
/// times, with a pause of the configured length before each query but the first, and the poll
/// ends with the confirmation.
pub proof fn lemma_accepted_after_pending(watch: Watch, rounds: nat)
    ensures
        watch.spec_run(
            pending_rounds(rounds) + seq![WatchEvent::Status(TransactionStatus::Accepted)],
        ) == seq![WatchAction::Query { transaction_hash: watch.transaction_hash }] + pause_rounds(
            watch,
            rounds,
        ) + seq![WatchAction::Confirmed],
{
    let last = seq![WatchEvent::Status(TransactionStatus::Accepted)];
    lemma_pending_keeps_polling(watch, rounds, last);
    assert(last.drop_first() =~= Seq::empty());
    assert(watch.spec_run_from(WatchState::Done, last.drop_first()) =~= Seq::empty());
    assert(watch.spec_run_from(WatchState::Polling, last) =~= seq![WatchAction::Confirmed]);
}

/// Whether `state` is the state that follows `previous`: a query is awaited after a query was
/// asked for, and the end of a pause after a pause was asked for.
pub open spec fn follows(state: WatchState, previous: WatchAction) -> bool {
    match state {
        WatchState::Polling => previous is Query,
        WatchState::Waiting => previous is Wait,
        WatchState::Done => true,
    }
}

/// Whether `action` may come after `before`: a pause is of the configured length and comes
/// after a query; a query comes after a pause.
pub open spec fn in_turn(watch: Watch, before: WatchAction, action: WatchAction) -> bool {
    &&& action is Wait ==> action == (WatchAction::Wait { millis: watch.poll_interval })
        && before is Query
    &&& action is Query ==> action == (WatchAction::Query {
        transaction_hash: watch.transaction_hash,
    }) && before is Wait
}

/// Whatever happens outside, queries and pauses take turns from any state on: each action is
/// in turn after the one before it.
pub proof fn lemma_in_turn_from(
    watch: Watch,
    state: WatchState,
    events: Seq<WatchEvent>,
    previous: WatchAction,
)
    requires
        follows(state, previous),
    ensures
        forall|i: int|
            0 <= i < watch.spec_run_from(state, events).len() ==> in_turn(
                watch,
                if i == 0 {
                    previous
                } else {
                    watch.spec_run_from(state, events)[i - 1]
                },
                #[trigger] watch.spec_run_from(state, events)[i],
            ),
    decreases events.len(),
{
    let run = watch.spec_run_from(state, events);
    if events.len() == 0 || state is Done {
    } else {
        let (next, action) = watch.spec_step(state, events[0]);
        let rest = watch.spec_run_from(next, events.drop_first());
        assert(follows(next, action));
        lemma_in_turn_from(watch, next, events.drop_first(), action);
        assert(run =~= seq![action] + rest);
        assert forall|i: int| 0 <= i < run.len() implies in_turn(
            watch,
            if i == 0 {
                previous
            } else {
                run[i - 1]
            },
            #[trigger] run[i],
        ) by {
            if i == 0 {
                assert(run[0] == action);
            } else {
                assert(run[i] == rest[i - 1]);
                if i > 1 {
                    assert(run[i - 1] == rest[i - 2]);
                }
            }
        }
    }
}

/// In a whole poll, whatever happens outside, there is one query at a time, and between two
/// queries lies exactly one pause of the configured length: after the first query, each
/// action is in turn after the one before it.
pub proof fn lemma_queries_and_pauses_take_turns(watch: Watch, events: Seq<WatchEvent>, i: int)
    requires
        0 < i < watch.spec_run(events).len(),
    ensures
        watch.spec_run(events)[0] == (WatchAction::Query {
            transaction_hash: watch.transaction_hash,
        }),
        in_turn(watch, watch.spec_run(events)[i - 1], watch.spec_run(events)[i]),
{
    let (first_state, first_action) = watch.spec_begin();
    let rest = watch.spec_run_from(first_state, events);
    lemma_in_turn_from(watch, first_state, events, first_action);
    assert(watch.spec_run(events)[i] == rest[i - 1]);
    if i > 1 {
        assert(watch.spec_run(events)[i - 1] == rest[i - 2]);
    }
}

} // verus!
