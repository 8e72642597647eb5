//! The declaration of a class, as a machine that is told what happened outside and answers
//! with what is to be done next.

use crate::artifact::{ArtifactError, ClassKind};
use crate::casm::HashError;
use crate::fee::{
    buffered_fee,
    checked_fee_buffer,
    fee_fits,
    lemma_fee_is_its_number,
    spec_apply_fee_buffer,
    FeeSetting,
};
use crate::felt::Felt;
use vstd::prelude::*;

verus! {

/// What a declaration was asked to do.
#[derive(Debug, Clone, Copy)]
pub struct Declare {
    /// How the fee is settled.
    pub fee: FeeSetting,
    /// Whether the transaction is only simulated.
    pub simulate: bool,
    /// The nonce of the transaction, where the caller gave one.
    pub nonce: Option<Felt>,
    /// Whether to wait until the transaction is confirmed.
    pub watch: bool,
    /// The time between two polls for the transaction's status, in milliseconds.
    pub poll_interval: u64,
    /// Whether the provider speaks JSON-RPC.
    pub rpc: bool,
}

/// How far a declaration has come.
#[derive(Debug, Clone, Copy, PartialEq, Eq)]
pub enum DeclareState {
    /// Nothing is known yet; the artifact is awaited.
    Start,
    /// The kind and the hash of the class are known; the answer to the query for the class is
    /// awaited.
    KindDetected { kind: ClassKind, class_hash: Felt },
    /// The class is not declared yet; the hash of its compiled form is awaited.
    IdempotencyChecked { class_hash: Felt },
    /// What is to be declared is known; the fee estimate is awaited. A legacy class has no
    /// compiled-class hash.
    HashResolved { class_hash: Felt, casm_hash: Option<Felt> },
    /// The fee is settled; the result of the simulation or of the submission is awaited.
    FeeResolved { class_hash: Felt, max_fee: Felt },
    /// The transaction was sent; its confirmation is awaited.
    Submitted { class_hash: Felt, transaction_hash: Felt },
    /// The declaration has ended; nothing more is done.
    Closed,
}

/// The network's answer to the query for a class.
#[derive(Debug, Clone, Copy, PartialEq, Eq, Structural)]
pub enum ClassQuery {
    /// The network has the class.
    Found,
    /// The network answered that it has no class of this hash.
    NotFound,
    /// The query failed in any other way.
    Failed,
}

/// What happened outside.
#[derive(Debug, Clone, Copy, PartialEq, Eq)]
pub enum DeclareEvent {
    /// The artifact was read: its kind and its class hash.
    ArtifactLoaded { kind: ClassKind, class_hash: Felt },
    /// The artifact was refused.
    ArtifactRejected(ArtifactError),
    /// The query for the class was answered.
    ClassQueried(ClassQuery),
    /// The compiled-class hash was resolved.
    CasmHashResolved(Felt),
    /// The compiled-class hash could not be resolved.
    CasmHashFailed(HashError),
    /// The account estimated the fee.
    FeeEstimated(Felt),
    /// The simulation ran.
    Simulated,
    /// The transaction was sent.
    Sent { transaction_hash: Felt },
    /// The transaction was accepted.
    Confirmed,
    /// The transaction was rejected.
    Rejected,
    /// The call to the network failed.
    NetworkFailed,
}

/// How a declaration ends well.
#[derive(Debug, Clone, Copy, PartialEq, Eq)]
pub enum DeclareOutcome {
    /// The class was declared before; nothing was sent.
    AlreadyDeclared { class_hash: Felt },
    /// The fee was estimated; nothing was sent.
    Estimated { fee: Felt },
    /// The transaction was simulated; nothing was sent.
    Simulated,
    /// The transaction was sent and, where that was asked for, confirmed.
    Declared { class_hash: Felt, transaction_hash: Felt },
}

/// How a declaration fails.
#[derive(Debug, Clone, Copy, PartialEq, Eq)]
pub enum DeclareError {
    /// Simulation was asked for together with an estimate only.
    Validation,
    /// The artifact is none that can be declared.
    Artifact(ArtifactError),
    /// The compiled-class hash could not be resolved.
    HashResolution(HashError),
    /// The estimate is so large that the fee with its margin is no field element.
    FeeOutOfRange,
    /// A call to the network failed before anything was sent.
    Network,
    /// The transaction was sent and then rejected.
    TransactionRejected { transaction_hash: Felt },
    /// The transaction was sent, and the wait for its confirmation failed.
    ConfirmationFailed { transaction_hash: Felt },
    /// The event is none that the state awaits.
    UnexpectedEvent,
}

/// What is to be done outside.
#[derive(Debug, Clone, Copy, PartialEq, Eq)]
pub enum DeclareAction {
    /// Read the artifact, find its kind and compute its class hash.
    LoadArtifact,
    /// Ask the network for the class of this hash.
    QueryClass { class_hash: Felt },
    /// Resolve the compiled-class hash of the class.
    ResolveCasmHash,
    /// Let the account estimate the fee of the declaration.
    EstimateFee { casm_hash: Option<Felt> },
    /// Simulate the declaration with this fee and, where one is given, this nonce.
    Simulate { casm_hash: Option<Felt>, max_fee: Felt, nonce: Option<Felt> },
    /// Send the declaration with this fee and, where one is given, this nonce.
    Send { casm_hash: Option<Felt>, max_fee: Felt, nonce: Option<Felt> },
    /// Poll for the transaction's status at this interval until it is confirmed.
    Watch { transaction_hash: Felt, poll_interval: u64 },
    /// Report the outcome and stop.
    Report(DeclareOutcome),
    /// Report the error and stop.
    Fail(DeclareError),
}

/// Whether a class is declared already, from the network's answer to the query for it. Only
/// the answer that there is no such class says that it is not; a query that failed in any
/// other way is an error.
pub open spec fn spec_check_already_declared(reply: ClassQuery) -> Result<bool, DeclareError> {
    match reply {
        ClassQuery::Found => Ok(true),
        ClassQuery::NotFound => Ok(false),
        ClassQuery::Failed => Err(DeclareError::Network),
    }
}

impl Declare {
    /// Whether the options can stand together: a simulation needs a fee to simulate with, so
    /// it cannot be asked for together with an estimate only.
    pub open spec fn spec_is_valid(self) -> bool {
        !(self.simulate && self.fee.spec_is_estimate_only())
    }

    /// The first state and the first action.
    pub open spec fn spec_begin(self) -> (DeclareState, DeclareAction) {
        if self.spec_is_valid() {
            (DeclareState::Start, DeclareAction::LoadArtifact)
        } else {
            (DeclareState::Closed, DeclareAction::Fail(DeclareError::Validation))
        }
    }

    /// With the fee settled, the declaration is simulated or sent.
    pub open spec fn spec_submit(self, class_hash: Felt, casm_hash: Option<Felt>, max_fee: Felt) -> (
        DeclareState,
        DeclareAction,
    ) {
        if self.simulate {
            (
                DeclareState::FeeResolved { class_hash, max_fee },
                DeclareAction::Simulate { casm_hash, max_fee, nonce: self.nonce },
            )
        } else {
            (
                DeclareState::FeeResolved { class_hash, max_fee },
                DeclareAction::Send { casm_hash, max_fee, nonce: self.nonce },
            )
        }
    }

    /// With what is to be declared known, a given fee is used as it is; any other setting asks
    /// for an estimate.
    pub open spec fn spec_settle_fee(self, class_hash: Felt, casm_hash: Option<Felt>) -> (
        DeclareState,
        DeclareAction,
    ) {
        match self.fee {
            FeeSetting::Manual(fee) => self.spec_submit(class_hash, casm_hash, fee),
            _ => (
                DeclareState::HashResolved { class_hash, casm_hash },
                DeclareAction::EstimateFee { casm_hash },
            ),
        }
    }

    /// The next state and the action for an event.
    pub open spec fn spec_step(self, state: DeclareState, event: DeclareEvent) -> (
        DeclareState,
        DeclareAction,
    ) {
        let unexpected = (
            DeclareState::Closed,
            DeclareAction::Fail(DeclareError::UnexpectedEvent),
        );
        match state {
            DeclareState::Start => match event {
                DeclareEvent::ArtifactLoaded { kind, class_hash } => (
                    DeclareState::KindDetected { kind, class_hash },
                    DeclareAction::QueryClass { class_hash },
                ),
                DeclareEvent::ArtifactRejected(e) => (
                    DeclareState::Closed,
                    DeclareAction::Fail(DeclareError::Artifact(e)),
                ),
                _ => unexpected,
            },
            DeclareState::KindDetected { kind, class_hash } => match event {
                DeclareEvent::ClassQueried(reply) => match spec_check_already_declared(reply) {
                    Ok(true) => (
                        DeclareState::Closed,
                        DeclareAction::Report(DeclareOutcome::AlreadyDeclared { class_hash }),
                    ),
                    Ok(false) => match kind {
                        ClassKind::Sierra => (
                            DeclareState::IdempotencyChecked { class_hash },
                            DeclareAction::ResolveCasmHash,
                        ),
                        ClassKind::Legacy => self.spec_settle_fee(class_hash, None),
                    },
                    Err(e) => (DeclareState::Closed, DeclareAction::Fail(e)),
                },
                DeclareEvent::NetworkFailed => (
                    DeclareState::Closed,
                    DeclareAction::Fail(DeclareError::Network),
                ),
                _ => unexpected,
            },
            DeclareState::IdempotencyChecked { class_hash } => match event {
                DeclareEvent::CasmHashResolved(casm_hash) => self.spec_settle_fee(
                    class_hash,
                    Some(casm_hash),
                ),
                DeclareEvent::CasmHashFailed(e) => (
                    DeclareState::Closed,
                    DeclareAction::Fail(DeclareError::HashResolution(e)),
                ),
                _ => unexpected,
            },
            DeclareState::HashResolved { class_hash, casm_hash } => match event {
                DeclareEvent::FeeEstimated(estimate) => match self.fee {
                    FeeSetting::EstimateOnly => (
                        DeclareState::Closed,
                        DeclareAction::Report(DeclareOutcome::Estimated { fee: estimate }),
                    ),
                    FeeSetting::Automatic => if fee_fits(estimate@, self.rpc) {
                        self.spec_submit(
                            class_hash,
                            casm_hash,
                            spec_apply_fee_buffer(estimate, self.rpc),
                        )
                    } else {
                        (DeclareState::Closed, DeclareAction::Fail(DeclareError::FeeOutOfRange))
                    },
                    FeeSetting::Manual(_) => unexpected,
                },
                DeclareEvent::NetworkFailed => (
                    DeclareState::Closed,
                    DeclareAction::Fail(DeclareError::Network),
                ),
                _ => unexpected,
            },
            DeclareState::FeeResolved { class_hash, max_fee } => match event {
                DeclareEvent::Simulated => if self.simulate {
                    (DeclareState::Closed, DeclareAction::Report(DeclareOutcome::Simulated))
                } else {
                    unexpected
                },
                DeclareEvent::Sent { transaction_hash } => if self.simulate {
                    unexpected
                } else if self.watch {
                    (
                        DeclareState::Submitted { class_hash, transaction_hash },
                        DeclareAction::Watch {
                            transaction_hash,
                            poll_interval: self.poll_interval,
                        },
                    )
                } else {
                    (
                        DeclareState::Closed,
                        DeclareAction::Report(
                            DeclareOutcome::Declared { class_hash, transaction_hash },
                        ),
                    )
                },
                DeclareEvent::NetworkFailed => (
                    DeclareState::Closed,
                    DeclareAction::Fail(DeclareError::Network),
                ),
                _ => unexpected,
            },
            DeclareState::Submitted { class_hash, transaction_hash } => match event {
                DeclareEvent::Confirmed => (
                    DeclareState::Closed,
                    DeclareAction::Report(
                        DeclareOutcome::Declared { class_hash, transaction_hash },
                    ),
                ),
                DeclareEvent::Rejected => (
                    DeclareState::Closed,
                    DeclareAction::Fail(DeclareError::TransactionRejected { transaction_hash }),
                ),
                DeclareEvent::NetworkFailed => (
                    DeclareState::Closed,
                    DeclareAction::Fail(DeclareError::ConfirmationFailed { transaction_hash }),
                ),
                _ => unexpected,
            },
            DeclareState::Closed => unexpected,
        }
    }

    /// The actions that a sequence of events draws from a state, in order. Events that come
    /// after the declaration has ended draw none.
    pub open spec fn spec_run_from(self, state: DeclareState, events: Seq<DeclareEvent>) -> Seq<
        DeclareAction,
    >
        decreases events.len(),
    {
        if events.len() == 0 || state is Closed {
            Seq::empty()
        } else {
            let (next, action) = self.spec_step(state, events[0]);
            seq![action] + self.spec_run_from(next, events.drop_first())
        }
    }

    /// The actions of a whole declaration: the first action, then those that the events draw.
    pub open spec fn spec_run(self, events: Seq<DeclareEvent>) -> Seq<DeclareAction> {
        let (state, action) = self.spec_begin();
        seq![action] + self.spec_run_from(state, events)
    }

    /// Whether a class is declared already, from the network's answer to the query for it.
    pub fn check_already_declared(reply: ClassQuery) -> (r: Result<bool, DeclareError>)
        ensures
            r == spec_check_already_declared(reply),
    {
        match reply {
            ClassQuery::Found => Ok(true),
            ClassQuery::NotFound => Ok(false),
            ClassQuery::Failed => Err(DeclareError::Network),
        }
    }

    /// Whether the options can stand together.
    pub fn is_valid(&self) -> (r: bool)
        ensures
            r == self.spec_is_valid(),
    {
        !(self.simulate && self.fee.is_estimate_only())
    }

    /// The first state and the first action: the artifact is read, unless the options cannot
    /// stand together.
    pub fn begin(&self) -> (r: (DeclareState, DeclareAction))
        ensures
            r == self.spec_begin(),
    {
        if self.is_valid() {
            (DeclareState::Start, DeclareAction::LoadArtifact)
        } else {
            (DeclareState::Closed, DeclareAction::Fail(DeclareError::Validation))
        }
    }

    fn submit(&self, class_hash: Felt, casm_hash: Option<Felt>, max_fee: Felt) -> (r: (
        DeclareState,
        DeclareAction,
    ))
        ensures
            r == self.spec_submit(class_hash, casm_hash, max_fee),
    {
        if self.simulate {
            (
                DeclareState::FeeResolved { class_hash, max_fee },
                DeclareAction::Simulate { casm_hash, max_fee, nonce: self.nonce },
            )
        } else {
            (
                DeclareState::FeeResolved { class_hash, max_fee },
                DeclareAction::Send { casm_hash, max_fee, nonce: self.nonce },
            )
        }
    }

    fn settle_fee(&self, class_hash: Felt, casm_hash: Option<Felt>) -> (r: (
        DeclareState,
        DeclareAction,
    ))
        ensures
            r == self.spec_settle_fee(class_hash, casm_hash),
    {
        match self.fee {
            FeeSetting::Manual(fee) => self.submit(class_hash, casm_hash, fee),
            _ => (
                DeclareState::HashResolved { class_hash, casm_hash },
                DeclareAction::EstimateFee { casm_hash },
            ),
        }
    }

    /// The next state and the action for an event. An event that the state does not await ends
    /// the declaration with an error.
    pub fn step(&self, state: DeclareState, event: DeclareEvent) -> (r: (
        DeclareState,
        DeclareAction,
    ))
        ensures
            r == self.spec_step(state, event),
    {
        let unexpected: (DeclareState, DeclareAction) = (
            DeclareState::Closed,
            DeclareAction::Fail(DeclareError::UnexpectedEvent),
        );
        match state {
            DeclareState::Start => match event {
                DeclareEvent::ArtifactLoaded { kind, class_hash } => (
                    DeclareState::KindDetected { kind, class_hash },
                    DeclareAction::QueryClass { class_hash },
                ),
                DeclareEvent::ArtifactRejected(e) => (
                    DeclareState::Closed,
                    DeclareAction::Fail(DeclareError::Artifact(e)),
                ),
                _ => unexpected,
            },
            DeclareState::KindDetected { kind, class_hash } => match event {
                DeclareEvent::ClassQueried(reply) => match Self::check_already_declared(reply) {
                    Ok(true) => (
                        DeclareState::Closed,
                        DeclareAction::Report(DeclareOutcome::AlreadyDeclared { class_hash }),
                    ),
                    Ok(false) => match kind {
                        ClassKind::Sierra => (
                            DeclareState::IdempotencyChecked { class_hash },
                            DeclareAction::ResolveCasmHash,
                        ),
                        ClassKind::Legacy => self.settle_fee(class_hash, None),
                    },
                    Err(e) => (DeclareState::Closed, DeclareAction::Fail(e)),
                },
                DeclareEvent::NetworkFailed => (
                    DeclareState::Closed,
                    DeclareAction::Fail(DeclareError::Network),
                ),
                _ => unexpected,
            },
            DeclareState::IdempotencyChecked { class_hash } => match event {
                DeclareEvent::CasmHashResolved(casm_hash) => self.settle_fee(
                    class_hash,
                    Some(casm_hash),
                ),
                DeclareEvent::CasmHashFailed(e) => (
                    DeclareState::Closed,
                    DeclareAction::Fail(DeclareError::HashResolution(e)),
                ),
                _ => unexpected,
            },
            DeclareState::HashResolved { class_hash, casm_hash } => match event {
                DeclareEvent::FeeEstimated(estimate) => match self.fee {
                    FeeSetting::EstimateOnly => (
                        DeclareState::Closed,
                        DeclareAction::Report(DeclareOutcome::Estimated { fee: estimate }),
                    ),
                    FeeSetting::Automatic => match checked_fee_buffer(&estimate, self.rpc) {
                        Some(max_fee) => self.submit(class_hash, casm_hash, max_fee),
                        None => (
                            DeclareState::Closed,
                            DeclareAction::Fail(DeclareError::FeeOutOfRange),
                        ),
                    },
                    FeeSetting::Manual(_) => unexpected,
                },
                DeclareEvent::NetworkFailed => (
                    DeclareState::Closed,
                    DeclareAction::Fail(DeclareError::Network),
                ),
                _ => unexpected,
            },
            DeclareState::FeeResolved { class_hash, max_fee } => match event {
                DeclareEvent::Simulated => if self.simulate {
                    (DeclareState::Closed, DeclareAction::Report(DeclareOutcome::Simulated))
                } else {
                    unexpected
                },
                DeclareEvent::Sent { transaction_hash } => if self.simulate {
                    unexpected
                } else if self.watch {
                    (
                        DeclareState::Submitted { class_hash, transaction_hash },
                        DeclareAction::Watch {
                            transaction_hash,
                            poll_interval: self.poll_interval,
                        },
                    )
                } else {
                    (
                        DeclareState::Closed,
                        DeclareAction::Report(
                            DeclareOutcome::Declared { class_hash, transaction_hash },
                        ),
                    )
                },
                DeclareEvent::NetworkFailed => (
                    DeclareState::Closed,
                    DeclareAction::Fail(DeclareError::Network),
                ),
                _ => unexpected,
            },
            DeclareState::Submitted { class_hash, transaction_hash } => match event {
                DeclareEvent::Confirmed => (
                    DeclareState::Closed,
                    DeclareAction::Report(
                        DeclareOutcome::Declared { class_hash, transaction_hash },
                    ),
                ),
                DeclareEvent::Rejected => (
                    DeclareState::Closed,
                    DeclareAction::Fail(DeclareError::TransactionRejected { transaction_hash }),
                ),
                DeclareEvent::NetworkFailed => (
                    DeclareState::Closed,
                    DeclareAction::Fail(DeclareError::ConfirmationFailed { transaction_hash }),
                ),
                _ => unexpected,
            },
            DeclareState::Closed => unexpected,
        }
    }

    /// Whether the declaration has ended.
    pub fn is_closed(state: &DeclareState) -> (r: bool)
        ensures
            r == (*state is Closed),
    {
        match state {
            DeclareState::Closed => true,
            _ => false,
        }
    }

    /// Plays a declaration against a record of what happened outside: the actions that the
    /// events draw, in order, up to the one that ends the declaration.
    pub fn run(&self, events: &Vec<DeclareEvent>) -> (actions: Vec<DeclareAction>)
        ensures
            actions@ == self.spec_run(events@),
    {
        let (first_state, first_action): (DeclareState, DeclareAction) = self.begin();
        let mut state: DeclareState = first_state;
        let mut actions: Vec<DeclareAction> = Vec::new();
        actions.push(first_action);
        let mut i: usize = 0;
        proof {
            assert(events@.skip(0) =~= events@);
            assert(actions@ =~= seq![first_action]);
        }
        while i < events.len() && !Self::is_closed(&state)
            invariant
                i <= events.len(),
                actions@ + self.spec_run_from(state, events@.skip(i as int)) == self.spec_run(
                    events@,
                ),
            decreases events.len() - i,
        {
            let (next, action): (DeclareState, DeclareAction) = self.step(state, events[i]);
            proof {
                let rest = events@.skip(i as int);
                assert(rest.drop_first() =~= events@.skip(i + 1));
                assert(actions@.push(action) + self.spec_run_from(next, rest.drop_first())
                    =~= actions@ + self.spec_run_from(state, rest));
            }
            actions.push(action);
            state = next;
            i = i + 1;
        }
        proof {
            assert(self.spec_run_from(state, events@.skip(i as int)) =~= Seq::empty());
            assert(actions@ + Seq::<DeclareAction>::empty() =~= actions@);
        }
        actions
    }
}

/// Whether the action sends a transaction.
pub open spec fn is_send(action: DeclareAction) -> bool {
    action is Send
}

/// Where the network has the class already, the declaration ends with that report and nothing
/// else: whatever events follow, no transaction is sent.
pub proof fn lemma_already_declared_sends_nothing(
    declare: Declare,
    kind: ClassKind,
    class_hash: Felt,
    later: Seq<DeclareEvent>,
)
    ensures
        declare.spec_run_from(
            DeclareState::KindDetected { kind, class_hash },
            seq![DeclareEvent::ClassQueried(ClassQuery::Found)] + later,
        ) == seq![DeclareAction::Report(DeclareOutcome::AlreadyDeclared { class_hash })],
{
    let events = seq![DeclareEvent::ClassQueried(ClassQuery::Found)] + later;
    let state = DeclareState::KindDetected { kind, class_hash };
    assert(events[0] == DeclareEvent::ClassQueried(ClassQuery::Found));
    assert(declare.spec_run_from(DeclareState::Closed, events.drop_first()) =~= Seq::empty());
    assert(declare.spec_run_from(state, events) =~= seq![
        DeclareAction::Report(DeclareOutcome::AlreadyDeclared { class_hash }),
    ]);
}

/// A declaration that only estimates or only simulates draws no send from any state, whatever
/// events come.
pub proof fn lemma_run_from_never_sends(
    declare: Declare,
    state: DeclareState,
    events: Seq<DeclareEvent>,
)
    requires
        declare.simulate || declare.fee.spec_is_estimate_only(),
    ensures
        forall|i: int|
            0 <= i < declare.spec_run_from(state, events).len() ==> !is_send(
                #[trigger] declare.spec_run_from(state, events)[i],
            ),
    decreases events.len(),
{
    if events.len() == 0 || state is Closed {
    } else {
        let (next, action) = declare.spec_step(state, events[0]);
        let rest = declare.spec_run_from(next, events.drop_first());
        lemma_run_from_never_sends(declare, next, events.drop_first());
        assert(!is_send(action));
        assert forall|i: int| 0 <= i < declare.spec_run_from(state, events).len() implies !is_send(
            #[trigger] declare.spec_run_from(state, events)[i],
        ) by {
            if i > 0 {
                assert(declare.spec_run_from(state, events)[i] == rest[i - 1]);
            }
        }
    }
}

/// A declaration that only estimates or only simulates never sends a transaction, whatever
/// happens outside.
pub proof fn lemma_estimate_and_simulate_never_send(declare: Declare, events: Seq<DeclareEvent>)
    requires
        declare.simulate || declare.fee.spec_is_estimate_only(),
    ensures
        forall|i: int|
            0 <= i < declare.spec_run(events).len() ==> !is_send(
                #[trigger] declare.spec_run(events)[i],
            ),
{
    let (first_state, first_action) = declare.spec_begin();
    let rest = declare.spec_run_from(first_state, events);
    lemma_run_from_never_sends(declare, first_state, events);
    assert forall|i: int| 0 <= i < declare.spec_run(events).len() implies !is_send(
        #[trigger] declare.spec_run(events)[i],
    ) by {
        if i > 0 {
            assert(declare.spec_run(events)[i] == rest[i - 1]);
        }
    }
}

/// A transaction is sent only after the network has answered that it has no class of that
/// hash: in a declaration from its start, a send is the action for the second event or a later
/// one, and the second event was that answer.
pub proof fn lemma_send_needs_class_not_found(declare: Declare, events: Seq<DeclareEvent>, i: int)
    requires
        0 <= i < declare.spec_run(events).len(),
        is_send(declare.spec_run(events)[i]),
    ensures
        i >= 2,
        events.len() >= 2,
        events[1] == DeclareEvent::ClassQueried(ClassQuery::NotFound),
{
    let (s0, a0) = declare.spec_begin();
    assert(!is_send(a0));
    let from0 = declare.spec_run_from(s0, events);
    assert(declare.spec_run(events)[i] == from0[i - 1]);
    assert(events.len() > 0 && !(s0 is Closed));
    let (s1, a1) = declare.spec_step(s0, events[0]);
    assert(!is_send(a1));
    let rest1 = events.drop_first();
    let from1 = declare.spec_run_from(s1, rest1);
    assert(from0 =~= seq![a1] + from1);
    assert(i >= 2);
    assert(from0[i - 1] == from1[i - 2]);
    assert(rest1.len() > 0 && !(s1 is Closed));
    assert(rest1[0] == events[1]);
    let (s2, a2) = declare.spec_step(s1, rest1[0]);
    if events[1] != DeclareEvent::ClassQueried(ClassQuery::NotFound) {
        assert(s2 is Closed);
        assert(declare.spec_run_from(s2, rest1.drop_first()) =~= Seq::empty());
        assert(from1 =~= seq![a2]);
        assert(!is_send(a2));
    }
}

/// Whether the action reports a class as declared.
pub open spec fn is_declared_report(action: DeclareAction) -> bool {
    action matches DeclareAction::Report(DeclareOutcome::Declared { .. })
}

/// Whether a state that follows a submission is backed by one: `sent` says whether a
/// transaction was sent before the state was reached.
pub open spec fn send_accounted(declare: Declare, state: DeclareState, sent: bool) -> bool {
    match state {
        DeclareState::FeeResolved { .. } => declare.simulate || sent,
        DeclareState::Submitted { .. } => sent,
        _ => true,
    }
}

/// From a state that is backed by what was sent before, a class is reported as declared only
/// if a transaction was sent before the state was reached or is sent before the report.
pub proof fn lemma_declared_after_send_from(
    declare: Declare,
    state: DeclareState,
    events: Seq<DeclareEvent>,
    sent: bool,
)
    requires
        send_accounted(declare, state, sent),
    ensures
        forall|i: int|
            0 <= i < declare.spec_run_from(state, events).len() && is_declared_report(
                #[trigger] declare.spec_run_from(state, events)[i],
            ) ==> sent || exists|j: int|
                0 <= j < i && is_send(#[trigger] declare.spec_run_from(state, events)[j]),
    decreases events.len(),
{
    let run = declare.spec_run_from(state, events);
    if events.len() == 0 || state is Closed {
    } else {
        let (next, action) = declare.spec_step(state, events[0]);
        let rest = declare.spec_run_from(next, events.drop_first());
        let sent_now = sent || is_send(action);
        assert(send_accounted(declare, next, sent_now));
        lemma_declared_after_send_from(declare, next, events.drop_first(), sent_now);
        assert(run =~= seq![action] + rest);
        assert forall|i: int| 0 <= i < run.len() && is_declared_report(#[trigger] run[i]) implies sent
            || exists|j: int| 0 <= j < i && is_send(#[trigger] run[j]) by {
            if i == 0 {
                assert(run[0] == action);
                assert(sent);
            } else {
                assert(run[i] == rest[i - 1]);
                if !sent {
                    if is_send(action) {
                        assert(is_send(run[0]));
                    } else {
                        let k = choose|k: int| 0 <= k < i - 1 && is_send(#[trigger] rest[k]);
                        assert(run[k + 1] == rest[k]);
                        assert(is_send(run[k + 1]));
                    }
                }
            }
        }
    }
}

/// A class is reported as declared, with its class hash and the transaction's hash, only
/// after a transaction was sent.
pub proof fn lemma_declared_only_after_send(declare: Declare, events: Seq<DeclareEvent>, i: int)
    requires
        0 <= i < declare.spec_run(events).len(),
        is_declared_report(declare.spec_run(events)[i]),
    ensures
        exists|j: int| 0 <= j < i && is_send(#[trigger] declare.spec_run(events)[j]),
{
    let (first_state, first_action) = declare.spec_begin();
    let rest = declare.spec_run_from(first_state, events);
    let run = declare.spec_run(events);
    lemma_declared_after_send_from(declare, first_state, events, false);
    assert(!is_declared_report(first_action));
    assert(run[i] == rest[i - 1]);
    let k = choose|k: int| 0 <= k < i - 1 && is_send(#[trigger] rest[k]);
    assert(run[k + 1] == rest[k]);
    assert(is_send(run[k + 1]));
}

/// Once the fee is settled, nothing is sent any more: the one submission, if there was one,
/// lies behind.
pub proof fn lemma_no_send_after_fee(
    declare: Declare,
    state: DeclareState,
    events: Seq<DeclareEvent>,
)
    requires
        state is FeeResolved || state is Submitted || state is Closed,
    ensures
        forall|i: int|
            0 <= i < declare.spec_run_from(state, events).len() ==> !is_send(
                #[trigger] declare.spec_run_from(state, events)[i],
            ),
    decreases events.len(),
{
    let run = declare.spec_run_from(state, events);
    if events.len() == 0 || state is Closed {
    } else {
        let (next, action) = declare.spec_step(state, events[0]);
        let rest = declare.spec_run_from(next, events.drop_first());
        lemma_no_send_after_fee(declare, next, events.drop_first());
        assert forall|i: int| 0 <= i < run.len() implies !is_send(#[trigger] run[i]) by {
            if i > 0 {
                assert(run[i] == rest[i - 1]);
            }
        }
    }
}

/// From any state, a declaration sends at most one transaction: after a send there is no
/// second one.
pub proof fn lemma_at_most_one_send_from(
    declare: Declare,
    state: DeclareState,
    events: Seq<DeclareEvent>,
    i: int,
    j: int,
)
    requires
        0 <= i < j < declare.spec_run_from(state, events).len(),
        is_send(declare.spec_run_from(state, events)[i]),
    ensures
        !is_send(declare.spec_run_from(state, events)[j]),
    decreases events.len(),
{
    let run = declare.spec_run_from(state, events);
    let (next, action) = declare.spec_step(state, events[0]);
    let rest = declare.spec_run_from(next, events.drop_first());
    assert(run =~= seq![action] + rest);
    assert(run[j] == rest[j - 1]);
    if i == 0 {
        assert(next is FeeResolved);
        lemma_no_send_after_fee(declare, next, events.drop_first());
    } else {
        assert(run[i] == rest[i - 1]);
        lemma_at_most_one_send_from(declare, next, events.drop_first(), i - 1, j - 1);
    }
}

/// A declaration sends at most one transaction, whatever happens outside: nothing is tried
/// again.
pub proof fn lemma_at_most_one_send(declare: Declare, events: Seq<DeclareEvent>, i: int, j: int)
    requires
        0 <= i < j < declare.spec_run(events).len(),
        is_send(declare.spec_run(events)[i]),
    ensures
        !is_send(declare.spec_run(events)[j]),
{
    let (first_state, first_action) = declare.spec_begin();
    let rest = declare.spec_run_from(first_state, events);
    assert(!is_send(first_action));
    assert(declare.spec_run(events)[i] == rest[i - 1]);
    assert(declare.spec_run(events)[j] == rest[j - 1]);
    lemma_at_most_one_send_from(declare, first_state, events, i - 1, j - 1);
}

/// The fee that the action carries, where it simulates or sends.
pub open spec fn fee_of(action: DeclareAction) -> Option<nat> {
    match action {
        DeclareAction::Simulate { max_fee, .. } => Some(max_fee@),
        DeclareAction::Send { max_fee, .. } => Some(max_fee@),
        _ => None,
    }
}

/// With the automatic setting, the declaration that is simulated or sent after an estimate
/// carries the estimate times 5/2 with a JSON-RPC provider and times 3/2 with another, rounded
/// down, whatever the kind of class; where that is no field element, nothing is simulated or
/// sent.
pub proof fn lemma_automatic_fee(
    declare: Declare,
    class_hash: Felt,
    casm_hash: Option<Felt>,
    estimate: Felt,
)
    requires
        declare.fee is Automatic,
    ensures
        fee_of(
            declare.spec_step(
                DeclareState::HashResolved { class_hash, casm_hash },
                DeclareEvent::FeeEstimated(estimate),
            ).1,
        ) == if fee_fits(estimate@, declare.rpc) {
            Some(buffered_fee(estimate@, declare.rpc))
        } else {
            None
        },
        buffered_fee(estimate@, true) == (estimate@ * 5) / 2,
        buffered_fee(estimate@, false) == (estimate@ * 3) / 2,
{
    if fee_fits(estimate@, declare.rpc) {
        lemma_fee_is_its_number(estimate, declare.rpc);
    }
}

/// With a given fee, the declaration that is simulated or sent carries that fee.
pub proof fn lemma_manual_fee(declare: Declare, class_hash: Felt, casm_hash: Option<Felt>, fee: Felt)
    requires
        declare.fee == FeeSetting::Manual(fee),
    ensures
        fee_of(declare.spec_settle_fee(class_hash, casm_hash).1) == Some(fee@),
{
}

/// Whether the action asks the account for a fee estimate.
pub open spec fn is_estimate(action: DeclareAction) -> bool {
    action is EstimateFee
}

/// Once an estimate is awaited or the fee is settled, no estimate is asked for any more.
pub proof fn lemma_no_estimate_after_one(
    declare: Declare,
    state: DeclareState,
    events: Seq<DeclareEvent>,
)
    requires
        state is HashResolved || state is FeeResolved || state is Submitted || state is Closed,
    ensures
        forall|i: int|
            0 <= i < declare.spec_run_from(state, events).len() ==> !is_estimate(
                #[trigger] declare.spec_run_from(state, events)[i],
            ),
    decreases events.len(),
{
    let run = declare.spec_run_from(state, events);
    if events.len() == 0 || state is Closed {
    } else {
        let (next, action) = declare.spec_step(state, events[0]);
        let rest = declare.spec_run_from(next, events.drop_first());
        lemma_no_estimate_after_one(declare, next, events.drop_first());
        assert forall|i: int| 0 <= i < run.len() implies !is_estimate(#[trigger] run[i]) by {
            if i > 0 {
                assert(run[i] == rest[i - 1]);
            }
        }
    }
}

/// From any state, a declaration asks for at most one fee estimate.
pub proof fn lemma_at_most_one_estimate_from(
    declare: Declare,
    state: DeclareState,
    events: Seq<DeclareEvent>,
    i: int,
    j: int,
)
    requires
        0 <= i < j < declare.spec_run_from(state, events).len(),
        is_estimate(declare.spec_run_from(state, events)[i]),
    ensures
        !is_estimate(declare.spec_run_from(state, events)[j]),
    decreases events.len(),
{
    let run = declare.spec_run_from(state, events);
    let (next, action) = declare.spec_step(state, events[0]);
    let rest = declare.spec_run_from(next, events.drop_first());
    assert(run =~= seq![action] + rest);
    assert(run[j] == rest[j - 1]);
    if i == 0 {
        assert(next is HashResolved);
        lemma_no_estimate_after_one(declare, next, events.drop_first());
    } else {
        assert(run[i] == rest[i - 1]);
        lemma_at_most_one_estimate_from(declare, next, events.drop_first(), i - 1, j - 1);
    }
}

/// A declaration asks the account for at most one fee estimate, whatever happens outside.
pub proof fn lemma_at_most_one_estimate(
    declare: Declare,
    events: Seq<DeclareEvent>,
    i: int,
    j: int,
)
    requires
        0 <= i < j < declare.spec_run(events).len(),
        is_estimate(declare.spec_run(events)[i]),
    ensures
        !is_estimate(declare.spec_run(events)[j]),
{
    let (first_state, first_action) = declare.spec_begin();
    let rest = declare.spec_run_from(first_state, events);
    assert(!is_estimate(first_action));
    assert(declare.spec_run(events)[i] == rest[i - 1]);
    assert(declare.spec_run(events)[j] == rest[j - 1]);
    lemma_at_most_one_estimate_from(declare, first_state, events, i - 1, j - 1);
}

} // verus!
