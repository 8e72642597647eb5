use starkli::felt::Felt;
use starkli::watch::{
    TransactionStatus, Watch, WatchAction, WatchError, WatchEvent, WatchState,
};

fn watch() -> Watch {
    Watch::new(Felt::from_u64(0x7a), 5000)
}

fn query() -> WatchAction {
    WatchAction::Query { transaction_hash: Felt::from_u64(0x7a) }
}

fn pending() -> WatchEvent {
    WatchEvent::Status(TransactionStatus::Pending)
}

#[test]
fn two_pending_answers_then_accepted_make_three_queries() {
    let events = vec![
        pending(),
        WatchEvent::Waited,
        pending(),
        WatchEvent::Waited,
        WatchEvent::Status(TransactionStatus::Accepted),
    ];
    let actions = watch().run(&events);
    assert_eq!(
        actions,
        vec![
            query(),
            WatchAction::Wait { millis: 5000 },
            query(),
            WatchAction::Wait { millis: 5000 },
            query(),
            WatchAction::Confirmed,
        ]
    );
    let queries = actions.iter().filter(|a| matches!(a, WatchAction::Query { .. })).count();
    assert_eq!(queries, 3);
}

#[test]
fn the_first_query_is_made_at_once() {
    assert_eq!(watch().begin(), (WatchState::Polling, query()));
    assert_eq!(watch().run(&Vec::new()), vec![query()]);
}

#[test]
fn an_accepted_transaction_ends_the_poll_after_one_query() {
    let events = vec![WatchEvent::Status(TransactionStatus::Accepted), WatchEvent::Waited];
    assert_eq!(watch().run(&events), vec![query(), WatchAction::Confirmed]);
}

#[test]
fn a_rejected_transaction_ends_the_poll_with_its_reason() {
    let rejected = TransactionStatus::Rejected { reason: "out of gas".to_string() };
    let events = vec![pending(), WatchEvent::Waited, WatchEvent::Status(rejected)];
    assert_eq!(
        watch().run(&events),
        vec![
            query(),
            WatchAction::Wait { millis: 5000 },
            query(),
            WatchAction::Fail(WatchError::Rejected { reason: "out of gas".to_string() }),
        ]
    );
}

#[test]
fn a_failed_query_ends_the_poll() {
    assert_eq!(
        watch().run(&vec![WatchEvent::QueryFailed, pending()]),
        vec![query(), WatchAction::Fail(WatchError::Network)]
    );
}

#[test]
fn the_poll_can_be_given_up_while_it_asks_and_while_it_pauses() {
    assert_eq!(
        watch().run(&vec![WatchEvent::Cancelled]),
        vec![query(), WatchAction::Fail(WatchError::Cancelled)]
    );
    assert_eq!(
        watch().run(&vec![pending(), WatchEvent::Cancelled, WatchEvent::Waited]),
        vec![
            query(),
            WatchAction::Wait { millis: 5000 },
            WatchAction::Fail(WatchError::Cancelled),
        ]
    );
}

#[test]
fn an_event_that_is_not_awaited_ends_the_poll() {
    let unexpected = (WatchState::Done, WatchAction::Fail(WatchError::UnexpectedEvent));
    assert_eq!(watch().step(WatchState::Polling, &WatchEvent::Waited), unexpected);
    assert_eq!(watch().step(WatchState::Waiting, &pending()), unexpected);
    assert_eq!(watch().step(WatchState::Waiting, &WatchEvent::QueryFailed), unexpected);
    assert_eq!(watch().step(WatchState::Done, &WatchEvent::Waited), unexpected);
    assert_eq!(watch().step(WatchState::Done, &WatchEvent::Cancelled), unexpected);
    assert_eq!(watch().step(WatchState::Done, &pending()), unexpected);
}

#[test]
fn a_transaction_that_stays_pending_is_asked_for_again_and_again() {
    let watch = Watch::new(Felt::from_u64(1), 250);
    let mut state = watch.begin().0;
    for _ in 0..1000 {
        let (next, action) = watch.step(state, &pending());
        assert_eq!((next, action), (WatchState::Waiting, WatchAction::Wait { millis: 250 }));
        let (next, action) = watch.step(next, &WatchEvent::Waited);
        assert_eq!(next, WatchState::Polling);
        assert_eq!(action, WatchAction::Query { transaction_hash: Felt::from_u64(1) });
        state = next;
    }
}
