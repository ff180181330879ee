use wql_process_monitor::error::Error;
use wql_process_monitor::query::query_options;
use wql_process_monitor::query::QueryOptions;
use wql_process_monitor::sink::{
    query_answered, query_target, spawn_failed, Answer, Creation, ListenerSlot, QueryAnswer, QueryTask,
    REPLY_TIMEOUT_SECS,
};

const NOT_INITIALIZED: &str = "Event sink is not initialized";

fn accepted() -> Result<QueryOptions, String> {
    query_options(true, false, false, false, false, "a".to_string())
}

fn refused() -> Result<QueryOptions, String> {
    query_options(false, false, false, false, false, "a".to_string())
}

fn running() -> ListenerSlot<u8> {
    let mut slot = ListenerSlot::new();
    assert_eq!(slot.create_requested(false), Creation::Spawn);
    let created = slot.listener_spawned(7, Answer::Replied(Ok(())));
    assert_eq!(created.result, Ok(()));
    assert_eq!(created.ending, None);
    slot
}

#[test]
fn callers_wait_half_a_minute() {
    assert_eq!(REPLY_TIMEOUT_SECS, 30);
}

#[test]
fn creation_takes_the_place() {
    assert_eq!(running().handle, Some(7));
}

#[test]
fn creation_is_idempotent() {
    let mut slot = running();
    assert_eq!(slot.create_requested(false), Creation::Done);
    assert_eq!(slot.handle, Some(7));
}

#[test]
fn dead_listener_is_replaced() {
    let mut slot = running();
    assert_eq!(slot.create_requested(true), Creation::Spawn);
    assert_eq!(slot.handle, None);
    slot.listener_spawned(8, Answer::Replied(Ok(())));
    assert_eq!(slot.handle, Some(8));
}

#[test]
fn failed_connection_leaves_no_sink() {
    let mut slot: ListenerSlot<u8> = ListenerSlot::new();
    slot.create_requested(false);
    let created = slot.listener_spawned(7, Answer::Replied(Err(Error::ComSecurity)));
    assert_eq!(
        created.result,
        Err("Failed to initialize security".to_string())
    );
    assert_eq!(created.ending, Some(7));
    assert_eq!(slot.handle, None);
    assert_eq!(slot.query_requested().err().unwrap(), NOT_INITIALIZED);
}

#[test]
fn silent_listener_leaves_no_sink() {
    let mut slot: ListenerSlot<u8> = ListenerSlot::new();
    slot.create_requested(false);
    let created = slot.listener_spawned(7, Answer::Silence);
    assert_eq!(
        created.result,
        Err("Timed out while initializing the event sink".to_string())
    );
    assert_eq!(created.ending, None);
    assert_eq!(slot.handle, None);
}

#[test]
fn failed_spawn() {
    assert_eq!(
        spawn_failed("out of memory"),
        "Failed to spawn listener thread: out of memory"
    );
}

#[test]
fn query_goes_to_the_listener() {
    assert_eq!(running().query_requested(), Ok(&7));
    let empty: ListenerSlot<u8> = ListenerSlot::new();
    assert_eq!(empty.query_requested(), Err(NOT_INITIALIZED.to_string()));
}

#[test]
fn refused_options_come_before_a_missing_sink() {
    let reason = "You must subscribe to at least one event";
    let slot = running();
    let empty: ListenerSlot<u8> = ListenerSlot::new();
    assert_eq!(query_target(&slot, refused()).err().unwrap(), reason);
    assert_eq!(query_target(&empty, refused()).err().unwrap(), reason);
    assert_eq!(query_target(&empty, accepted()).err().unwrap(), NOT_INITIALIZED);
    let (handle, options) = query_target(&slot, accepted()).unwrap();
    assert_eq!(*handle, 7);
    assert_eq!(options.filter, "a");
}

#[test]
fn answers_to_a_query() {
    assert_eq!(
        query_answered(QueryAnswer::Unsent),
        Err(NOT_INITIALIZED.to_string())
    );
    assert_eq!(
        query_answered(QueryAnswer::Sent(Answer::Replied(Ok(())))),
        Ok(())
    );
    assert_eq!(
        query_answered(QueryAnswer::Sent(Answer::Replied(Err(Error::Query(
            "Unparsable query".to_string()
        ))))),
        Err("Unparsable query".to_string())
    );
    assert_eq!(
        query_answered(QueryAnswer::Sent(Answer::Silence)),
        Err("Timed out while starting the WQL query".to_string())
    );
}

#[test]
fn closing() {
    let mut slot = running();
    assert_eq!(slot.close_requested(), Some(7));
    assert_eq!(slot.close_requested(), None);
    assert_eq!(slot.query_requested().err().unwrap(), NOT_INITIALIZED);
    assert_eq!(slot.create_requested(false), Creation::Spawn);
}

#[test]
fn deferred_subscription_is_the_same() {
    let mut task = QueryTask::new(accepted());
    assert_eq!(task.take().unwrap().filter, "a");
    let mut task = QueryTask::new(refused());
    assert_eq!(
        task.take().err().unwrap(),
        "You must subscribe to at least one event"
    );
    assert!(task.options.is_none() && task.error.is_none());
}
