use wql_process_monitor::error::Error;
use wql_process_monitor::query::{build_query, query_options};
use wql_process_monitor::start::{QueryStart, StartOutcome, QUERY_LANGUAGE};

fn begin() -> QueryStart<u8> {
    let options = query_options(true, true, false, false, false, "a".to_string()).unwrap();
    QueryStart::new(&options)
}

#[test]
fn the_query_text_is_executed() {
    assert_eq!(QUERY_LANGUAGE, "WQL");
    let options = query_options(true, true, false, false, false, "a".to_string()).unwrap();
    let start: QueryStart<u8> = QueryStart::new(&options);
    assert!(matches!(start, QueryStart::Execute(text) if text == build_query(&options)));
}

#[test]
fn both_calls_succeed() {
    let start = begin().next(StartOutcome::Executed(Ok(7)));
    assert!(matches!(start, QueryStart::Secure(7)));
    let start = start.next(StartOutcome::Secured(Ok(())));
    assert!(matches!(start, QueryStart::Finished(Ok(7))));
}

#[test]
fn either_failure_is_reported_with_its_message() {
    let start = begin().next(StartOutcome::Executed(Err("bad query".to_string())));
    assert!(matches!(start, QueryStart::Finished(Err(Error::Query(m))) if m == "bad query"));
    let start = begin()
        .next(StartOutcome::Executed(Ok(7)))
        .next(StartOutcome::Secured(Err("no blanket".to_string())));
    assert!(matches!(start, QueryStart::Finished(Err(Error::Query(m))) if m == "no blanket"));
}

#[test]
fn outcomes_of_other_calls_change_nothing() {
    let start = begin().next(StartOutcome::Secured(Ok(())));
    assert!(matches!(start, QueryStart::Execute(_)));
    let start = QueryStart::Secure(1u8).next(StartOutcome::Executed(Ok(2)));
    assert!(matches!(start, QueryStart::Secure(1)));
}
