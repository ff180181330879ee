use wql_process_monitor::error::Error;
use wql_process_monitor::event::ProcessEvent;
use wql_process_monitor::monitor::{polled_objects, Action, Command, Event, Message, Monitor};
use wql_process_monitor::query::{QueryKind, QueryOptions};

type Listener = Monitor<u8, char, u32>;

fn options(filter: &str) -> QueryOptions {
    QueryOptions {
        kind: QueryKind::Creation,
        filter_windows_noise: false,
        filter_usual_program_locations: false,
        whitelist: false,
        filter: filter.to_string(),
    }
}

fn ask(reply: u32) -> Event<u8, char, u32> {
    Event::Received(Command::Query(options("a"), reply))
}

fn polled(code: i32) -> Event<u8, char, u32> {
    Event::Polled {
        code,
        slots: vec![None; 16],
        returned: 0,
    }
}

fn extracted(process: &str) -> Event<u8, char, u32> {
    Event::Extracted(Some(ProcessEvent {
        event: "creation",
        process: process.to_string(),
        pid: "1".to_string(),
        filepath: String::new(),
    }))
}

fn run(events: Vec<Event<u8, char, u32>>) -> (Listener, Vec<Message<u32>>) {
    let mut monitor = Monitor::new();
    let mut replies = Vec::new();
    for event in events {
        let (next, reply) = monitor.next(event);
        monitor = next;
        replies.extend(reply);
    }
    (monitor, replies)
}

#[test]
fn connects_first() {
    let monitor: Listener = Monitor::new();
    assert!(matches!(monitor.action(), Action::Connect));
    let (monitor, replies) = run(vec![Event::Connected(Ok(()))]);
    assert!(matches!(replies[..], [Message::Init(Ok(()))]));
    assert!(matches!(monitor.action(), Action::AwaitCommand(3600)));
}

#[test]
fn failed_connection_is_reported_and_ends() {
    let (monitor, replies) = run(vec![Event::Connected(Err(Error::WbemConnect)), ask(1)]);
    assert!(matches!(replies[..], [Message::Init(Err(Error::WbemConnect))]));
    assert!(matches!(monitor.action(), Action::Stop));
}

#[test]
fn idle_listener_waits_on() {
    let (monitor, replies) = run(vec![Event::Connected(Ok(())), Event::Quiet, Event::Quiet]);
    assert_eq!(replies.len(), 1);
    assert!(matches!(monitor.action(), Action::AwaitCommand(3600)));
}

#[test]
fn query_is_started_with_its_options() {
    let (monitor, _) = run(vec![
        Event::Connected(Ok(())),
        Event::Received(Command::Query(options("x.exe"), 4)),
    ]);
    match monitor.action() {
        Action::StartQuery(options) => assert_eq!(options.filter, "x.exe"),
        other => panic!("{:?}", other),
    }
}

#[test]
fn running_query_is_polled_between_peeks() {
    let (monitor, replies) = run(vec![Event::Connected(Ok(())), ask(1), Event::Started(Ok(7))]);
    assert!(matches!(replies[1], Message::Query(1, Ok(()))));
    assert!(matches!(monitor.action(), Action::PeekCommand));
    let (monitor, _) = monitor.next(Event::Quiet);
    assert!(matches!(monitor.action(), Action::Poll(7, 500, 16)));
    let (monitor, _) = monitor.next(polled(0x40004));
    assert!(matches!(monitor.action(), Action::PeekCommand));
    assert!(matches!(monitor, Monitor::Listening(Some(7))));
}

#[test]
fn new_query_replaces_the_old_one() {
    let (monitor, replies) = run(vec![
        Event::Connected(Ok(())),
        ask(1),
        Event::Started(Ok(7)),
        ask(2),
        Event::Started(Ok(8)),
    ]);
    assert!(matches!(replies[2], Message::Query(2, Ok(()))));
    assert!(matches!(monitor, Monitor::Listening(Some(8))));
}

#[test]
fn failed_start_keeps_the_old_query() {
    let (monitor, replies) = run(vec![
        Event::Connected(Ok(())),
        ask(1),
        Event::Started(Ok(7)),
        ask(2),
        Event::Started(Err(Error::Query("no".to_string()))),
    ]);
    assert!(matches!(&replies[2], Message::Query(2, Err(Error::Query(m))) if m == "no"));
    assert!(matches!(monitor, Monitor::Listening(Some(7))));
}

#[test]
fn failed_poll_drops_the_query_and_goes_on() {
    let (monitor, replies) = run(vec![
        Event::Connected(Ok(())),
        ask(1),
        Event::Started(Ok(7)),
        Event::Quiet,
        polled(-1),
    ]);
    assert_eq!(replies.len(), 2);
    assert!(matches!(monitor.action(), Action::AwaitCommand(3600)));
    let (monitor, _) = monitor.next(ask(2));
    let (monitor, reply) = monitor.next(Event::Started(Ok(8)));
    assert!(matches!(reply, Some(Message::Query(2, Ok(())))));
    assert!(matches!(monitor, Monitor::Listening(Some(8))));
}

#[test]
fn every_query_is_answered_in_order() {
    let (_, replies) = run(vec![
        Event::Connected(Ok(())),
        ask(5),
        Event::Started(Err(Error::Query(String::new()))),
        Event::Quiet,
        ask(3),
        Event::Started(Ok(1)),
        Event::Quiet,
        polled(0),
        ask(4),
        Event::Started(Ok(2)),
    ]);
    let askers: Vec<u32> = replies
        .iter()
        .filter_map(|reply| match reply {
            Message::Query(asker, _) => Some(*asker),
            _ => None,
        })
        .collect();
    assert_eq!(askers, vec![5, 3, 4]);
}

#[test]
fn close_and_disconnection_end_it_for_good() {
    for end in [Event::Received(Command::Close), Event::Disconnected] {
        let (monitor, replies) = run(vec![
            Event::Connected(Ok(())),
            ask(1),
            Event::Started(Ok(7)),
            end,
            ask(2),
            Event::Quiet,
        ]);
        assert!(matches!(monitor, Monitor::Stopped));
        assert_eq!(replies.len(), 2);
    }
}

#[test]
fn objects_of_a_poll() {
    let slots = || vec![Some(1), None, Some(3), Some(4)];
    assert_eq!(polled_objects(slots(), 0), Vec::<i32>::new());
    assert_eq!(polled_objects(slots(), 2), vec![1]);
    assert_eq!(polled_objects(slots(), 3), vec![1, 3]);
    assert_eq!(polled_objects(slots(), 4), vec![1, 3, 4]);
    assert_eq!(polled_objects(slots(), u32::MAX), vec![1, 3, 4]);
}

#[test]
fn objects_are_extracted_and_reported_in_order() {
    let (monitor, _) = run(vec![
        Event::Connected(Ok(())),
        ask(1),
        Event::Started(Ok(7)),
        Event::Quiet,
        Event::Polled {
            code: 0,
            slots: vec![Some('a'), None, Some('b'), Some('c'), Some('d')],
            returned: 4,
        },
    ]);
    assert!(matches!(monitor.action(), Action::Extract('a')));
    let (monitor, message) = monitor.next(extracted("a.exe"));
    assert!(matches!(message, Some(Message::Report(event)) if event.process == "a.exe"));
    assert!(matches!(monitor.action(), Action::Extract('b')));
    let (monitor, message) = monitor.next(Event::Extracted(None));
    assert!(message.is_none());
    assert!(matches!(monitor.action(), Action::Extract('c')));
    let (monitor, message) = monitor.next(extracted("c.exe"));
    assert!(matches!(message, Some(Message::Report(event)) if event.process == "c.exe"));
    assert!(matches!(monitor, Monitor::Listening(Some(7))));
}

#[test]
fn failed_poll_returns_no_objects() {
    let (monitor, messages) = run(vec![
        Event::Connected(Ok(())),
        ask(1),
        Event::Started(Ok(7)),
        Event::Quiet,
        Event::Polled {
            code: -2147217407,
            slots: vec![Some('a')],
            returned: 1,
        },
    ]);
    assert!(matches!(monitor, Monitor::Listening(None)));
    assert_eq!(messages.len(), 2);
}

#[test]
fn events_that_are_not_due_change_nothing() {
    let (monitor, messages) = run(vec![polled(0), Event::Quiet, Event::Started(Ok(3))]);
    assert!(matches!(monitor, Monitor::Connecting));
    assert!(messages.is_empty());
}

#[test]
fn nothing_is_reported_without_a_query() {
    let (monitor, messages) = run(vec![
        Event::Connected(Ok(())),
        ask(1),
        Event::Started(Err(Error::Query(String::new()))),
        extracted("a.exe"),
    ]);
    assert!(matches!(monitor, Monitor::Listening(None)));
    assert!(!messages.iter().any(|message| matches!(message, Message::Report(_))));
}

#[test]
fn reports_are_of_the_latest_query() {
    let (monitor, _) = run(vec![
        Event::Connected(Ok(())),
        ask(1),
        Event::Started(Ok(7)),
        ask(2),
        Event::Started(Ok(8)),
        Event::Quiet,
        Event::Polled {
            code: 0,
            slots: vec![Some('a')],
            returned: 1,
        },
    ]);
    assert!(matches!(monitor, Monitor::Reading { query: 8, object: 'a', .. }));
    let (_, message) = monitor.next(extracted("a.exe"));
    assert!(matches!(message, Some(Message::Report(_))));
}
