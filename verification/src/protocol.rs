//! What holds of a listener over all that happens to it.

use vstd::prelude::*;

use crate::error::Error;
use crate::event::ProcessEvent;
use crate::monitor::{
    present, returned_objects, Action, Command, Event, Message, Monitor, MonitorView,
};
use crate::query::QueryOptions;

verus! {

/// What a listener has come to after these events.
pub open spec fn state_after<Q, O, R>(
    monitor: MonitorView<Q, O, R>,
    events: Seq<Event<Q, O, R>>,
) -> MonitorView<Q, O, R>
    decreases events.len(),
{
    if events.len() == 0 {
        monitor
    } else {
        state_after(monitor, events.drop_last()).after(events.last())
    }
}

/// The messages of a listener over these events, in their order.
pub open spec fn messages<Q, O, R>(
    monitor: MonitorView<Q, O, R>,
    events: Seq<Event<Q, O, R>>,
) -> Seq<Message<R>>
    decreases events.len(),
{
    if events.len() == 0 {
        Seq::empty()
    } else {
        let before = messages(monitor, events.drop_last());
        match state_after(monitor, events.drop_last()).message_on(events.last()) {
            Some(message) => before.push(message),
            None => before,
        }
    }
}

/// Whether each of these events answers the action that was due when it came.
pub open spec fn all_awaited<Q, O, R>(
    monitor: MonitorView<Q, O, R>,
    events: Seq<Event<Q, O, R>>,
) -> bool
    decreases events.len(),
{
    events.len() > 0 ==> {
        &&& all_awaited(monitor, events.drop_last())
        &&& state_after(monitor, events.drop_last()).awaits(events.last())
    }
}

/// Where the queries that were asked for want their answers, in their order.
pub open spec fn asked<Q, O, R>(events: Seq<Event<Q, O, R>>) -> Seq<R>
    decreases events.len(),
{
    if events.len() == 0 {
        Seq::empty()
    } else {
        match events.last() {
            Event::Received(Command::Query(_, reply)) => asked(events.drop_last()).push(reply),
            _ => asked(events.drop_last()),
        }
    }
}

/// How the starts of queries went, in their order.
pub open spec fn start_results<Q, O, R>(events: Seq<Event<Q, O, R>>) -> Seq<Result<(), Error>>
    decreases events.len(),
{
    if events.len() == 0 {
        Seq::empty()
    } else {
        match events.last() {
            Event::Started(Ok(_)) => start_results(events.drop_last()).push(Ok(())),
            Event::Started(Err(error)) => start_results(events.drop_last()).push(Err(error)),
            _ => start_results(events.drop_last()),
        }
    }
}

/// The answers to queries among the messages: where each went, and what it said.
pub open spec fn answers<R>(messages: Seq<Message<R>>) -> Seq<(R, Result<(), Error>)>
    decreases messages.len(),
{
    if messages.len() == 0 {
        Seq::empty()
    } else {
        match messages.last() {
            Message::Query(reply, result) => answers(messages.drop_last()).push((reply, result)),
            _ => answers(messages.drop_last()),
        }
    }
}

/// The process events among the messages, in their order.
pub open spec fn reports<R>(messages: Seq<Message<R>>) -> Seq<ProcessEvent>
    decreases messages.len(),
{
    if messages.len() == 0 {
        Seq::empty()
    } else {
        match messages.last() {
            Message::Report(event) => reports(messages.drop_last()).push(event),
            _ => reports(messages.drop_last()),
        }
    }
}

/// The process events that were extracted, in their order.
pub open spec fn extracted_events<Q, O, R>(events: Seq<Event<Q, O, R>>) -> Seq<ProcessEvent>
    decreases events.len(),
{
    if events.len() == 0 {
        Seq::empty()
    } else {
        match events.last() {
            Event::Extracted(Some(event)) => extracted_events(events.drop_last()).push(event),
            _ => extracted_events(events.drop_last()),
        }
    }
}

/// How many objects were looked at for a process event.
pub open spec fn extractions<Q, O, R>(events: Seq<Event<Q, O, R>>) -> nat
    decreases events.len(),
{
    if events.len() == 0 {
        0
    } else {
        extractions(events.drop_last()) + (if events.last() is Extracted {
            1nat
        } else {
            0nat
        })
    }
}

/// The objects that the polls which did not fail returned, in their order.
pub open spec fn all_returned<Q, O, R>(events: Seq<Event<Q, O, R>>) -> Seq<O>
    decreases events.len(),
{
    if events.len() == 0 {
        Seq::empty()
    } else {
        match events.last() {
            Event::Polled { code, slots, returned } => if code < 0 {
                all_returned(events.drop_last())
            } else {
                all_returned(events.drop_last()) + returned_objects(slots@, returned)
            },
            _ => all_returned(events.drop_last()),
        }
    }
}

/// The query that was started last, unless a poll has failed since.
pub open spec fn latest_query<Q, O, R>(events: Seq<Event<Q, O, R>>) -> Option<Q>
    decreases events.len(),
{
    if events.len() == 0 {
        None
    } else {
        match events.last() {
            Event::Started(Ok(query)) => Some(query),
            Event::Polled { code, .. } => if code < 0 {
                None
            } else {
                latest_query(events.drop_last())
            },
            _ => latest_query(events.drop_last()),
        }
    }
}

/// Every query that was asked for is answered exactly once, in the order of the questions, and
/// with the result of its start; only the last one may still wait for its answer.
pub proof fn law_every_query_is_answered<Q, O, R>(events: Seq<Event<Q, O, R>>)
    requires
        all_awaited(MonitorView::Connecting, events),
    ensures
        asked(events) == answers(messages(MonitorView::Connecting, events)).map_values(
            |answer: (R, Result<(), Error>)| answer.0,
        ) + state_after(MonitorView::Connecting, events).waiting(),
        start_results(events) == answers(messages(MonitorView::Connecting, events)).map_values(
            |answer: (R, Result<(), Error>)| answer.1,
        ),
    decreases events.len(),
{
    let start = MonitorView::<Q, O, R>::Connecting;
    if events.len() > 0 {
        let earlier = events.drop_last();
        law_every_query_is_answered(earlier);
        lemma_messages_grow(start, events);
    }
    assert(asked(events) =~= answers(messages(start, events)).map_values(
        |answer: (R, Result<(), Error>)| answer.0,
    ) + state_after(start, events).waiting());
    assert(start_results(events) =~= answers(messages(start, events)).map_values(
        |answer: (R, Result<(), Error>)| answer.1,
    ));
}

/// The callback gets exactly the process events that were extracted, in their order.
pub proof fn law_every_event_is_reported<Q, O, R>(events: Seq<Event<Q, O, R>>)
    requires
        all_awaited(MonitorView::Connecting, events),
    ensures
        reports(messages(MonitorView::Connecting, events)) == extracted_events(events),
    decreases events.len(),
{
    if events.len() > 0 {
        law_every_event_is_reported(events.drop_last());
        lemma_messages_grow(MonitorView::Connecting, events);
    }
}

/// Every object that a poll returned is looked at exactly once, in the order of return: what is
/// still to be looked at is what was returned without as many as were looked at. In particular
/// nothing is left whenever the listener looks at its commands.
pub proof fn law_every_object_is_looked_at<Q, O, R>(events: Seq<Event<Q, O, R>>)
    requires
        all_awaited(MonitorView::Connecting, events),
    ensures
        extractions(events) <= all_returned(events).len(),
        state_after(MonitorView::Connecting, events).unread() == all_returned(events).skip(
            extractions(events) as int,
        ),
        state_after(MonitorView::Connecting, events) is Listening ==> extractions(events)
            == all_returned(events).len(),
    decreases events.len(),
{
    let start = MonitorView::<Q, O, R>::Connecting;
    let unread = state_after(start, events).unread();
    if events.len() > 0 {
        let earlier = events.drop_last();
        law_every_object_is_looked_at(earlier);
        let before = state_after(start, earlier);
        let count = extractions(earlier) as int;
        match events.last() {
            Event::Polled { code, slots, returned } => {
                let objects = returned_objects(slots@, returned);
                assert(before.unread().len() == 0);
                if code >= 0 {
                    assert(unread =~= objects);
                    assert((all_returned(earlier) + objects).skip(count) =~= objects);
                }
            },
            Event::Extracted(_) => {
                assert(before.unread().len() > 0);
                assert(unread =~= before.unread().drop_first());
                assert(all_returned(earlier).skip(count).drop_first() =~= all_returned(
                    earlier,
                ).skip(count + 1));
            },
            _ => {
                assert(unread =~= before.unread());
            },
        }
    }
    assert(unread =~= all_returned(events).skip(extractions(events) as int));
    if state_after(start, events) is Listening {
        assert(unread.len() == 0);
    }
}

/// The one who created the listener is the first to be told anything, is told the outcome of
/// the connection, and is told once.
pub proof fn law_connection_is_reported_once<Q, O, R>(events: Seq<Event<Q, O, R>>)
    requires
        all_awaited(MonitorView::Connecting, events),
        events.len() > 0,
    ensures
        messages(MonitorView::Connecting, events).len() > 0,
        events[0] matches Event::Connected(result) && messages(MonitorView::Connecting, events)[0]
            == Message::<R>::Init(result),
        forall|i: int|
            0 < i < messages(MonitorView::Connecting, events).len() ==> !(#[trigger] messages(
                MonitorView::Connecting,
                events,
            )[i] is Init),
        !(state_after(MonitorView::Connecting, events) is Connecting),
    decreases events.len(),
{
    let start = MonitorView::<Q, O, R>::Connecting;
    let earlier = events.drop_last();
    if earlier.len() > 0 {
        law_connection_is_reported_once(earlier);
        assert(earlier[0] == events[0]);
        let before = messages(start, earlier);
        assert forall|i: int| 0 < i < messages(start, events).len() implies !(
        #[trigger] messages(start, events)[i] is Init) by {
            if i < before.len() {
                assert(!(before[i] is Init));
            }
        }
    } else {
        assert(state_after(start, earlier) == start);
        assert(messages(start, earlier).len() == 0);
    }
}

/// The query that a listener has running is the one that it started last; a failed poll ends
/// it, and a query that could not be started leaves the one before running.
pub proof fn law_latest_query_runs<Q, O, R>(events: Seq<Event<Q, O, R>>)
    requires
        all_awaited(MonitorView::Connecting, events),
        !(state_after(MonitorView::Connecting, events) is Stopped),
    ensures
        state_after(MonitorView::Connecting, events).active_query() == latest_query(events),
    decreases events.len(),
{
    if events.len() > 0 {
        law_latest_query_runs(events.drop_last());
    }
}

/// A process event is reported only from an object of the query that runs, and that is the one
/// that was started last: the queries before it report nothing any more.
pub proof fn law_reports_are_of_the_latest_query<Q, O, R>(
    events: Seq<Event<Q, O, R>>,
    event: Event<Q, O, R>,
)
    requires
        all_awaited(MonitorView::Connecting, events),
        state_after(MonitorView::Connecting, events).message_on(event) matches Some(
            Message::Report(_),
        ),
    ensures
        state_after(MonitorView::Connecting, events) matches MonitorView::Reading { query, .. }
            && latest_query(events) == Some(query),
        state_after(MonitorView::Connecting, events).active_query() == latest_query(events),
{
    law_latest_query_runs(events);
}

/// A listener that starts a query starts the one that was asked for last, and answers who asked
/// for it: the options are, field by field, those of the command that has just arrived.
pub proof fn law_last_query_is_started<Q, O, R>(events: Seq<Event<Q, O, R>>)
    requires
        all_awaited(MonitorView::Connecting, events),
    ensures
        state_after(
            MonitorView::Connecting,
            events,
        ) matches MonitorView::Starting { options, reply, .. } ==> events.len() > 0 && (
        events.last() matches Event::Received(Command::Query(asked, place)) && {
            &&& options.kind == asked.kind
            &&& options.filter_windows_noise == asked.filter_windows_noise
            &&& options.filter_usual_program_locations == asked.filter_usual_program_locations
            &&& options.whitelist == asked.whitelist
            &&& options.filter@ == asked.filter@
            &&& options == asked
            &&& reply == place
        }),
{
}

/// A query that is asked for is always started: right after the command the listener has come to
/// its start, with its options and its caller, and with the query that ran before still running.
pub proof fn law_every_query_is_started<Q, O, R>(
    events: Seq<Event<Q, O, R>>,
    options: QueryOptions,
    reply: R,
)
    requires
        all_awaited(MonitorView::Connecting, events),
        events.len() > 0,
        events.last() == Event::<Q, O, R>::Received(Command::Query(options, reply)),
    ensures
        state_after(MonitorView::Connecting, events) == (MonitorView::<Q, O, R>::Starting {
            options,
            reply,
            active: latest_query(events.drop_last()),
        }),
{
    law_latest_query_runs(events.drop_last());
}

/// Whether no query was started.
pub open spec fn none_started<Q, O, R>(events: Seq<Event<Q, O, R>>) -> bool {
    forall|i: int| 0 <= i < events.len() ==> !(#[trigger] events[i] matches Event::Started(Ok(_)))
}

/// Nothing is reported as long as no query was started.
pub proof fn law_no_report_without_a_query<Q, O, R>(events: Seq<Event<Q, O, R>>)
    requires
        all_awaited(MonitorView::Connecting, events),
        none_started(events),
    ensures
        reports(messages(MonitorView::Connecting, events)) == Seq::<ProcessEvent>::empty(),
        state_after(MonitorView::Connecting, events).active_query() is None,
    decreases events.len(),
{
    if events.len() > 0 {
        let earlier = events.drop_last();
        assert forall|i: int| 0 <= i < earlier.len() implies !(
        #[trigger] earlier[i] matches Event::Started(Ok(_))) by {
            assert(earlier[i] == events[i]);
        }
        law_no_report_without_a_query(earlier);
        lemma_messages_grow(MonitorView::Connecting, events);
        assert(!(events[events.len() - 1] matches Event::Started(Ok(_))));
    }
}

/// A listener ends exactly when it could not connect, is told to close, or can be told nothing
/// any more. Nothing else ends it, a failed start or poll in particular.
pub proof fn law_what_ends_the_listener<Q, O, R>(
    monitor: MonitorView<Q, O, R>,
    event: Event<Q, O, R>,
)
    requires
        monitor.awaits(event),
    ensures
        monitor.after(event) is Stopped <==> {
            ||| event matches Event::Connected(Err(_))
            ||| event matches Event::Received(Command::Close)
            ||| event is Disconnected
        },
{
}

/// A listener that has ended stays so, and tells nobody anything.
pub proof fn law_ended_for_good<Q, O, R>(events: Seq<Event<Q, O, R>>)
    ensures
        state_after(MonitorView::<Q, O, R>::Stopped, events) is Stopped,
        messages(MonitorView::<Q, O, R>::Stopped, events) == Seq::<Message<R>>::empty(),
    decreases events.len(),
{
    if events.len() > 0 {
        law_ended_for_good(events.drop_last());
    }
}

/// Commands come first: a query is polled only right after no command was found, and a poll is
/// followed by its objects and then by the commands again.
pub proof fn law_commands_come_first<Q, O, R>(
    monitor: MonitorView<Q, O, R>,
    event: Event<Q, O, R>,
)
    requires
        monitor.awaits(event),
    ensures
        monitor.after(event) is Polling ==> event is Quiet && monitor is Listening,
        monitor is Polling || monitor is Reading ==> monitor.after(event) is Reading
            || monitor.after(event) is Listening,
{
}

proof fn lemma_messages_grow<Q, O, R>(monitor: MonitorView<Q, O, R>, events: Seq<Event<Q, O, R>>)
    requires
        events.len() > 0,
    ensures
        ({
            let before = messages(monitor, events.drop_last());
            match state_after(monitor, events.drop_last()).message_on(events.last()) {
                Some(message) => {
                    &&& messages(monitor, events).last() == message
                    &&& messages(monitor, events).drop_last() == before
                },
                None => messages(monitor, events) == before,
            }
        }),
{
    let before = messages(monitor, events.drop_last());
    match state_after(monitor, events.drop_last()).message_on(events.last()) {
        Some(message) => {
            assert(before.push(message).drop_last() =~= before);
        },
        None => {},
    }
}

/// Whether these are the states and the messages of a listener over these events, from its
/// beginning on.
pub open spec fn is_run<Q, O, R>(
    states: Seq<Monitor<Q, O, R>>,
    told: Seq<Option<Message<R>>>,
    events: Seq<Event<Q, O, R>>,
) -> bool {
    &&& states.len() == events.len() + 1
    &&& told.len() == events.len()
    &&& call_ensures(Monitor::<Q, O, R>::new, (), states[0])
    &&& forall|i: int|
        0 <= i < events.len() ==> call_ensures(
            Monitor::<Q, O, R>::next,
            (states[i], #[trigger] events[i]),
            (states[i + 1], told[i]),
        )
}

/// What holds of a listener over its events holds of every run: it comes to these states and
/// tells these messages, in this order.
pub proof fn law_runs_keep_the_protocol<Q, O, R>(
    states: Seq<Monitor<Q, O, R>>,
    told: Seq<Option<Message<R>>>,
    events: Seq<Event<Q, O, R>>,
)
    requires
        is_run(states, told, events),
    ensures
        states.last()@ == state_after(MonitorView::Connecting, events),
        present(told) == messages(MonitorView::<Q, O, R>::Connecting, events),
    decreases events.len(),
{
    if events.len() > 0 {
        let earlier = events.drop_last();
        let last = events.len() - 1;
        assert forall|i: int| 0 <= i < earlier.len() implies call_ensures(
            Monitor::<Q, O, R>::next,
            (states.drop_last()[i], #[trigger] earlier[i]),
            (states.drop_last()[i + 1], told.drop_last()[i]),
        ) by {
            assert(earlier[i] == events[i]);
        }
        law_runs_keep_the_protocol(states.drop_last(), told.drop_last(), earlier);
        assert(call_ensures(
            Monitor::<Q, O, R>::next,
            (states[last], events[last]),
            (states[last + 1], told[last]),
        ));
    }
}

/// In a run of events that were due, a query is started with exactly the options of the command
/// that has just arrived.
pub proof fn law_runs_start_what_was_asked<Q, O, R>(
    states: Seq<Monitor<Q, O, R>>,
    told: Seq<Option<Message<R>>>,
    events: Seq<Event<Q, O, R>>,
    action: Action<'_, Q, O>,
)
    requires
        is_run(states, told, events),
        all_awaited(MonitorView::Connecting, events),
        call_ensures(Monitor::<Q, O, R>::action, (&states.last(),), action),
    ensures
        action matches Action::StartQuery(options) ==> events.len() > 0 && (
        events.last() matches Event::Received(Command::Query(asked, _)) && asked == *options),
{
    law_runs_keep_the_protocol(states, told, events);
    law_last_query_is_started(events);
}

} // verus!
