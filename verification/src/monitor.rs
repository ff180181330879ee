//! The listener thread: what it does next, and what it tells whom.
//!
//! The thread that owns the WMI objects performs the action of its [`Monitor`], hands back what
//! came of it as an [`Event`], and passes on the [`Message`] that the monitor returns, if any.

use vstd::prelude::*;

use crate::connect::completed;
use crate::error::Error;
use crate::event::ProcessEvent;
use crate::query::QueryOptions;

verus! {

/// How long a single poll may block before the commands are looked at again, in milliseconds.
pub const POLL_TIMEOUT_MS: i32 = 500;

/// How many event objects a single poll can return.
pub const POLL_BATCH: usize = 16;

/// How long an idle listener waits for a command before it waits again, in seconds.
pub const IDLE_WAIT_SECS: u64 = 3600;

/// What the listener can be told. `R` is the place where an answer goes.
#[derive(Debug)]
pub enum Command<R> {
    /// Start the notification query, or replace the one that runs.
    Query(QueryOptions, R),
    /// Stop everything and end the listener thread.
    Close,
}

/// What the listener has come to. `Q` is a running notification query, `O` an event object.
#[derive(Debug)]
pub enum Monitor<Q, O, R> {
    /// It is not connected to WMI yet.
    Connecting,
    /// It is due to look at its commands, with or without a running query.
    Listening(Option<Q>),
    /// It starts a query for a caller who waits for the answer; until then the query that runs
    /// stays.
    Starting { options: QueryOptions, reply: R, active: Option<Q> },
    /// It found no command, and is due to poll its query.
    Polling(Q),
    /// It works off what a poll returned: this object next, then the rest.
    Reading { query: Q, object: O, rest: Vec<O> },
    /// It has ended.
    Stopped,
}

/// `Monitor` with a sequence of the objects that are left.
pub enum MonitorView<Q, O, R> {
    Connecting,
    Listening(Option<Q>),
    Starting { options: QueryOptions, reply: R, active: Option<Q> },
    Polling(Q),
    Reading { query: Q, object: O, rest: Seq<O> },
    Stopped,
}

impl<Q, O, R> View for Monitor<Q, O, R> {
    type V = MonitorView<Q, O, R>;

    open spec fn view(&self) -> MonitorView<Q, O, R> {
        match *self {
            Monitor::Connecting => MonitorView::Connecting,
            Monitor::Listening(active) => MonitorView::Listening(active),
            Monitor::Starting { options, reply, active } => MonitorView::Starting {
                options,
                reply,
                active,
            },
            Monitor::Polling(query) => MonitorView::Polling(query),
            Monitor::Reading { query, object, rest } => MonitorView::Reading {
                query,
                object,
                rest: rest@,
            },
            Monitor::Stopped => MonitorView::Stopped,
        }
    }
}

/// What the listener thread does next.
#[derive(Debug)]
pub enum Action<'a, Q, O> {
    /// Connect to WMI.
    Connect,
    /// Block until a command arrives, for so many seconds at most.
    AwaitCommand(u64),
    /// Take a command if one is there.
    PeekCommand,
    /// Start the query that these options ask for.
    StartQuery(&'a QueryOptions),
    /// Poll this query: wait so many milliseconds at most for so many events at most.
    Poll(&'a Q, i32, usize),
    /// Extract the process event from this object.
    Extract(&'a O),
    /// End.
    Stop,
}

/// What came of an action.
#[derive(Debug)]
pub enum Event<Q, O, R> {
    Connected(Result<(), Error>),
    /// A command arrived.
    Received(Command<R>),
    /// No command is there, or none arrived in time.
    Quiet,
    /// No command can ever arrive again.
    Disconnected,
    Started(Result<Q, Error>),
    /// The result code of a poll, its slots, and how many of them it says it filled.
    Polled { code: i32, slots: Vec<Option<O>>, returned: u32 },
    /// The event that an object reports, if it reports one.
    Extracted(Option<ProcessEvent>),
}

/// What the listener has to pass on.
#[derive(Debug)]
pub enum Message<R> {
    /// Whether it is connected, for the one who created it.
    Init(Result<(), Error>),
    /// Whether a query was started, for the one who asked for it.
    Query(R, Result<(), Error>),
    /// A process event, for the callback.
    Report(ProcessEvent),
}

/// The values that are there, in their order.
pub open spec fn present<O>(slots: Seq<Option<O>>) -> Seq<O>
    decreases slots.len(),
{
    if slots.len() == 0 {
        Seq::empty()
    } else {
        match slots.last() {
            Some(object) => present(slots.drop_last()).push(object),
            None => present(slots.drop_last()),
        }
    }
}

/// The number of slots of a poll that count: those that it says it filled, but no more than
/// there are.
pub open spec fn filled<O>(slots: Seq<Option<O>>, returned: u32) -> int {
    if returned < slots.len() {
        returned as int
    } else {
        slots.len() as int
    }
}

/// The event objects that a poll returned, in their order.
pub open spec fn returned_objects<O>(slots: Seq<Option<O>>, returned: u32) -> Seq<O> {
    present(slots.take(filled(slots, returned)))
}

/// Takes the event objects that a poll returned out of its slots.
pub fn polled_objects<O>(slots: Vec<Option<O>>, returned: u32) -> (objects: Vec<O>)
    ensures
        objects@ == returned_objects(slots@, returned),
{
    let mut objects: Vec<O> = Vec::new();
    let mut left: u32 = returned;
    let ghost all = slots@;
    let ghost end = filled(all, returned);
    assert(all.take(0) =~= Seq::empty());
    for slot in iter: slots
        invariant
            iter.seq() == all,
            end == filled(all, returned),
            left == (if iter.index() < returned {
                returned - iter.index()
            } else {
                0
            }),
            objects@ == present(
                all.take(
                    if iter.index() < end {
                        iter.index()
                    } else {
                        end
                    },
                ),
            ),
    {
        if left > 0 {
            left = left - 1;
            let ghost k = iter.index();
            assert(all.take(k + 1).drop_last() =~= all.take(k));
            if let Some(object) = slot {
                objects.push(object);
            }
        }
    }
    objects
}

impl<Q, O, R> MonitorView<Q, O, R> {
    /// The query that runs, if any.
    pub open spec fn active_query(self) -> Option<Q> {
        match self {
            MonitorView::Listening(active) => active,
            MonitorView::Starting { active, .. } => active,
            MonitorView::Polling(query) => Some(query),
            MonitorView::Reading { query, .. } => Some(query),
            _ => None,
        }
    }

    /// The objects that are still to be worked off, in their order.
    pub open spec fn unread(self) -> Seq<O> {
        match self {
            MonitorView::Reading { object, rest, .. } => seq![object] + rest,
            _ => Seq::empty(),
        }
    }

    /// The caller who waits for an answer, if any.
    pub open spec fn waiting(self) -> Seq<R> {
        match self {
            MonitorView::Starting { reply, .. } => seq![reply],
            _ => Seq::empty(),
        }
    }

    /// Whether the event answers the action that is due.
    pub open spec fn awaits(self, event: Event<Q, O, R>) -> bool {
        match self {
            MonitorView::Connecting => event is Connected,
            MonitorView::Listening(_) => event is Received || event is Quiet
                || event is Disconnected,
            MonitorView::Starting { .. } => event is Started,
            MonitorView::Polling(_) => event is Polled,
            MonitorView::Reading { .. } => event is Extracted,
            MonitorView::Stopped => false,
        }
    }

    /// A listener with a query that is due to work off these objects; without any it looks at
    /// its commands.
    pub open spec fn reading(query: Q, objects: Seq<O>) -> MonitorView<Q, O, R> {
        if objects.len() == 0 {
            MonitorView::Listening(Some(query))
        } else {
            MonitorView::Reading { query, object: objects[0], rest: objects.drop_first() }
        }
    }

    /// What the listener has come to after an event. An event that answers another action than
    /// the one that is due changes nothing.
    pub open spec fn after(self, event: Event<Q, O, R>) -> MonitorView<Q, O, R> {
        match (self, event) {
            (MonitorView::Connecting, Event::Connected(Ok(_))) => MonitorView::Listening(None),
            (MonitorView::Connecting, Event::Connected(Err(_))) => MonitorView::Stopped,
            (
                MonitorView::Listening(active),
                Event::Received(Command::Query(options, reply)),
            ) => MonitorView::Starting { options, reply, active },
            (
                MonitorView::Listening(_),
                Event::Received(Command::Close),
            ) => MonitorView::Stopped,
            (MonitorView::Listening(_), Event::Disconnected) => MonitorView::Stopped,
            (MonitorView::Listening(Some(query)), Event::Quiet) => MonitorView::Polling(query),
            (MonitorView::Starting { .. }, Event::Started(Ok(query))) => MonitorView::Listening(
                Some(query),
            ),
            (
                MonitorView::Starting { active, .. },
                Event::Started(Err(_)),
            ) => MonitorView::Listening(active),
            (MonitorView::Polling(query), Event::Polled { code, slots, returned }) => if code < 0 {
                MonitorView::Listening(None)
            } else {
                Self::reading(query, returned_objects(slots@, returned))
            },
            (MonitorView::Reading { query, rest, .. }, Event::Extracted(_)) => Self::reading(
                query,
                rest,
            ),
            _ => self,
        }
    }

    /// The message that an event calls for, if any.
    pub open spec fn message_on(self, event: Event<Q, O, R>) -> Option<Message<R>> {
        match (self, event) {
            (MonitorView::Connecting, Event::Connected(result)) => Some(Message::Init(result)),
            (MonitorView::Starting { reply, .. }, Event::Started(Ok(_))) => Some(
                Message::Query(reply, Ok(())),
            ),
            (MonitorView::Starting { reply, .. }, Event::Started(Err(error))) => Some(
                Message::Query(reply, Err(error)),
            ),
            (MonitorView::Reading { .. }, Event::Extracted(Some(event))) => Some(
                Message::Report(event),
            ),
            _ => None,
        }
    }
}

fn start_reading<Q, O, R>(query: Q, objects: Vec<O>) -> (monitor: Monitor<Q, O, R>)
    ensures
        monitor@ == MonitorView::<Q, O, R>::reading(query, objects@),
{
    let mut rest = objects;
    if rest.is_empty() {
        Monitor::Listening(Some(query))
    } else {
        let object = rest.remove(0);
        assert(rest@ =~= objects@.drop_first());
        Monitor::Reading { query, object, rest }
    }
}

impl<Q, O, R> Monitor<Q, O, R> {
    /// A listener that has just begun.
    pub fn new() -> (monitor: Self)
        ensures
            monitor@ == MonitorView::<Q, O, R>::Connecting,
    {
        Monitor::Connecting
    }

    /// What the listener thread does next. With a query to poll it only peeks at its commands;
    /// without one it blocks until a command arrives.
    pub fn action(&self) -> (action: Action<'_, Q, O>)
        ensures
            action == (match self@ {
                MonitorView::Connecting => Action::Connect,
                MonitorView::Listening(None) => Action::AwaitCommand(IDLE_WAIT_SECS),
                MonitorView::Listening(Some(_)) => Action::PeekCommand,
                MonitorView::Starting { options, .. } => Action::StartQuery(&options),
                MonitorView::Polling(query) => Action::Poll(&query, POLL_TIMEOUT_MS, POLL_BATCH),
                MonitorView::Reading { object, .. } => Action::Extract(&object),
                MonitorView::Stopped => Action::Stop,
            }),
    {
        match self {
            Monitor::Connecting => Action::Connect,
            Monitor::Listening(None) => Action::AwaitCommand(IDLE_WAIT_SECS),
            Monitor::Listening(Some(_)) => Action::PeekCommand,
            Monitor::Starting { options, .. } => Action::StartQuery(options),
            Monitor::Polling(query) => Action::Poll(query, POLL_TIMEOUT_MS, POLL_BATCH),
            Monitor::Reading { object, .. } => Action::Extract(object),
            Monitor::Stopped => Action::Stop,
        }
    }

    /// Takes what came of the action, and says what to pass on.
    pub fn next(self, event: Event<Q, O, R>) -> (next: (Self, Option<Message<R>>))
        ensures
            next.0@ == self@.after(event),
            next.1 == self@.message_on(event),
    {
        match (self, event) {
            (Monitor::Connecting, Event::Connected(result)) => {
                let next = match &result {
                    Ok(_) => Monitor::Listening(None),
                    Err(_) => Monitor::Stopped,
                };
                (next, Some(Message::Init(result)))
            },
            (Monitor::Listening(active), Event::Received(command)) => match command {
                Command::Query(options, reply) => (
                    Monitor::Starting { options, reply, active },
                    None,
                ),
                Command::Close => (Monitor::Stopped, None),
            },
            (Monitor::Listening(active), Event::Quiet) => match active {
                Some(query) => (Monitor::Polling(query), None),
                None => (Monitor::Listening(None), None),
            },
            (Monitor::Listening(_), Event::Disconnected) => (Monitor::Stopped, None),
            (Monitor::Starting { options: _, reply, active }, Event::Started(result)) =>
                match result {
                    Ok(query) => (
                        Monitor::Listening(Some(query)),
                        Some(Message::Query(reply, Ok(()))),
                    ),
                    Err(error) => (
                        Monitor::Listening(active),
                        Some(Message::Query(reply, Err(error))),
                    ),
                },
            (Monitor::Polling(query), Event::Polled { code, slots, returned }) =>
                match completed(code) {
                    Ok(_) => (start_reading(query, polled_objects(slots, returned)), None),
                    Err(_) => (Monitor::Listening(None), None),
                },
            (Monitor::Reading { query, object: _, rest }, Event::Extracted(reported)) => (
                start_reading(query, rest),
                match reported {
                    Some(event) => Some(Message::Report(event)),
                    None => None,
                },
            ),
            (unchanged, _) => (unchanged, None),
        }
    }
}

/// A poll without slots, or one that says that it filled none, returns nothing.
pub proof fn law_nothing_polled<O>(slots: Vec<Option<O>>, returned: u32, objects: Vec<O>)
    requires
        call_ensures(polled_objects, (slots, returned), objects),
        slots@.len() == 0 || returned == 0,
    ensures
        objects@.len() == 0,
{
    assert(slots@.take(filled(slots@, returned)) =~= Seq::empty());
}

/// One slot more adds its object at the end if the poll says that it filled this slot too and
/// there is an object in it; else it makes no difference. There is no other limit on how many
/// objects a poll returns.
pub proof fn law_one_slot_more<O>(
    slots: Vec<Option<O>>,
    more: Vec<Option<O>>,
    slot: Option<O>,
    returned: u32,
    objects: Vec<O>,
    more_objects: Vec<O>,
)
    requires
        call_ensures(polled_objects, (slots, returned), objects),
        call_ensures(polled_objects, (more, returned), more_objects),
        more@ == slots@.push(slot),
    ensures
        slots@.len() < returned && slot is Some ==> more_objects@ == objects@.push(slot->Some_0),
        slots@.len() >= returned || slot is None ==> more_objects@ == objects@,
{
    if slots@.len() < returned {
        assert(slots@.take(slots@.len() as int) =~= slots@);
        assert(more@.take(more@.len() as int) =~= more@);
        assert(more@.drop_last() =~= slots@);
    } else {
        assert(more@.take(returned as int) =~= slots@.take(returned as int));
    }
}

/// Where a poll fills the slots from the first on, as many as it says, every one of their
/// objects is returned, each in its place.
pub proof fn law_filled_slots_are_returned<O>(
    slots: Vec<Option<O>>,
    returned: u32,
    objects: Vec<O>,
)
    requires
        call_ensures(polled_objects, (slots, returned), objects),
        returned <= slots@.len(),
        forall|i: int| 0 <= i < returned ==> #[trigger] slots@[i] is Some,
    ensures
        objects@.len() == returned,
        forall|i: int| 0 <= i < returned ==> slots@[i] == Some(#[trigger] objects@[i]),
{
    let filled_slots = slots@.take(returned as int);
    assert forall|i: int| 0 <= i < filled_slots.len() implies #[trigger] filled_slots[i] is Some by {
        assert(filled_slots[i] == slots@[i]);
    }
    lemma_all_present(filled_slots);
    assert(slots@.take(filled(slots@, returned)) =~= filled_slots);
    assert forall|i: int| 0 <= i < returned implies slots@[i] == Some(#[trigger] objects@[i]) by {
        assert(filled_slots[i] == slots@[i]);
    }
}

/// The object of every slot that counts is returned, right behind the objects of the slots
/// before it.
pub proof fn law_no_object_is_lost<O>(
    slots: Vec<Option<O>>,
    earlier: Vec<Option<O>>,
    returned: u32,
    i: int,
    objects: Vec<O>,
    earlier_objects: Vec<O>,
)
    requires
        call_ensures(polled_objects, (slots, returned), objects),
        call_ensures(polled_objects, (earlier, returned), earlier_objects),
        0 <= i < slots@.len(),
        i < returned,
        slots@[i] is Some,
        earlier@ == slots@.take(i),
    ensures
        objects@.contains(slots@[i]->Some_0),
        earlier_objects@.len() < objects@.len(),
        objects@[earlier_objects@.len() as int] == slots@[i]->Some_0,
        objects@.take(earlier_objects@.len() as int) == earlier_objects@,
{
    let end = filled(slots@, returned);
    let counted = slots@.take(end);
    assert(earlier@.take(filled(earlier@, returned)) =~= counted.take(i));
    lemma_present_in_place(counted, i);
    assert(counted[i] == slots@[i]);
    assert(objects@[earlier_objects@.len() as int] == slots@[i]->Some_0);
}

/// Nothing is returned that was not in a slot that counts.
pub proof fn law_no_object_is_made_up<O>(
    slots: Vec<Option<O>>,
    returned: u32,
    objects: Vec<O>,
    k: int,
)
    requires
        call_ensures(polled_objects, (slots, returned), objects),
        0 <= k < objects@.len(),
    ensures
        exists|i: int|
            0 <= i < slots@.len() && i < returned && #[trigger] slots@[i] == Some(objects@[k]),
        objects@.len() <= returned,
        objects@.len() <= slots@.len(),
{
    let counted = slots@.take(filled(slots@, returned));
    lemma_present_from(counted, k);
    let i = choose|i: int| 0 <= i < counted.len() && #[trigger] counted[i] == Some(objects@[k]);
    assert(slots@[i] == Some(objects@[k]));
}

proof fn lemma_all_present<O>(slots: Seq<Option<O>>)
    requires
        forall|i: int| 0 <= i < slots.len() ==> #[trigger] slots[i] is Some,
    ensures
        present(slots).len() == slots.len(),
        forall|i: int| 0 <= i < slots.len() ==> slots[i] == Some(#[trigger] present(slots)[i]),
    decreases slots.len(),
{
    if slots.len() > 0 {
        let front = slots.drop_last();
        assert forall|i: int| 0 <= i < front.len() implies #[trigger] front[i] is Some by {
            assert(front[i] == slots[i]);
        }
        lemma_all_present(front);
        assert(slots[slots.len() - 1] is Some);
        assert forall|i: int| 0 <= i < slots.len() implies slots[i] == Some(
            #[trigger] present(slots)[i],
        ) by {
            if i < front.len() {
                assert(front[i] == Some(present(front)[i]));
            }
        }
    }
}

proof fn lemma_present_in_place<O>(slots: Seq<Option<O>>, i: int)
    requires
        0 <= i < slots.len(),
        slots[i] is Some,
    ensures
        present(slots.take(i)).len() < present(slots).len(),
        present(slots)[present(slots.take(i)).len() as int] == slots[i]->Some_0,
        present(slots).take(present(slots.take(i)).len() as int) == present(slots.take(i)),
    decreases slots.len(),
{
    let before = present(slots.take(i));
    let front = slots.drop_last();
    if i == slots.len() - 1 {
        assert(front =~= slots.take(i));
        assert(present(slots).take(before.len() as int) =~= before);
    } else {
        lemma_present_in_place(front, i);
        assert(front.take(i) =~= slots.take(i));
        assert(present(slots).take(before.len() as int) =~= present(front).take(
            before.len() as int,
        ));
    }
}

proof fn lemma_present_from<O>(slots: Seq<Option<O>>, k: int)
    requires
        0 <= k < present(slots).len(),
    ensures
        exists|i: int| 0 <= i < slots.len() && #[trigger] slots[i] == Some(present(slots)[k]),
        present(slots).len() <= slots.len(),
    decreases slots.len(),
{
    let front = slots.drop_last();
    lemma_no_more_present(front);
    if k < present(front).len() {
        lemma_present_from(front, k);
        let i = choose|i: int| 0 <= i < front.len() && #[trigger] front[i] == Some(
            present(front)[k],
        );
        assert(slots[i] == Some(present(slots)[k]));
    } else {
        assert(slots[slots.len() - 1] == Some(present(slots)[k]));
    }
}

proof fn lemma_no_more_present<O>(slots: Seq<Option<O>>)
    ensures
        present(slots).len() <= slots.len(),
    decreases slots.len(),
{
    if slots.len() > 0 {
        lemma_no_more_present(slots.drop_last());
    }
}

/// A listener begins with the connection. Who created it is told the outcome as it is; a
/// listener that is connected has no query and waits for a command, one that is not ends.
pub proof fn law_connection_comes_first<Q, O, R>(
    monitor: Monitor<Q, O, R>,
    result: Result<(), Error>,
    next: (Monitor<Q, O, R>, Option<Message<R>>),
)
    requires
        call_ensures(Monitor::<Q, O, R>::new, (), monitor),
        call_ensures(Monitor::<Q, O, R>::next, (monitor, Event::Connected(result)), next),
    ensures
        monitor is Connecting,
        next.1 == Some(Message::<R>::Init(result)),
        result is Ok ==> next.0 == Monitor::<Q, O, R>::Listening(None),
        result is Err ==> next.0 is Stopped,
{
}

/// The action that is due, with its figures: an idle listener blocks for an hour at most, a poll
/// takes half a second and sixteen objects at most.
pub proof fn law_due_actions<Q, O, R>(monitor: Monitor<Q, O, R>, action: Action<'_, Q, O>)
    requires
        call_ensures(Monitor::<Q, O, R>::action, (&monitor,), action),
    ensures
        monitor is Connecting ==> action is Connect,
        monitor matches Monitor::Listening(None) ==> action == Action::<Q, O>::AwaitCommand(3600),
        monitor matches Monitor::Listening(Some(_)) ==> action is PeekCommand,
        monitor matches Monitor::Starting { options, .. } ==> action
            == Action::<Q, O>::StartQuery(&options),
        monitor matches Monitor::Polling(query) ==> action == Action::<Q, O>::Poll(
            &query,
            500,
            16,
        ),
        monitor matches Monitor::Reading { object, .. } ==> action == Action::<Q, O>::Extract(
            &object,
        ),
        monitor is Stopped ==> action is Stop,
{
}

/// A query that is asked for is the query that is started: the options that the listener thread
/// is to start with are, field by field, those of the command. Nobody is told anything yet, and
/// the query that runs stays.
pub proof fn law_queries_start_as_asked<Q, O, R>(
    active: Option<Q>,
    options: QueryOptions,
    reply: R,
    next: (Monitor<Q, O, R>, Option<Message<R>>),
    action: Action<'_, Q, O>,
)
    requires
        call_ensures(
            Monitor::<Q, O, R>::next,
            (Monitor::Listening(active), Event::Received(Command::Query(options, reply))),
            next,
        ),
        call_ensures(Monitor::<Q, O, R>::action, (&next.0,), action),
    ensures
        action matches Action::StartQuery(started) && {
            &&& started.kind == options.kind
            &&& started.filter_windows_noise == options.filter_windows_noise
            &&& started.filter_usual_program_locations == options.filter_usual_program_locations
            &&& started.whitelist == options.whitelist
            &&& started.filter@ == options.filter@
        },
        next.0 == (Monitor::<Q, O, R>::Starting { options, reply, active }),
        next.1 is None,
{
}

/// Who asked for a query is told how its start went. A query that was started takes the place of
/// the one before; one that was not leaves it.
pub proof fn law_starts_are_answered<Q, O, R>(
    options: QueryOptions,
    reply: R,
    active: Option<Q>,
    result: Result<Q, Error>,
    next: (Monitor<Q, O, R>, Option<Message<R>>),
)
    requires
        call_ensures(
            Monitor::<Q, O, R>::next,
            (Monitor::Starting { options, reply, active }, Event::Started(result)),
            next,
        ),
    ensures
        result matches Ok(query) ==> {
            &&& next.0 == Monitor::<Q, O, R>::Listening(Some(query))
            &&& next.1 == Some(Message::Query(reply, Ok(())))
        },
        result matches Err(error) ==> {
            &&& next.0 == Monitor::<Q, O, R>::Listening(active)
            &&& next.1 == Some(Message::Query(reply, Err(error)))
        },
{
}

/// A listener that is told to close, or can be told nothing any more, ends. One that finds no
/// command polls its query, or goes on waiting where it has none. Nobody is told anything.
pub proof fn law_other_commands<Q, O, R>(
    active: Option<Q>,
    event: Event<Q, O, R>,
    next: (Monitor<Q, O, R>, Option<Message<R>>),
)
    requires
        call_ensures(Monitor::<Q, O, R>::next, (Monitor::Listening(active), event), next),
    ensures
        event matches Event::Received(Command::Close) ==> next.0 is Stopped && next.1 is None,
        event is Disconnected ==> next.0 is Stopped && next.1 is None,
        event is Quiet && active is Some ==> next.0 == Monitor::<Q, O, R>::Polling(active->Some_0)
            && next.1 is None,
        event is Quiet && active is None ==> next.0 == Monitor::<Q, O, R>::Listening(None)
            && next.1 is None,
{
}

/// A poll that fails ends its query, but not the listener. After any other the objects that it
/// returned are worked off, all of them and from the first on, and then the commands are looked
/// at again. A poll tells nobody anything.
pub proof fn law_polls_are_worked_off<Q, O, R>(
    query: Q,
    code: i32,
    slots: Vec<Option<O>>,
    returned: u32,
    objects: Vec<O>,
    next: (Monitor<Q, O, R>, Option<Message<R>>),
)
    requires
        call_ensures(
            Monitor::<Q, O, R>::next,
            (Monitor::Polling(query), Event::Polled { code, slots, returned }),
            next,
        ),
        call_ensures(polled_objects, (slots, returned), objects),
    ensures
        next.1 is None,
        code < 0 ==> next.0 == Monitor::<Q, O, R>::Listening(None),
        code >= 0 && objects@.len() == 0 ==> next.0 == Monitor::<Q, O, R>::Listening(Some(query)),
        code >= 0 && objects@.len() > 0 ==> (
        next.0 matches Monitor::Reading { query: polled, object, rest } && {
            &&& polled == query
            &&& object == objects@[0]
            &&& rest@ == objects@.skip(1)
        }),
{
}

/// What an object reports is passed on as it is, and then the next object is due. After the last
/// one the commands are looked at again. The query goes on.
pub proof fn law_objects_are_reported_in_turn<Q, O, R>(
    query: Q,
    object: O,
    rest: Vec<O>,
    reported: Option<ProcessEvent>,
    next: (Monitor<Q, O, R>, Option<Message<R>>),
)
    requires
        call_ensures(
            Monitor::<Q, O, R>::next,
            (Monitor::Reading { query, object, rest }, Event::Extracted(reported)),
            next,
        ),
    ensures
        reported matches Some(event) ==> next.1 == Some(Message::<R>::Report(event)),
        reported is None ==> next.1 is None,
        rest@.len() == 0 ==> next.0 == Monitor::<Q, O, R>::Listening(Some(query)),
        rest@.len() > 0 ==> (
        next.0 matches Monitor::Reading { query: polled, object: due, rest: left } && {
            &&& polled == query
            &&& due == rest@[0]
            &&& left@ == rest@.skip(1)
        }),
{
}

/// The events that a listener awaits are those that can come of the action that is due.
pub proof fn law_awaited_events<Q, O, R>(
    monitor: Monitor<Q, O, R>,
    action: Action<'_, Q, O>,
    event: Event<Q, O, R>,
)
    requires
        call_ensures(Monitor::<Q, O, R>::action, (&monitor,), action),
    ensures
        monitor@.awaits(event) <==> {
            ||| action is Connect && event is Connected
            ||| (action is AwaitCommand || action is PeekCommand) && (event is Received
                || event is Quiet || event is Disconnected)
            ||| action is StartQuery && event is Started
            ||| action is Poll && event is Polled
            ||| action is Extract && event is Extracted
        },
{
}

/// An event that can not come of the action that is due changes nothing and tells nobody
/// anything; nothing ever comes of a listener that has ended.
pub proof fn law_undue_events_change_nothing<Q, O, R>(
    monitor: Monitor<Q, O, R>,
    action: Action<'_, Q, O>,
    event: Event<Q, O, R>,
    next: (Monitor<Q, O, R>, Option<Message<R>>),
)
    requires
        call_ensures(Monitor::<Q, O, R>::action, (&monitor,), action),
        call_ensures(Monitor::<Q, O, R>::next, (monitor, event), next),
        action is Connect ==> !(event is Connected),
        action is AwaitCommand || action is PeekCommand ==> !(event is Received
            || event is Quiet || event is Disconnected),
        action is StartQuery ==> !(event is Started),
        action is Poll ==> !(event is Polled),
        action is Extract ==> !(event is Extracted),
    ensures
        next.1 is None,
        monitor is Reading || next.0 == monitor,
        monitor matches Monitor::Reading { query, object, rest } ==> (
        next.0 matches Monitor::Reading { query: polled, object: due, rest: left } && {
            &&& polled == query
            &&& due == object
            &&& left@ == rest@
        }),
{
}

} // verus!
