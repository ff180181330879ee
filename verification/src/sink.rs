//! The event sink as its callers see it: creating it, subscribing to events, closing it.

use vstd::prelude::*;

use crate::error::Error;
use crate::query::QueryOptions;

verus! {

/// How long a caller waits for the listener thread to answer, in seconds.
pub const REPLY_TIMEOUT_SECS: u64 = 30;

/// What a caller is told whose sink is not there, or has a listener that takes no commands.
pub open spec fn not_initialized_text() -> Seq<char> {
    "Event sink is not initialized"@
}

fn not_initialized() -> (message: String)
    ensures
        message@ == not_initialized_text(),
{
    "Event sink is not initialized".to_owned()
}

/// The place of the one listener that a process has at most. `H` is a handle to a listener
/// thread.
#[derive(Debug)]
pub struct ListenerSlot<H> {
    pub handle: Option<H>,
}

/// What a request to create the sink needs.
#[derive(Debug, Clone, Copy, PartialEq, Eq, Structural)]
pub enum Creation {
    /// Nothing: a listener is at work already.
    Done,
    /// A new listener thread.
    Spawn,
}

/// What came from the listener thread within the time that a caller waits.
#[derive(Debug)]
pub enum Answer {
    Replied(Result<(), Error>),
    /// Nothing came.
    Silence,
}

/// How a request to create the sink ended.
#[derive(Debug)]
pub struct Created<H> {
    /// What the caller is told.
    pub result: Result<(), String>,
    /// A listener that is ending, to be waited for.
    pub ending: Option<H>,
}

/// What a caller is told whose listener thread could not be spawned, for this reason.
pub fn spawn_failed(reason: &str) -> (message: String)
    ensures
        message@ == "Failed to spawn listener thread: "@ + reason@,
{
    "Failed to spawn listener thread: ".to_owned().concat(reason)
}

/// What a reply of the listener means to the caller who waited for it.
pub open spec fn told(reply: Result<(), Error>, result: Result<(), String>) -> bool {
    match (reply, result) {
        (Ok(_), Ok(_)) => true,
        (Err(error), Err(message)) => message@ == error.text(),
        _ => false,
    }
}

fn tell(reply: Result<(), Error>) -> (result: Result<(), String>)
    ensures
        told(reply, result),
{
    match reply {
        Ok(_) => Ok(()),
        Err(error) => Err(error.message()),
    }
}

impl<H> ListenerSlot<H> {
    /// What a caller who wants a sink needs. `finished` says whether the thread of the listener
    /// that is there has ended; it makes no difference where none is.
    pub open spec fn needed(self, finished: bool) -> Creation {
        if self.handle is Some && !finished {
            Creation::Done
        } else {
            Creation::Spawn
        }
    }

    /// The place after a caller has asked for a sink: a listener that is at work stays, one
    /// whose thread has ended is given up.
    pub open spec fn after_request(self, finished: bool) -> ListenerSlot<H> {
        ListenerSlot {
            handle: if finished {
                None
            } else {
                self.handle
            },
        }
    }

    /// The place after a listener was spawned: only one that says that it is connected takes it.
    pub open spec fn after_spawn(self, handle: H, answer: Answer) -> ListenerSlot<H> {
        ListenerSlot {
            handle: if answer matches Answer::Replied(Ok(_)) {
                Some(handle)
            } else {
                self.handle
            },
        }
    }

    /// The place after the sink was closed.
    pub open spec fn after_close(self) -> ListenerSlot<H> {
        ListenerSlot { handle: None }
    }

    /// Why a query is not even sent to the listener, if so.
    pub open spec fn refusal(self) -> Option<Seq<char>> {
        match self.handle {
            Some(_) => None,
            None => Some(not_initialized_text()),
        }
    }

    /// A place without a listener.
    pub fn new() -> (slot: Self)
        ensures
            slot.handle is None,
    {
        ListenerSlot { handle: None }
    }

    /// A caller wants a sink. `finished` says whether the thread of the listener that is there
    /// has ended.
    pub fn create_requested(&mut self, finished: bool) -> (creation: Creation)
        ensures
            creation == old(self).needed(finished),
            *final(self) == old(self).after_request(finished),
    {
        if self.handle.is_some() {
            if !finished {
                return Creation::Done;
            }
            self.handle = None;
        }
        Creation::Spawn
    }

    /// The thread that a caller wanted was spawned, and this is what came from it. A listener
    /// that says that it failed is about to end and is handed back to be waited for; one that
    /// says nothing is left alone.
    pub fn listener_spawned(&mut self, handle: H, answer: Answer) -> (created: Created<H>)
        ensures
            match answer {
                Answer::Replied(reply) => told(reply, created.result),
                Answer::Silence => created.result matches Err(message) && message@
                    == "Timed out while initializing the event sink"@,
            },
            created.ending == (if answer matches Answer::Replied(Err(_)) {
                Some(handle)
            } else {
                None
            }),
            *final(self) == old(self).after_spawn(handle, answer),
    {
        match answer {
            Answer::Replied(reply) => {
                let result = tell(reply);
                if result.is_ok() {
                    self.handle = Some(handle);
                    Created { result, ending: None }
                } else {
                    Created { result, ending: Some(handle) }
                }
            },
            Answer::Silence => Created {
                result: Err("Timed out while initializing the event sink".to_owned()),
                ending: None,
            },
        }
    }

    /// A caller has a query for the listener. Says which listener it goes to.
    pub fn query_requested(&self) -> (listener: Result<&H, String>)
        ensures
            match listener {
                Ok(handle) => self.refusal() is None && self.handle == Some(*handle),
                Err(message) => self.refusal() == Some(message@),
            },
    {
        match &self.handle {
            Some(handle) => Ok(handle),
            None => Err(not_initialized()),
        }
    }

    /// A caller wants the sink closed. The listener that is there gives up its place and is
    /// handed out, to be told to close and to be waited for.
    pub fn close_requested(&mut self) -> (closing: Option<H>)
        ensures
            closing == old(self).handle,
            *final(self) == old(self).after_close(),
    {
        self.handle.take()
    }
}

/// Where the query of a subscription goes. Options that were refused are refused for their own
/// reason, whether there is a listener or not.
pub fn query_target<H>(slot: &ListenerSlot<H>, options: Result<QueryOptions, String>) -> (target:
    Result<(&H, QueryOptions), String>)
    ensures
        match (options, slot.handle) {
            (Err(message), _) => target == Err::<(&H, QueryOptions), String>(message),
            (Ok(_), None) => target matches Err(message) && message@ == not_initialized_text(),
            (Ok(options), Some(handle)) => target == Ok::<(&H, QueryOptions), String>(
                (&handle, options),
            ),
        },
{
    match options {
        Ok(options) => match slot.query_requested() {
            Ok(handle) => Ok((handle, options)),
            Err(message) => Err(message),
        },
        Err(message) => Err(message),
    }
}

/// What came of a query that was sent to the listener.
#[derive(Debug)]
pub enum QueryAnswer {
    /// The listener takes no commands any more.
    Unsent,
    Sent(Answer),
}

/// What the caller of a query is told.
pub fn query_answered(answer: QueryAnswer) -> (result: Result<(), String>)
    ensures
        match answer {
            QueryAnswer::Unsent => result matches Err(message) && message@
                == not_initialized_text(),
            QueryAnswer::Sent(Answer::Replied(reply)) => told(reply, result),
            QueryAnswer::Sent(Answer::Silence) => result matches Err(message) && message@
                == "Timed out while starting the WQL query"@,
        },
{
    match answer {
        QueryAnswer::Unsent => Err(not_initialized()),
        QueryAnswer::Sent(Answer::Replied(reply)) => tell(reply),
        QueryAnswer::Sent(Answer::Silence) => Err(
            "Timed out while starting the WQL query".to_owned(),
        ),
    }
}

/// A subscription that is to be made later, on another thread.
#[derive(Debug)]
pub struct QueryTask {
    pub options: Option<QueryOptions>,
    pub error: Option<String>,
}

impl QueryTask {
    /// Whether the task still has its options, or else the reason why it has none.
    pub open spec fn pending(self) -> bool {
        self.options is Some != self.error is Some
    }

    /// The options of a task that is pending, or the reason why it has none.
    pub open spec fn content(self) -> Result<QueryOptions, String> {
        match self.error {
            Some(message) => Err(message),
            None => Ok(self.options->Some_0),
        }
    }

    /// A task for the options of a subscription, or for the reason why they were refused.
    pub fn new(options: Result<QueryOptions, String>) -> (task: Self)
        ensures
            task.pending(),
            task.content() == options,
    {
        match options {
            Ok(options) => QueryTask { options: Some(options), error: None },
            Err(message) => QueryTask { options: None, error: Some(message) },
        }
    }

    /// Takes the options out to be sent, or the reason why there are none. This works once.
    pub fn take(&mut self) -> (options: Result<QueryOptions, String>)
        requires
            old(self).pending(),
        ensures
            options == old(self).content(),
            final(self).options is None,
            final(self).error is None,
    {
        match self.error.take() {
            Some(message) => Err(message),
            None => Ok(self.options.take().unwrap()),
        }
    }
}

/// Creating the sink again while its listener is at work needs nothing and changes nothing.
pub proof fn law_creation_is_idempotent<H>(slot: ListenerSlot<H>, handle: H)
    ensures
        slot.after_spawn(handle, Answer::Replied(Ok(()))).needed(false) == Creation::Done,
        slot.after_spawn(handle, Answer::Replied(Ok(()))).after_request(false)
            == slot.after_spawn(handle, Answer::Replied(Ok(()))),
{
}

/// A listener whose thread has ended does not stand in the way of a new one.
pub proof fn law_dead_listeners_are_replaced<H>(slot: ListenerSlot<H>, handle: H)
    ensures
        slot.needed(true) == Creation::Spawn,
        slot.after_request(true).after_spawn(handle, Answer::Replied(Ok(()))).handle == Some(
            handle,
        ),
{
}

/// Where a sink had to be created and its listener did not say that it is connected, there is
/// no sink: no query is sent, and the next request needs a listener again.
pub proof fn law_failed_creation_leaves_no_sink<H>(
    slot: ListenerSlot<H>,
    finished: bool,
    handle: H,
    answer: Answer,
    later: bool,
)
    requires
        slot.needed(finished) == Creation::Spawn,
        !(answer matches Answer::Replied(Ok(_))),
    ensures
        ({
            let failed = slot.after_request(finished).after_spawn(handle, answer);
            &&& failed.handle is None
            &&& failed.refusal() == Some(not_initialized_text())
            &&& failed.needed(later) == Creation::Spawn
        }),
{
}

/// After closing there is no sink: no query is sent, closing again finds nothing to close, and
/// a new sink needs a new listener.
pub proof fn law_closed_for_all<H>(slot: ListenerSlot<H>, finished: bool)
    ensures
        slot.after_close().refusal() == Some(not_initialized_text()),
        slot.after_close().handle is None,
        slot.after_close().after_close() == slot.after_close(),
        slot.after_close().needed(finished) == Creation::Spawn,
{
}

/// The reason why a thread could not be spawned is told in full.
pub proof fn law_spawn_failures_are_told(reason: &str, message: String)
    requires
        call_ensures(spawn_failed, (reason,), message),
    ensures
        message@ == "Failed to spawn listener thread: "@ + reason@,
{
}

/// A new place has no listener.
pub proof fn law_places_begin_empty<H>(slot: ListenerSlot<H>)
    requires
        call_ensures(ListenerSlot::<H>::new, (), slot),
    ensures
        slot.handle is None,
{
}

/// A listener is spawned exactly where none is at work. One that is at work stays; one whose
/// thread has ended is given up.
pub proof fn law_requests_for_a_sink<H>(
    slot: &mut ListenerSlot<H>,
    finished: bool,
    creation: Creation,
)
    requires
        call_ensures(ListenerSlot::<H>::create_requested, (slot, finished), creation),
    ensures
        old(slot).handle is Some && !finished ==> creation == Creation::Done && final(slot).handle
            == old(slot).handle,
        old(slot).handle is None || finished ==> creation == Creation::Spawn && final(slot).handle
            is None,
{
}

/// Only a listener that says that it is connected takes the place. One that says that it failed
/// is to be waited for, and its caller is told why; one that says nothing is left alone, and its
/// caller is told that the time is over.
pub proof fn law_spawned_listeners<H>(
    slot: &mut ListenerSlot<H>,
    handle: H,
    answer: Answer,
    created: Created<H>,
    reason: String,
)
    requires
        call_ensures(ListenerSlot::<H>::listener_spawned, (slot, handle, answer), created),
        answer matches Answer::Replied(Err(error)) ==> call_ensures(
            Error::message,
            (&error,),
            reason,
        ),
    ensures
        answer matches Answer::Replied(Ok(_)) ==> {
            &&& created.result is Ok
            &&& created.ending is None
            &&& final(slot).handle == Some(handle)
        },
        answer matches Answer::Replied(Err(_)) ==> {
            &&& created.result matches Err(message) && message@ == reason@
            &&& created.ending == Some(handle)
            &&& final(slot).handle == old(slot).handle
        },
        answer is Silence ==> {
            &&& created.result matches Err(message) && message@
                == "Timed out while initializing the event sink"@
            &&& created.ending is None
            &&& final(slot).handle == old(slot).handle
        },
{
}

/// Closing hands out the listener that is there, and leaves none.
pub proof fn law_closing_hands_out_the_listener<H>(slot: &mut ListenerSlot<H>, closing: Option<H>)
    requires
        call_ensures(ListenerSlot::<H>::close_requested, (slot,), closing),
    ensures
        closing == old(slot).handle,
        final(slot).handle is None,
{
}

/// A query goes to the listener that is there, with the options that were asked for. Options
/// that were refused come first; without a listener the caller is told so.
pub proof fn law_where_queries_go<H>(
    slot: ListenerSlot<H>,
    options: Result<QueryOptions, String>,
    listener: Result<&H, String>,
    target: Result<(&H, QueryOptions), String>,
)
    requires
        call_ensures(ListenerSlot::<H>::query_requested, (&slot,), listener),
        call_ensures(query_target, (&slot, options), target),
    ensures
        slot.handle matches Some(handle) ==> (listener matches Ok(there) && *there == handle),
        slot.handle is None ==> (listener matches Err(message) && message@
            == "Event sink is not initialized"@),
        options matches Err(reason) ==> (target matches Err(message) && message@ == reason@),
        options is Ok && slot.handle is None ==> (target matches Err(message) && message@
            == "Event sink is not initialized"@),
        options matches Ok(asked) ==> (slot.handle matches Some(handle) ==> (
        target matches Ok(sent) && *sent.0 == handle && sent.1 == asked)),
{
}

/// The caller of a query is told that it runs exactly where the listener says so, and else why
/// it does not.
pub proof fn law_answers_to_queries(
    answer: QueryAnswer,
    result: Result<(), String>,
    reason: String,
)
    requires
        call_ensures(query_answered, (answer,), result),
        answer matches QueryAnswer::Sent(Answer::Replied(Err(error))) ==> call_ensures(
            Error::message,
            (&error,),
            reason,
        ),
    ensures
        result is Ok <==> (answer matches QueryAnswer::Sent(Answer::Replied(Ok(_)))),
        answer matches QueryAnswer::Sent(Answer::Replied(Err(_))) ==> (
        result matches Err(message) && message@ == reason@),
        answer matches QueryAnswer::Sent(Answer::Silence) ==> (
        result matches Err(message) && message@ == "Timed out while starting the WQL query"@),
        answer is Unsent ==> (result matches Err(message) && message@
            == "Event sink is not initialized"@),
{
}

/// A task holds either the options that were asked for, as they are, or the reason why they were
/// refused.
pub proof fn law_tasks_hold_what_they_got(options: Result<QueryOptions, String>, task: QueryTask)
    requires
        call_ensures(QueryTask::new, (options,), task),
    ensures
        options matches Ok(asked) ==> task.options == Some(asked) && task.error is None,
        options matches Err(reason) ==> task.options is None && task.error == Some(reason),
{
}

/// A task gives out what it was made with, and gives it out once.
pub proof fn law_tasks_give_out_what_they_got(
    options: Result<QueryOptions, String>,
    task: &mut QueryTask,
    taken: Result<QueryOptions, String>,
)
    requires
        call_ensures(QueryTask::new, (options,), *old(task)),
        call_ensures(QueryTask::take, (task,), taken),
    ensures
        options matches Ok(asked) ==> taken == Ok::<QueryOptions, String>(asked),
        options matches Err(reason) ==> taken == Err::<QueryOptions, String>(reason),
        final(task).options is None && final(task).error is None,
{
}

} // verus!
