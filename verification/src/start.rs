//! The calls that start a notification query.

use vstd::prelude::*;

use crate::error::Error;
use crate::query::{build_query, query_text, QueryOptions};

verus! {

/// The query language that WMI is told.
pub const QUERY_LANGUAGE: &'static str = "WQL";

/// How far the start of a query has come. `Q` is the running query that WMI hands out.
#[derive(Debug)]
pub enum QueryStart<Q> {
    /// This query text is to be executed.
    Execute(String),
    /// The query runs; its proxy still needs its own security settings.
    Secure(Q),
    /// The start is over.
    Finished(Result<Q, Error>),
}

/// What came of a call that starts a query; a failed call has the message of its failure.
#[derive(Debug)]
pub enum StartOutcome<Q> {
    Executed(Result<Q, String>),
    Secured(Result<(), String>),
}

impl<Q> QueryStart<Q> {
    /// The start of the query that the options ask for.
    pub fn new(options: &QueryOptions) -> (start: Self)
        ensures
            start matches QueryStart::Execute(text) && text@ == query_text(*options),
    {
        QueryStart::Execute(build_query(options))
    }

    /// Where an outcome leads. A failure at either call is reported with its own message. An
    /// outcome of another call than the one that is due changes nothing.
    pub open spec fn after(self, outcome: StartOutcome<Q>) -> QueryStart<Q> {
        match (self, outcome) {
            (QueryStart::Execute(_), StartOutcome::Executed(Ok(query))) => QueryStart::Secure(
                query,
            ),
            (QueryStart::Execute(_), StartOutcome::Executed(Err(message))) => QueryStart::Finished(
                Err(Error::Query(message)),
            ),
            (QueryStart::Secure(query), StartOutcome::Secured(Ok(_))) => QueryStart::Finished(
                Ok(query),
            ),
            (QueryStart::Secure(_), StartOutcome::Secured(Err(message))) => QueryStart::Finished(
                Err(Error::Query(message)),
            ),
            _ => self,
        }
    }

    /// Takes the outcome of the call that is due.
    pub fn next(self, outcome: StartOutcome<Q>) -> (next: Self)
        ensures
            next == self.after(outcome),
    {
        match self {
            QueryStart::Execute(text) => match outcome {
                StartOutcome::Executed(Ok(query)) => QueryStart::Secure(query),
                StartOutcome::Executed(Err(message)) => QueryStart::Finished(
                    Err(Error::Query(message)),
                ),
                StartOutcome::Secured(_) => QueryStart::Execute(text),
            },
            QueryStart::Secure(query) => match outcome {
                StartOutcome::Secured(Ok(_)) => QueryStart::Finished(Ok(query)),
                StartOutcome::Secured(Err(message)) => QueryStart::Finished(
                    Err(Error::Query(message)),
                ),
                StartOutcome::Executed(_) => QueryStart::Secure(query),
            },
            QueryStart::Finished(result) => QueryStart::Finished(result),
        }
    }
}

/// A query starts exactly when both calls succeed, and is then the one that was executed; else
/// the message of the call that failed is reported.
pub proof fn law_start_needs_both_calls<Q>(
    text: String,
    executed: Result<Q, String>,
    secured: Result<(), String>,
)
    ensures
        QueryStart::Execute(text).after(StartOutcome::Executed(executed)).after(
            StartOutcome::Secured(secured),
        ) == QueryStart::Finished(
            match (executed, secured) {
                (Ok(query), Ok(_)) => Ok(query),
                (Err(message), _) => Err(Error::Query(message)),
                (_, Err(message)) => Err(Error::Query(message)),
            },
        ),
{
}

/// The text that is executed is the query of the options that were asked for.
pub proof fn law_the_built_query_is_executed<Q>(
    options: QueryOptions,
    query: String,
    start: QueryStart<Q>,
)
    requires
        call_ensures(QueryStart::<Q>::new, (&options,), start),
        call_ensures(build_query, (&options,), query),
    ensures
        start matches QueryStart::Execute(text) && text@ == query@,
{
}

/// The query that was executed is the one that runs when its proxy is secured too. A failure of
/// either call ends the start, with the message that came with it.
pub proof fn law_start_outcomes<Q>(
    text: String,
    executed: Result<Q, String>,
    secured: Result<(), String>,
    first: QueryStart<Q>,
    second: QueryStart<Q>,
)
    requires
        call_ensures(
            QueryStart::<Q>::next,
            (QueryStart::Execute(text), StartOutcome::Executed(executed)),
            first,
        ),
        call_ensures(QueryStart::<Q>::next, (first, StartOutcome::Secured(secured)), second),
    ensures
        executed matches Err(message) ==> {
            &&& first == QueryStart::<Q>::Finished(Err(Error::Query(message)))
            &&& second == first
        },
        executed matches Ok(query) ==> {
            &&& first == QueryStart::Secure(query)
            &&& secured is Ok ==> second == QueryStart::Finished(Ok(query))
            &&& secured matches Err(message) ==> second == QueryStart::<Q>::Finished(
                Err(Error::Query(message)),
            )
        },
{
}

/// An outcome of a call that is not due changes nothing.
pub proof fn law_undue_outcomes_change_nothing<Q>(
    start: QueryStart<Q>,
    outcome: StartOutcome<Q>,
    next: QueryStart<Q>,
)
    requires
        call_ensures(QueryStart::<Q>::next, (start, outcome), next),
        start is Execute ==> !(outcome is Executed),
        start is Secure ==> !(outcome is Secured),
    ensures
        next == start,
{
}

} // verus!
