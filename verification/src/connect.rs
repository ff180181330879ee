//! The calls that connect the listener thread to WMI, in their order, and what their outcomes
//! mean.

use vstd::prelude::*;

use crate::error::Error;

verus! {

/// The result code of `CoInitializeEx` on a thread that already has another threading model.
pub const RPC_E_CHANGED_MODE: i32 = -2147417850;

/// The result code of `CoInitializeSecurity` in a process that has its security set already.
pub const RPC_E_TOO_LATE: i32 = -2147417831;

/// The WMI namespace that the listener connects to.
pub const WMI_NAMESPACE: &'static str = "ROOT\\CIMV2";

/// Whether a COM result code means failure. The code of a failure is negative.
///
/// `windows::core::HRESULT::is_err` tells failures by the sign of the code alone.
#[verifier::external_body]
fn hresult_is_err(code: i32) -> (failed: bool)
    ensures
        failed == (code < 0),
{
    windows::core::HRESULT(code).is_err()
}

/// Tells a COM result code of success from one of failure.
pub fn completed(code: i32) -> (outcome: Result<(), i32>)
    ensures
        outcome == (if code < 0 {
            Err::<(), i32>(code)
        } else {
            Ok(())
        }),
{
    if hresult_is_err(code) {
        Err(code)
    } else {
        Ok(())
    }
}

/// The next call of a thread that connects to WMI.
#[derive(Debug, Clone, Copy, PartialEq, Eq, Structural)]
pub enum ConnectStep {
    InitializeCom,
    InitializeSecurity,
    CreateLocator,
    ConnectServer,
    SetProxyBlanket,
    Connected,
}

impl ConnectStep {
    /// The call after this one.
    pub open spec fn successor(self) -> ConnectStep {
        match self {
            ConnectStep::InitializeCom => ConnectStep::InitializeSecurity,
            ConnectStep::InitializeSecurity => ConnectStep::CreateLocator,
            ConnectStep::CreateLocator => ConnectStep::ConnectServer,
            ConnectStep::ConnectServer => ConnectStep::SetProxyBlanket,
            ConnectStep::SetProxyBlanket => ConnectStep::Connected,
            ConnectStep::Connected => ConnectStep::Connected,
        }
    }

    /// Whether the attempt goes on after this outcome. That the host of the process set its
    /// security first does no harm; any other failure ends the attempt.
    pub open spec fn passes(self, outcome: Result<(), i32>) -> bool {
        match outcome {
            Ok(_) => true,
            Err(code) => {
                ||| self == ConnectStep::InitializeSecurity && code == RPC_E_TOO_LATE
                ||| self == ConnectStep::Connected
            },
        }
    }

    /// What a failure of this call, with this code, is reported as.
    pub open spec fn failure(self, code: i32) -> Error {
        match self {
            ConnectStep::InitializeCom => if code == RPC_E_CHANGED_MODE {
                Error::ComChangedMode
            } else {
                Error::ComInit
            },
            ConnectStep::InitializeSecurity => Error::ComSecurity,
            ConnectStep::CreateLocator => Error::WbemLocator,
            ConnectStep::ConnectServer => Error::WbemConnect,
            _ => Error::ProxyBlanket,
        }
    }

    /// What the outcome of this call leads to.
    pub open spec fn after(self, outcome: Result<(), i32>) -> Result<ConnectStep, Error> {
        if self.passes(outcome) {
            Ok(self.successor())
        } else {
            Err(self.failure(outcome->Err_0))
        }
    }

    /// Takes the outcome of this call and says what comes next.
    pub fn next(self, outcome: Result<(), i32>) -> (next: Result<ConnectStep, Error>)
        ensures
            next == self.after(outcome),
    {
        match (self, outcome) {
            (ConnectStep::InitializeCom, Ok(_)) => Ok(ConnectStep::InitializeSecurity),
            (ConnectStep::InitializeCom, Err(code)) => Err(
                if code == RPC_E_CHANGED_MODE {
                    Error::ComChangedMode
                } else {
                    Error::ComInit
                },
            ),
            (ConnectStep::InitializeSecurity, Err(code)) => if code == RPC_E_TOO_LATE {
                Ok(ConnectStep::CreateLocator)
            } else {
                Err(Error::ComSecurity)
            },
            (ConnectStep::InitializeSecurity, Ok(_)) => Ok(ConnectStep::CreateLocator),
            (ConnectStep::CreateLocator, Ok(_)) => Ok(ConnectStep::ConnectServer),
            (ConnectStep::CreateLocator, Err(_)) => Err(Error::WbemLocator),
            (ConnectStep::ConnectServer, Ok(_)) => Ok(ConnectStep::SetProxyBlanket),
            (ConnectStep::ConnectServer, Err(_)) => Err(Error::WbemConnect),
            (ConnectStep::SetProxyBlanket, Ok(_)) => Ok(ConnectStep::Connected),
            (ConnectStep::SetProxyBlanket, Err(_)) => Err(Error::ProxyBlanket),
            (ConnectStep::Connected, _) => Ok(ConnectStep::Connected),
        }
    }
}

/// The calls of a connection attempt, in their order.
pub open spec fn connect_calls() -> Seq<ConnectStep> {
    seq![
        ConnectStep::InitializeCom,
        ConnectStep::InitializeSecurity,
        ConnectStep::CreateLocator,
        ConnectStep::ConnectServer,
        ConnectStep::SetProxyBlanket,
    ]
}

/// Where an attempt stands that has come to `step` and then sees these outcomes, one after
/// another, until one ends it.
pub open spec fn attempt(step: ConnectStep, outcomes: Seq<Result<(), i32>>) -> Result<
    ConnectStep,
    Error,
>
    decreases outcomes.len(),
{
    if outcomes.len() == 0 {
        Ok(step)
    } else {
        match step.after(outcomes[0]) {
            Ok(next) => attempt(next, outcomes.drop_first()),
            Err(error) => Err(error),
        }
    }
}

/// An attempt connects when all of its calls pass.
pub proof fn law_connects_when_all_pass(outcomes: Seq<Result<(), i32>>)
    requires
        outcomes.len() == connect_calls().len(),
        forall|i: int|
            0 <= i < outcomes.len() ==> connect_calls()[i].passes(#[trigger] outcomes[i]),
    ensures
        attempt(ConnectStep::InitializeCom, outcomes) == Ok::<ConnectStep, Error>(
            ConnectStep::Connected,
        ),
{
    lemma_attempt_passes(0, outcomes);
}

/// An attempt ends at the first call that does not pass, and reports what that call's failure
/// means; the calls after it make no difference.
pub proof fn law_first_failure_is_reported(outcomes: Seq<Result<(), i32>>, k: int)
    requires
        0 <= k < connect_calls().len(),
        k < outcomes.len(),
        forall|i: int| 0 <= i < k ==> connect_calls()[i].passes(#[trigger] outcomes[i]),
        !connect_calls()[k].passes(outcomes[k]),
    ensures
        attempt(ConnectStep::InitializeCom, outcomes) == Err::<ConnectStep, Error>(
            connect_calls()[k].failure(outcomes[k]->Err_0),
        ),
{
    lemma_attempt_fails(0, outcomes, k);
}

proof fn lemma_attempt_passes(from: int, outcomes: Seq<Result<(), i32>>)
    requires
        0 <= from < connect_calls().len(),
        outcomes.len() == connect_calls().len() - from,
        forall|i: int|
            0 <= i < outcomes.len() ==> connect_calls()[from + i].passes(#[trigger] outcomes[i]),
    ensures
        attempt(connect_calls()[from], outcomes) == Ok::<ConnectStep, Error>(
            ConnectStep::Connected,
        ),
    decreases outcomes.len(),
{
    let rest = outcomes.drop_first();
    assert(connect_calls()[from + 0].passes(outcomes[0]));
    if from + 1 < connect_calls().len() {
        assert forall|i: int| 0 <= i < rest.len() implies connect_calls()[from + 1 + i].passes(
            #[trigger] rest[i],
        ) by {
            assert(connect_calls()[from + (i + 1)].passes(outcomes[i + 1]));
        }
        lemma_attempt_passes(from + 1, rest);
    } else {
        assert(rest.len() == 0);
        assert(attempt(ConnectStep::Connected, rest) == Ok::<ConnectStep, Error>(
            ConnectStep::Connected,
        ));
    }
}

proof fn lemma_attempt_fails(from: int, outcomes: Seq<Result<(), i32>>, k: int)
    requires
        0 <= from,
        0 <= k < outcomes.len(),
        from + k < connect_calls().len(),
        forall|i: int| 0 <= i < k ==> connect_calls()[from + i].passes(#[trigger] outcomes[i]),
        !connect_calls()[from + k].passes(outcomes[k]),
    ensures
        attempt(connect_calls()[from], outcomes) == Err::<ConnectStep, Error>(
            connect_calls()[from + k].failure(outcomes[k]->Err_0),
        ),
    decreases k,
{
    if k > 0 {
        let rest = outcomes.drop_first();
        assert(connect_calls()[from + 0].passes(outcomes[0]));
        assert forall|i: int| 0 <= i < k - 1 implies connect_calls()[from + 1 + i].passes(
            #[trigger] rest[i],
        ) by {
            assert(connect_calls()[from + (i + 1)].passes(outcomes[i + 1]));
        }
        lemma_attempt_fails(from + 1, rest, k - 1);
    }
}

/// A result code means failure exactly where it is negative, and a failure keeps its code.
pub proof fn law_failures_are_negative(code: i32, outcome: Result<(), i32>)
    requires
        call_ensures(completed, (code,), outcome),
    ensures
        outcome is Ok <==> code >= 0,
        outcome matches Err(failure) ==> failure == code,
{
}

/// Calls that succeed follow each other in one order, from the first to the connection.
pub proof fn law_calls_in_their_order(
    first: Result<ConnectStep, Error>,
    second: Result<ConnectStep, Error>,
    third: Result<ConnectStep, Error>,
    fourth: Result<ConnectStep, Error>,
    fifth: Result<ConnectStep, Error>,
)
    requires
        call_ensures(ConnectStep::next, (ConnectStep::InitializeCom, Ok(())), first),
        call_ensures(ConnectStep::next, (first->Ok_0, Ok(())), second),
        call_ensures(ConnectStep::next, (second->Ok_0, Ok(())), third),
        call_ensures(ConnectStep::next, (third->Ok_0, Ok(())), fourth),
        call_ensures(ConnectStep::next, (fourth->Ok_0, Ok(())), fifth),
    ensures
        first == Ok::<ConnectStep, Error>(ConnectStep::InitializeSecurity),
        second == Ok::<ConnectStep, Error>(ConnectStep::CreateLocator),
        third == Ok::<ConnectStep, Error>(ConnectStep::ConnectServer),
        fourth == Ok::<ConnectStep, Error>(ConnectStep::SetProxyBlanket),
        fifth == Ok::<ConnectStep, Error>(ConnectStep::Connected),
{
}

/// A call that fails, with any code, ends the attempt with the error of this call. Two codes are
/// told apart from all others: a thread that has another threading model has an error of its
/// own, and security that the host of the process has set already is as good as a success. A
/// connection that stands is not lost.
pub proof fn law_failed_calls(
    step: ConnectStep,
    code: i32,
    next: Result<ConnectStep, Error>,
    passed: Result<ConnectStep, Error>,
)
    requires
        call_ensures(ConnectStep::next, (step, Err(code)), next),
        call_ensures(ConnectStep::next, (step, Ok(())), passed),
    ensures
        step == ConnectStep::InitializeCom ==> next == Err::<ConnectStep, Error>(
            if code == -2147417850 {
                Error::ComChangedMode
            } else {
                Error::ComInit
            },
        ),
        step == ConnectStep::InitializeSecurity && code == -2147417831 ==> next == passed,
        step == ConnectStep::InitializeSecurity && code != -2147417831 ==> next == Err::<
            ConnectStep,
            Error,
        >(Error::ComSecurity),
        step == ConnectStep::CreateLocator ==> next == Err::<ConnectStep, Error>(
            Error::WbemLocator,
        ),
        step == ConnectStep::ConnectServer ==> next == Err::<ConnectStep, Error>(
            Error::WbemConnect,
        ),
        step == ConnectStep::SetProxyBlanket ==> next == Err::<ConnectStep, Error>(
            Error::ProxyBlanket,
        ),
        step == ConnectStep::Connected ==> next == Ok::<ConnectStep, Error>(
            ConnectStep::Connected,
        ) && passed == next,
{
}

} // verus!
