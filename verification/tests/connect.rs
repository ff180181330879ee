use windows::Win32::Foundation;
use wql_process_monitor::connect::{
    completed, ConnectStep, RPC_E_CHANGED_MODE, RPC_E_TOO_LATE, WMI_NAMESPACE,
};
use wql_process_monitor::error::Error;

fn attempt(outcomes: &[Result<(), i32>]) -> Result<ConnectStep, Error> {
    let mut step = ConnectStep::InitializeCom;
    for outcome in outcomes {
        step = step.next(*outcome)?;
    }
    Ok(step)
}

const FAILED: Result<(), i32> = Err(-2147467259);

#[test]
fn codes_are_those_of_the_system() {
    assert_eq!(RPC_E_CHANGED_MODE, Foundation::RPC_E_CHANGED_MODE.0);
    assert_eq!(RPC_E_TOO_LATE, Foundation::RPC_E_TOO_LATE.0);
    assert_eq!(WMI_NAMESPACE, r"ROOT\CIMV2");
}

#[test]
fn negative_codes_are_failures() {
    for code in [0, 1, i32::MAX, -1, i32::MIN, RPC_E_TOO_LATE, 0x40004] {
        assert_eq!(completed(code).is_err(), windows::core::HRESULT(code).is_err());
    }
    assert_eq!(completed(-5), Err(-5));
    assert_eq!(completed(1), Ok(()));
}

#[test]
fn all_calls_succeed() {
    assert!(matches!(attempt(&[Ok(()); 5]), Ok(ConnectStep::Connected)));
}

#[test]
fn security_may_be_set_already() {
    let outcomes = [Ok(()), Err(RPC_E_TOO_LATE), Ok(()), Ok(()), Ok(())];
    assert!(matches!(attempt(&outcomes), Ok(ConnectStep::Connected)));
}

#[test]
fn each_failure_has_its_error() {
    assert!(matches!(
        attempt(&[Err(RPC_E_CHANGED_MODE)]),
        Err(Error::ComChangedMode)
    ));
    assert!(matches!(attempt(&[FAILED]), Err(Error::ComInit)));
    assert!(matches!(
        attempt(&[Err(RPC_E_TOO_LATE)]),
        Err(Error::ComInit)
    ));
    assert!(matches!(
        attempt(&[Ok(()), FAILED]),
        Err(Error::ComSecurity)
    ));
    assert!(matches!(
        attempt(&[Ok(()), Ok(()), Err(RPC_E_TOO_LATE)]),
        Err(Error::WbemLocator)
    ));
    assert!(matches!(
        attempt(&[Ok(()), Ok(()), Ok(()), FAILED]),
        Err(Error::WbemConnect)
    ));
    assert!(matches!(
        attempt(&[Ok(()), Ok(()), Ok(()), Ok(()), FAILED]),
        Err(Error::ProxyBlanket)
    ));
}

#[test]
fn first_failure_is_reported() {
    assert!(matches!(
        attempt(&[Ok(()), FAILED, FAILED, FAILED]),
        Err(Error::ComSecurity)
    ));
}

#[test]
fn error_messages() {
    let expected = [
        (
            Error::ComChangedMode,
            "COM library for the calling thread already initialized with different threading model. Please use 'COINIT_MULTITHREADED'",
        ),
        (
            Error::ComInit,
            "Failed to initialize COM library for the calling thread",
        ),
        (Error::ComSecurity, "Failed to initialize security"),
        (Error::WbemLocator, "Failed to create IWbemLocator object"),
        (
            Error::WbemConnect,
            r"Could not connect to ROOT\CIMV2 WMI namespace",
        ),
        (Error::ProxyBlanket, "Could not set proxy blanket"),
        (Error::Query("Invalid query".to_string()), "Invalid query"),
    ];
    for (error, message) in expected {
        assert_eq!(error.message(), message);
    }
}
