//! What can go wrong between the listener and WMI.

use vstd::prelude::*;

verus! {

/// Why the listener could not connect to WMI, or could not start a query.
#[derive(Debug)]
pub enum Error {
    ComChangedMode,
    ComInit,
    ComSecurity,
    WbemLocator,
    WbemConnect,
    ProxyBlanket,
    /// A query that WMI refused, with the message that came with the refusal.
    Query(String),
}

impl Error {
    /// What a caller is told about the error.
    pub open spec fn text(self) -> Seq<char> {
        match self {
            Error::ComChangedMode =>
                "COM library for the calling thread already initialized with different threading model. Please use 'COINIT_MULTITHREADED'"@,
            Error::ComInit => "Failed to initialize COM library for the calling thread"@,
            Error::ComSecurity => "Failed to initialize security"@,
            Error::WbemLocator => "Failed to create IWbemLocator object"@,
            Error::WbemConnect => "Could not connect to ROOT\\CIMV2 WMI namespace"@,
            Error::ProxyBlanket => "Could not set proxy blanket"@,
            Error::Query(message) => message@,
        }
    }

    /// The text of the error.
    pub fn message(&self) -> (message: String)
        ensures
            message@ == self.text(),
    {
        match self {
            Error::ComChangedMode =>
                "COM library for the calling thread already initialized with different threading model. Please use 'COINIT_MULTITHREADED'".to_owned(),
            Error::ComInit => "Failed to initialize COM library for the calling thread".to_owned(),
            Error::ComSecurity => "Failed to initialize security".to_owned(),
            Error::WbemLocator => "Failed to create IWbemLocator object".to_owned(),
            Error::WbemConnect => "Could not connect to ROOT\\CIMV2 WMI namespace".to_owned(),
            Error::ProxyBlanket => "Could not set proxy blanket".to_owned(),
            Error::Query(message) => message.clone(),
        }
    }
}

/// Every error says what it is about, each in its own words; what WMI says about a query is
/// handed on character for character.
pub proof fn law_error_messages(error: Error, message: String)
    requires
        call_ensures(Error::message, (&error,), message),
    ensures
        error is ComChangedMode ==> message@
            == "COM library for the calling thread already initialized with different threading model. Please use 'COINIT_MULTITHREADED'"@,
        error is ComInit ==> message@
            == "Failed to initialize COM library for the calling thread"@,
        error is ComSecurity ==> message@ == "Failed to initialize security"@,
        error is WbemLocator ==> message@ == "Failed to create IWbemLocator object"@,
        error is WbemConnect ==> message@ == "Could not connect to ROOT\\CIMV2 WMI namespace"@,
        error is ProxyBlanket ==> message@ == "Could not set proxy blanket"@,
        error matches Error::Query(reason) ==> message@ == reason@,
{
}

} // verus!
