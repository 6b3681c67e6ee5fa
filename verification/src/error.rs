//! The closed error taxonomy of a card-reading request.
//!
//! Each variant marks the stage that failed and carries the driver's own
//! error text. A failure is terminal for the request: there is no retry and
//! no partial result. [`NfcError::message`] renders the stage and the driver
//! text as the one human-readable line the caller sees.

use vstd::prelude::*;
use vstd::string::StringExecFns;

verus! {

/// Why a card-reading request failed, with the driver's error text.
pub enum NfcError {
    /// The smart-card subsystem could not be reached.
    SubsystemUnavailable(String),
    /// The reader-listing query failed at the subsystem level.
    EnumerationFailed(String),
    /// Enumeration succeeded but returned zero readers.
    NoReaderFound,
    /// A presence-polling status query failed.
    StatusQueryFailed(String),
    /// Connecting to the presented card failed.
    CardConnectFailed(String),
    /// The APDU exchange failed at the driver level.
    TransmitFailed(String),
}

/// The mathematical value of an [`NfcError`]: the failing stage and the
/// driver text as a character sequence.
pub enum ErrorSpec {
    SubsystemUnavailable(Seq<char>),
    EnumerationFailed(Seq<char>),
    NoReaderFound,
    StatusQueryFailed(Seq<char>),
    CardConnectFailed(Seq<char>),
    TransmitFailed(Seq<char>),
}

impl View for NfcError {
    type V = ErrorSpec;

    open spec fn view(&self) -> ErrorSpec {
        match self {
            NfcError::SubsystemUnavailable(t) => ErrorSpec::SubsystemUnavailable(t@),
            NfcError::EnumerationFailed(t) => ErrorSpec::EnumerationFailed(t@),
            NfcError::NoReaderFound => ErrorSpec::NoReaderFound,
            NfcError::StatusQueryFailed(t) => ErrorSpec::StatusQueryFailed(t@),
            NfcError::CardConnectFailed(t) => ErrorSpec::CardConnectFailed(t@),
            NfcError::TransmitFailed(t) => ErrorSpec::TransmitFailed(t@),
        }
    }
}

/// The human-readable line for an error: the failing stage's name, then the
/// driver's error text.
pub open spec fn spec_message(e: ErrorSpec) -> Seq<char> {
    match e {
        ErrorSpec::SubsystemUnavailable(t) => "Context::establish failed: "@ + t,
        ErrorSpec::EnumerationFailed(t) => "Context::list_readers failed: "@ + t,
        ErrorSpec::NoReaderFound => "No reader found"@,
        ErrorSpec::StatusQueryFailed(t) => "Context::get_status_change failed: "@ + t,
        ErrorSpec::CardConnectFailed(t) => "Context::connect failed: "@ + t,
        ErrorSpec::TransmitFailed(t) => "Card::transmit failed: "@ + t,
    }
}

impl NfcError {
    /// Renders the error as its one-line message.
    pub fn message(&self) -> (m: String)
        ensures
            m@ == spec_message(self@),
    {
        match self {
            NfcError::SubsystemUnavailable(t) => {
                let mut m = String::from_str("Context::establish failed: ");
                m.append(t.as_str());
                m
            },
            NfcError::EnumerationFailed(t) => {
                let mut m = String::from_str("Context::list_readers failed: ");
                m.append(t.as_str());
                m
            },
            NfcError::NoReaderFound => String::from_str("No reader found"),
            NfcError::StatusQueryFailed(t) => {
                let mut m = String::from_str("Context::get_status_change failed: ");
                m.append(t.as_str());
                m
            },
            NfcError::CardConnectFailed(t) => {
                let mut m = String::from_str("Context::connect failed: ");
                m.append(t.as_str());
                m
            },
            NfcError::TransmitFailed(t) => {
                let mut m = String::from_str("Card::transmit failed: ");
                m.append(t.as_str());
                m
            },
        }
    }
}

} // verus!
