//! Error taxonomy of the core.  Messages are plain strings; what each
//! constructor builds is pinned by its contract.

use vstd::prelude::*;

verus! {

/// Errors of the core service.
#[derive(Debug, PartialEq, Eq)]
pub enum ChameleonError {
    /// Initialization failed.
    InitializationError(String),
    /// A runtime failure.
    RuntimeError(String),
    /// Invalid configuration, rejected at setup.
    ConfigError(String),
    /// A network failure.
    NetworkError(String),
    /// A system failure.
    SystemError(String),
    /// A posture change failed.
    PostureChangeError(String),
    /// A service was unavailable.
    ServiceUnavailable(String),
    /// The system was in an invalid state.
    InvalidState(String),
    /// An invalid operation was requested.
    InvalidOperation(String),
    /// Serialization failed.
    SerializationError(String),
    /// An input/output failure, carried as text.
    IOError(String),
    /// A JSON failure, carried as text.
    JsonError(String),
    /// Anything else.
    Unknown(String),
}

impl ChameleonError {
    pub fn new_init_error(msg: &str) -> (r: Self)
        ensures
            r matches ChameleonError::InitializationError(m) && m@ == msg@,
    {
        ChameleonError::InitializationError(msg.to_owned())
    }

    pub fn new_runtime_error(msg: &str) -> (r: Self)
        ensures
            r matches ChameleonError::RuntimeError(m) && m@ == msg@,
    {
        ChameleonError::RuntimeError(msg.to_owned())
    }

    pub fn new_config_error(msg: &str) -> (r: Self)
        ensures
            r matches ChameleonError::ConfigError(m) && m@ == msg@,
    {
        ChameleonError::ConfigError(msg.to_owned())
    }

    pub fn new_network_error(msg: &str) -> (r: Self)
        ensures
            r matches ChameleonError::NetworkError(m) && m@ == msg@,
    {
        ChameleonError::NetworkError(msg.to_owned())
    }

    pub fn new_system_error(msg: &str) -> (r: Self)
        ensures
            r matches ChameleonError::SystemError(m) && m@ == msg@,
    {
        ChameleonError::SystemError(msg.to_owned())
    }

    pub fn new_posture_error(msg: &str) -> (r: Self)
        ensures
            r matches ChameleonError::PostureChangeError(m) && m@ == msg@,
    {
        ChameleonError::PostureChangeError(msg.to_owned())
    }

    pub fn new_unavailable_error(msg: &str) -> (r: Self)
        ensures
            r matches ChameleonError::ServiceUnavailable(m) && m@ == msg@,
    {
        ChameleonError::ServiceUnavailable(msg.to_owned())
    }

    pub fn new_invalid_state(msg: &str) -> (r: Self)
        ensures
            r matches ChameleonError::InvalidState(m) && m@ == msg@,
    {
        ChameleonError::InvalidState(msg.to_owned())
    }

    pub fn new_invalid_operation(msg: &str) -> (r: Self)
        ensures
            r matches ChameleonError::InvalidOperation(m) && m@ == msg@,
    {
        ChameleonError::InvalidOperation(msg.to_owned())
    }

    pub fn new_unknown_error(msg: &str) -> (r: Self)
        ensures
            r matches ChameleonError::Unknown(m) && m@ == msg@,
    {
        ChameleonError::Unknown(msg.to_owned())
    }

    /// The error rendered as "<kind>: <message>".
    pub fn describe(&self) -> (r: String)
        ensures
            r@ == self.spec_describe(),
    {
        let (prefix, msg): (&str, &String) = match self {
            ChameleonError::InitializationError(m) => ("Initialization error: ", m),
            ChameleonError::RuntimeError(m) => ("Runtime error: ", m),
            ChameleonError::ConfigError(m) => ("Configuration error: ", m),
            ChameleonError::NetworkError(m) => ("Network error: ", m),
            ChameleonError::SystemError(m) => ("System error: ", m),
            ChameleonError::PostureChangeError(m) => ("Posture change error: ", m),
            ChameleonError::ServiceUnavailable(m) => ("Service unavailable: ", m),
            ChameleonError::InvalidState(m) => ("Invalid state: ", m),
            ChameleonError::InvalidOperation(m) => ("Invalid operation: ", m),
            ChameleonError::SerializationError(m) => ("Serialization error: ", m),
            ChameleonError::IOError(m) => ("IO error: ", m),
            ChameleonError::JsonError(m) => ("JSON error: ", m),
            ChameleonError::Unknown(m) => ("Unknown error: ", m),
        };
        let mut out = prefix.to_owned();
        out.append(msg.as_str());
        out
    }

    pub open spec fn spec_describe(&self) -> Seq<char> {
        match self {
            ChameleonError::InitializationError(m) => "Initialization error: "@ + m@,
            ChameleonError::RuntimeError(m) => "Runtime error: "@ + m@,
            ChameleonError::ConfigError(m) => "Configuration error: "@ + m@,
            ChameleonError::NetworkError(m) => "Network error: "@ + m@,
            ChameleonError::SystemError(m) => "System error: "@ + m@,
            ChameleonError::PostureChangeError(m) => "Posture change error: "@ + m@,
            ChameleonError::ServiceUnavailable(m) => "Service unavailable: "@ + m@,
            ChameleonError::InvalidState(m) => "Invalid state: "@ + m@,
            ChameleonError::InvalidOperation(m) => "Invalid operation: "@ + m@,
            ChameleonError::SerializationError(m) => "Serialization error: "@ + m@,
            ChameleonError::IOError(m) => "IO error: "@ + m@,
            ChameleonError::JsonError(m) => "JSON error: "@ + m@,
            ChameleonError::Unknown(m) => "Unknown error: "@ + m@,
        }
    }
}

} // verus!
