//! Errors of the skin-shifting subsystem and the pure decisions it makes:
//! which fingerprint preset a posture selects, and how a posture is read out
//! of a posture-change notification.  Applying fingerprints, banners and
//! firewall rules to the host is the application's business.

use vstd::prelude::*;

use crate::errors::ChameleonError;
use crate::json;
use crate::posture::{spec_posture_from, Posture};

verus! {

/// Errors of the skin-shifting subsystem.
#[derive(Debug, PartialEq, Eq)]
pub enum SkinshiftError {
    /// A fingerprint operation failed.
    FingerprintError(String),
    /// A banner operation failed.
    BannerError(String),
    /// A firewall operation failed.
    FirewallError(String),
    /// A preset operation failed.
    PresetError(String),
    /// A service operation failed.
    ServiceError(String),
    /// Invalid configuration.
    ConfigError(String),
    /// An input/output failure, carried as text.
    IOError(String),
    /// Serialization failed.
    SerializationError(String),
    /// Permission was denied.
    PermissionDenied(String),
    /// A process could not be run.
    ProcessError(String),
    /// A system failure.
    SystemError(String),
    /// Not implemented.
    NotImplemented(String),
}

/// How a skin-shifting error surfaces as a core error.
pub open spec fn spec_to_chameleon(e: SkinshiftError) -> ChameleonError {
    match e {
        SkinshiftError::FingerprintError(m) => ChameleonError::SystemError(m),
        SkinshiftError::BannerError(m) => ChameleonError::SystemError(m),
        SkinshiftError::FirewallError(m) => ChameleonError::SystemError(m),
        SkinshiftError::PresetError(m) => ChameleonError::ConfigError(m),
        SkinshiftError::ServiceError(m) => ChameleonError::ServiceUnavailable(m),
        SkinshiftError::ConfigError(m) => ChameleonError::ConfigError(m),
        SkinshiftError::IOError(m) => ChameleonError::IOError(m),
        SkinshiftError::SerializationError(m) => ChameleonError::SerializationError(m),
        SkinshiftError::PermissionDenied(m) => ChameleonError::SystemError(m),
        SkinshiftError::ProcessError(m) => ChameleonError::SystemError(m),
        SkinshiftError::SystemError(m) => ChameleonError::SystemError(m),
        SkinshiftError::NotImplemented(m) => ChameleonError::InvalidOperation(m),
    }
}

impl SkinshiftError {
    /// Surface as a core error; see [`spec_to_chameleon`].
    pub fn into_chameleon(self) -> (r: ChameleonError)
        ensures
            r == spec_to_chameleon(self),
    {
        match self {
            SkinshiftError::FingerprintError(m) => ChameleonError::SystemError(m),
            SkinshiftError::BannerError(m) => ChameleonError::SystemError(m),
            SkinshiftError::FirewallError(m) => ChameleonError::SystemError(m),
            SkinshiftError::PresetError(m) => ChameleonError::ConfigError(m),
            SkinshiftError::ServiceError(m) => ChameleonError::ServiceUnavailable(m),
            SkinshiftError::ConfigError(m) => ChameleonError::ConfigError(m),
            SkinshiftError::IOError(m) => ChameleonError::IOError(m),
            SkinshiftError::SerializationError(m) => ChameleonError::SerializationError(m),
            SkinshiftError::PermissionDenied(m) => ChameleonError::SystemError(m),
            SkinshiftError::ProcessError(m) => ChameleonError::SystemError(m),
            SkinshiftError::SystemError(m) => ChameleonError::SystemError(m),
            SkinshiftError::NotImplemented(m) => ChameleonError::InvalidOperation(m),
        }
    }
}

/// The fingerprint preset each posture selects.
pub open spec fn spec_preset_for_posture(p: Posture) -> Seq<char> {
    match p {
        Posture::Silent => "silent_minimal"@,
        Posture::Neutral => "linux_standard"@,
        Posture::Mimetic => "windows_server2019"@,
        Posture::Fulgurant => "router_vulnerable"@,
        Posture::Unstable => "random_changing"@,
    }
}

/// The name of the fingerprint preset a posture selects.
pub fn preset_for_posture(p: Posture) -> (r: &'static str)
    ensures
        r@ == spec_preset_for_posture(p),
{
    match p {
        Posture::Silent => "silent_minimal",
        Posture::Neutral => "linux_standard",
        Posture::Mimetic => "windows_server2019",
        Posture::Fulgurant => "router_vulnerable",
        Posture::Unstable => "random_changing",
    }
}

/// The posture named by a posture-change notification's payload: the
/// `new_posture` member read as a posture name.
pub open spec fn spec_posture_in_payload(data: serde_json::Value) -> Option<Posture> {
    match json::json_member_of(data, "new_posture"@) {
        Some(m) => match json::json_str_of(m) {
            Some(s) => spec_posture_from(s),
            None => None,
        },
        None => None,
    }
}

/// Read the posture out of a posture-change notification's payload; see
/// [`spec_posture_in_payload`].
pub fn posture_from_payload(data: &serde_json::Value) -> (r: Option<Posture>)
    ensures
        r == spec_posture_in_payload(*data),
{
    match json::json_get(data, "new_posture") {
        Some(m) => match json::json_as_str(m) {
            Some(s) => Posture::from_str(s),
            None => None,
        },
        None => None,
    }
}

} // verus!
