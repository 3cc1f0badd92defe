//! TCP/IP stack fingerprints as plain values: the named profiles the system
//! can present, including a randomized minimal profile.  Writing the values
//! into the host's network stack is the application's business.

use vstd::prelude::*;

use crate::entropy;

verus! {

/// TCP/IP stack fingerprint properties.
#[derive(Debug, PartialEq)]
pub struct OSFingerprint {
    /// Operating system family.
    pub os_family: String,
    /// Operating system version.
    pub os_version: Option<String>,
    /// IP TTL value.
    pub ttl: Option<u8>,
    /// MSS value.
    pub mss: Option<u16>,
    /// TCP window size.
    pub window_size: Option<u32>,
    /// TCP window scaling factor.
    pub window_scaling: Option<u8>,
    /// Whether to send TCP timestamps.
    pub timestamps: Option<bool>,
    /// IP ID sequence behavior.
    pub ip_id_behavior: Option<String>,
    /// Whether to set the don't-fragment bit.
    pub df_bit: Option<bool>,
    /// Additional fingerprint properties.
    pub properties: Vec<(String, serde_json::Value)>,
}

impl OSFingerprint {
    /// A bare fingerprint of a family, with nothing else set.
    pub fn new(os_family: &str) -> (r: Self)
        ensures
            r.os_family@ == os_family@,
            r.os_version is None,
            r.ttl is None,
            r.mss is None,
            r.window_size is None,
            r.window_scaling is None,
            r.timestamps is None,
            r.ip_id_behavior is None,
            r.df_bit is None,
            r.properties@.len() == 0,
    {
        OSFingerprint {
            os_family: os_family.to_owned(),
            os_version: None,
            ttl: None,
            mss: None,
            window_size: None,
            window_scaling: None,
            timestamps: None,
            ip_id_behavior: None,
            df_bit: None,
            properties: Vec::new(),
        }
    }

    /// The Windows-like profile.
    pub fn windows(version: Option<String>) -> (r: Self)
        ensures
            r.os_family@ == "Windows"@,
            r.os_version == version,
            r.ttl == Some(128u8),
            r.window_size == Some(64240u32),
            r.mss == Some(1460u16),
            r.window_scaling == Some(8u8),
            r.timestamps == Some(false),
            r.ip_id_behavior matches Some(b) && b@ == "incremental"@,
            r.df_bit == Some(true),
    {
        let mut fingerprint = OSFingerprint::new("Windows");
        fingerprint.os_version = version;
        fingerprint.ttl = Some(128);
        fingerprint.window_size = Some(64240);
        fingerprint.mss = Some(1460);
        fingerprint.window_scaling = Some(8);
        fingerprint.timestamps = Some(false);
        fingerprint.ip_id_behavior = Some("incremental".to_owned());
        fingerprint.df_bit = Some(true);
        fingerprint
    }

    /// The Linux-like profile.
    pub fn linux(version: Option<String>) -> (r: Self)
        ensures
            r.os_family@ == "Linux"@,
            r.os_version == version,
            r.ttl == Some(64u8),
            r.window_size == Some(29200u32),
            r.mss == Some(1460u16),
            r.window_scaling == Some(7u8),
            r.timestamps == Some(true),
            r.ip_id_behavior matches Some(b) && b@ == "random"@,
            r.df_bit == Some(false),
    {
        let mut fingerprint = OSFingerprint::new("Linux");
        fingerprint.os_version = version;
        fingerprint.ttl = Some(64);
        fingerprint.window_size = Some(29200);
        fingerprint.mss = Some(1460);
        fingerprint.window_scaling = Some(7);
        fingerprint.timestamps = Some(true);
        fingerprint.ip_id_behavior = Some("random".to_owned());
        fingerprint.df_bit = Some(false);
        fingerprint
    }

    /// The router-like profile.
    pub fn router(vendor: &str) -> (r: Self)
        ensures
            r.os_family@ == "Router"@,
            r.os_version matches Some(v) && v@ == vendor@,
            r.ttl == Some(255u8),
            r.window_size == Some(16384u32),
            r.mss == Some(1460u16),
            r.window_scaling == Some(0u8),
            r.timestamps == Some(false),
            r.ip_id_behavior matches Some(b) && b@ == "random"@,
            r.df_bit == Some(true),
    {
        let mut fingerprint = OSFingerprint::new("Router");
        fingerprint.os_version = Some(vendor.to_owned());
        fingerprint.ttl = Some(255);
        fingerprint.window_size = Some(16384);
        fingerprint.mss = Some(1460);
        fingerprint.window_scaling = Some(0);
        fingerprint.timestamps = Some(false);
        fingerprint.ip_id_behavior = Some("random".to_owned());
        fingerprint.df_bit = Some(true);
        fingerprint
    }

    /// A minimal profile with unpredictable properties, drawn fresh on every
    /// call; only the documented ranges hold of the drawn values.
    pub fn minimal() -> (r: Self)
        ensures
            r.os_family@ == "Unknown"@,
            r.ttl matches Some(t) && 10 <= t < 200,
            r.window_size matches Some(w) && 1024 <= w < 65535,
            r.mss matches Some(m) && 536 <= m < 1460,
            r.window_scaling matches Some(s) && s < 14,
            r.timestamps is Some,
            r.ip_id_behavior matches Some(b) && b@ == "random"@,
            r.df_bit is Some,
    {
        let mut fingerprint = OSFingerprint::new("Unknown");
        fingerprint.ttl = Some(entropy::random_in_range(10, 199) as u8);
        fingerprint.window_size = Some(entropy::random_in_range(1024, 65534) as u32);
        fingerprint.mss = Some(entropy::random_in_range(536, 1459) as u16);
        fingerprint.window_scaling = Some(entropy::random_in_range(0, 13) as u8);
        fingerprint.timestamps = Some(entropy::random_bool());
        fingerprint.ip_id_behavior = Some("random".to_owned());
        fingerprint.df_bit = Some(entropy::random_bool());
        fingerprint
    }
}

} // verus!
