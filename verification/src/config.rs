//! The host configuration as plain values, and its validation.  Reading the
//! configuration from files and the environment is the host application's
//! business; everything rejected here is rejected at setup, before the
//! decision loop runs.

use vstd::prelude::*;

use crate::errors::ChameleonError;
use crate::posture::{spec_posture_from, Posture, THREAT_SCALE};

verus! {

/// General settings.
#[derive(Debug, PartialEq, Eq)]
pub struct GeneralConfig {
    /// Logging level.
    pub log_level: String,
    /// Whether the adaptive engine runs.
    pub adaptive_mode: bool,
    /// The posture to start in, by name.
    pub default_posture: String,
}

/// Skin-shifting settings.
#[derive(Debug, PartialEq, Eq)]
pub struct SkinshiftConfig {
    /// Whether skin shifting is enabled.
    pub enabled: bool,
    /// Directory holding fingerprint presets.
    pub presets_dir: String,
    /// Preset rotation interval in seconds, where rotation is wanted.
    pub rotation_interval: Option<u64>,
}

/// System-monitoring settings.
#[derive(Debug, PartialEq, Eq)]
pub struct Eye360Config {
    /// Whether system monitoring is enabled.
    pub enabled: bool,
    /// Whether system calls are monitored.
    pub syscall_monitoring: bool,
    /// Whether suspicious activity is logged.
    pub log_suspicious: bool,
    /// Whether eBPF monitoring is enabled.
    pub ebpf_enabled: bool,
}

/// Network-monitoring settings.
#[derive(Debug, PartialEq, Eq)]
pub struct NettongueConfig {
    /// Whether network monitoring is enabled.
    pub enabled: bool,
    /// Whether packet capture is enabled.
    pub pcap_enabled: bool,
    /// The interface to monitor.
    pub interface: String,
    /// Whether latency fuzzing is enabled.
    pub latency_fuzz_enabled: bool,
    /// Smallest injected latency, in milliseconds.
    pub latency_fuzz_min_ms: u64,
    /// Largest injected latency, in milliseconds.
    pub latency_fuzz_max_ms: u64,
}

/// Honeypot settings.
#[derive(Debug, PartialEq, Eq)]
pub struct LurefieldConfig {
    /// Whether honeypots are enabled.
    pub enabled: bool,
    /// Directory holding honeypot templates.
    pub honeypot_dir: String,
    /// Most honeypots deployed at once.
    pub max_honeypots: u32,
    /// Whether to deploy a basic set automatically.
    pub auto_deploy: bool,
}

/// Posture-engine settings.
#[derive(Debug, PartialEq, Eq)]
pub struct PostureConfig {
    /// Threat level at which a window commits a change, in thousandths.
    pub change_threshold: u32,
    /// Whether service rotation is enabled.
    pub service_rotation_enabled: bool,
    /// Service rotation interval in seconds.
    pub service_rotation_interval: u64,
    /// The postures the engine may adopt, by name.
    pub postures: Vec<String>,
}

/// The whole host configuration.
#[derive(Debug, PartialEq, Eq)]
pub struct CamaleonConfig {
    /// General settings.
    pub general: GeneralConfig,
    /// Skin-shifting settings.
    pub skinshift: SkinshiftConfig,
    /// System-monitoring settings.
    pub eye360: Eye360Config,
    /// Network-monitoring settings.
    pub nettongue: NettongueConfig,
    /// Honeypot settings.
    pub lurefield: LurefieldConfig,
    /// Posture-engine settings.
    pub posture: PostureConfig,
}

/// Whether every configured posture name denotes a posture.
pub open spec fn spec_postures_valid(postures: Seq<String>) -> bool {
    forall|i: int| 0 <= i < postures.len() ==> spec_posture_from((#[trigger] postures[i])@) is Some
}

/// Whether a configuration is acceptable: the change threshold lies on the
/// scale, the default posture and every configured posture name denote
/// postures, and the latency range is ordered.
pub open spec fn spec_config_valid(c: &CamaleonConfig) -> bool {
    &&& c.posture.change_threshold <= THREAT_SCALE
    &&& spec_posture_from(c.general.default_posture@) is Some
    &&& spec_postures_valid(c.posture.postures@)
    &&& c.nettongue.latency_fuzz_min_ms <= c.nettongue.latency_fuzz_max_ms
}

impl CamaleonConfig {
    /// Validate the configuration: accepted if and only if it is acceptable,
    /// so that nothing invalid reaches the decision loop.
    pub fn validate(&self) -> (r: Result<(), ChameleonError>)
        ensures
            r is Ok <==> spec_config_valid(self),
            r matches Err(e) ==> e matches ChameleonError::ConfigError(_),
    {
        if self.posture.change_threshold > THREAT_SCALE {
            return Err(
                ChameleonError::new_config_error("change threshold outside the unit scale"),
            );
        }
        if Posture::from_str(self.general.default_posture.as_str()).is_none() {
            return Err(ChameleonError::new_config_error("unknown default posture"));
        }
        let n = self.posture.postures.len();
        for i in 0..n
            invariant
                n == self.posture.postures@.len(),
                forall|j: int|
                    0 <= j < i ==> spec_posture_from(
                        (#[trigger] self.posture.postures@[j])@,
                    ) is Some,
        {
            if Posture::from_str(self.posture.postures[i].as_str()).is_none() {
                return Err(ChameleonError::new_config_error("unknown posture in the allowed set"));
            }
        }
        if self.nettongue.latency_fuzz_min_ms > self.nettongue.latency_fuzz_max_ms {
            return Err(ChameleonError::new_config_error("latency fuzz range is reversed"));
        }
        Ok(())
    }
}

} // verus!
