//! Network monitoring: detections of suspicious traffic, packet-capture
//! bookkeeping and the latency fuzzer.  Capturing packets is the host
//! application's business; detections arrive here as plain values, and the
//! fuzzer's draws are verified to stay within the configured range.

use vstd::prelude::*;

use crate::entropy;
use crate::events::{Event, EventType};
use crate::json;
use crate::strutil;

verus! {

/// Errors of the network-monitoring subsystem.
#[derive(Debug, PartialEq, Eq)]
pub enum NetTongueError {
    /// Network monitoring failed.
    NetworkMonitoring(String),
    /// Packet capture failed.
    PacketCapture(String),
    /// Latency fuzzing failed.
    LatencyFuzz(String),
    /// Permission was denied.
    PermissionDenied(String),
    /// An input/output failure, carried as text.
    Io(String),
    /// A capture-library failure, carried as text.
    Pcap(String),
}

/// Configuration of the network-monitoring subsystem.
#[derive(Debug, PartialEq)]
pub struct NetTongueConfig {
    /// Whether packet capture is enabled.
    pub pcap_enabled: bool,
    /// Network interface to monitor.
    pub interface: String,
    /// Whether latency fuzzing is enabled.
    pub latency_fuzz_enabled: bool,
    /// Smallest injected latency, in milliseconds.
    pub latency_fuzz_min_ms: u64,
    /// Largest injected latency, in milliseconds.
    pub latency_fuzz_max_ms: u64,
}

impl Default for NetTongueConfig {
    /// The default configuration: capture on `eth0`, fuzzing off with a 50
    /// through 200 millisecond range.
    fn default() -> (r: Self)
        ensures
            r.pcap_enabled,
            r.interface@ == "eth0"@,
            !r.latency_fuzz_enabled,
            r.latency_fuzz_min_ms == 50,
            r.latency_fuzz_max_ms == 200,
    {
        NetTongueConfig {
            pcap_enabled: true,
            interface: "eth0".to_owned(),
            latency_fuzz_enabled: false,
            latency_fuzz_min_ms: 50,
            latency_fuzz_max_ms: 200,
        }
    }
}

/// Kinds of network detections.
#[derive(Debug, PartialEq, Eq)]
pub enum NetworkDetectionType {
    /// A port scan.
    PortScan,
    /// A SYN flood.
    SynFlood,
    /// An unusual connection pattern.
    UnusualConnectionPattern,
    /// A protocol anomaly.
    ProtocolAnomaly,
    /// A fingerprinting attempt.
    FingerprintingAttempt,
    /// Anything else, named freely.
    Other(String),
}

impl NetworkDetectionType {
    /// Stable textual name of the detection kind; a free-form kind is its
    /// own name.
    pub fn text(&self) -> (r: String)
        ensures
            r@ == self.spec_text(),
    {
        match self {
            NetworkDetectionType::PortScan => "PortScan".to_owned(),
            NetworkDetectionType::SynFlood => "SynFlood".to_owned(),
            NetworkDetectionType::UnusualConnectionPattern => {
                "UnusualConnectionPattern".to_owned()
            },
            NetworkDetectionType::ProtocolAnomaly => "ProtocolAnomaly".to_owned(),
            NetworkDetectionType::FingerprintingAttempt => "FingerprintingAttempt".to_owned(),
            NetworkDetectionType::Other(name) => name.clone(),
        }
    }

    pub open spec fn spec_text(&self) -> Seq<char> {
        match self {
            NetworkDetectionType::PortScan => "PortScan"@,
            NetworkDetectionType::SynFlood => "SynFlood"@,
            NetworkDetectionType::UnusualConnectionPattern => "UnusualConnectionPattern"@,
            NetworkDetectionType::ProtocolAnomaly => "ProtocolAnomaly"@,
            NetworkDetectionType::FingerprintingAttempt => "FingerprintingAttempt"@,
            NetworkDetectionType::Other(name) => name@,
        }
    }
}

/// A detection of suspicious network activity.
#[derive(Debug)]
pub struct NetworkDetection {
    /// Kind of detection.
    pub detection_type: NetworkDetectionType,
    /// Source address, where known.
    pub source_ip: Option<String>,
    /// Destination address, where known.
    pub dest_ip: Option<String>,
    /// Source port, where known.
    pub source_port: Option<u16>,
    /// Destination port, where known.
    pub dest_port: Option<u16>,
    /// Protocol, where known.
    pub protocol: Option<String>,
    /// Details about the detection, as key-value pairs.
    pub details: Vec<(String, String)>,
    /// Severity score on the 0 to 10 scale.
    pub severity: u8,
    /// When the detection was made, in milliseconds since the Unix epoch.
    pub timestamp: i64,
}

/// The network-monitoring service.
pub struct NetTongue {
    config: NetTongueConfig,
    detections: Vec<NetworkDetection>,
}

impl NetTongue {
    /// The recorded detections, oldest first.
    pub closed spec fn spec_detections(&self) -> Seq<NetworkDetection> {
        self.detections@
    }

    pub closed spec fn spec_config(&self) -> &NetTongueConfig {
        &self.config
    }

    /// A fresh service with no detections.
    pub fn new(config: NetTongueConfig) -> (r: Result<Self, NetTongueError>)
        ensures
            r matches Ok(n) ==> n.spec_detections().len() == 0 && n.spec_config() == config,
            r is Ok,
    {
        Ok(NetTongue { config, detections: Vec::new() })
    }

    /// Record a detection and build the security alert to broadcast: its
    /// payload carries the detection's kind and severity.
    pub fn add_detection(&mut self, detection: NetworkDetection) -> (r: Result<
        Event,
        NetTongueError,
    >)
        ensures
            r is Ok,
            final(self).spec_detections() == old(self).spec_detections().push(detection),
            r matches Ok(e) ==> {
                &&& e.event_type == EventType::SecurityAlert
                &&& e.source@ == "nettongue"@
                &&& e.data is Some
            },
    {
        let mut fields: Vec<(String, serde_json::Value)> = Vec::new();
        fields.push(("detection_type".to_owned(), json::json_string(
            detection.detection_type.text().as_str(),
        )));
        fields.push(("severity".to_owned(), json::json_u64(detection.severity as u64)));
        fields.push(("timestamp".to_owned(), json::json_i64(detection.timestamp)));
        let event = Event::new(
            EventType::SecurityAlert,
            "nettongue",
            Some(json::json_object(fields)),
        );
        self.detections.push(detection);
        Ok(event)
    }

    /// The recorded detections, read-only.
    pub fn get_detections(&self) -> (r: &Vec<NetworkDetection>)
        ensures
            r@ == self.spec_detections(),
    {
        &self.detections
    }
}

/// Whether an interface name occurs in a device list.
pub open spec fn spec_interface_known(devices: Seq<String>, interface: Seq<char>) -> bool {
    exists|i: int| 0 <= i < devices.len() && (#[trigger] devices[i])@ == interface
}

/// A monitor capturing packets on one interface: tracks only whether it runs.
pub struct PcapMonitor {
    interface: String,
    running: bool,
}

impl PcapMonitor {
    pub closed spec fn spec_interface(&self) -> Seq<char> {
        self.interface@
    }

    pub closed spec fn spec_running(&self) -> bool {
        self.running
    }

    /// A stopped monitor on an interface the given device list offers; an
    /// interface outside the list is refused with `PacketCapture`.
    pub fn with_devices(interface: &str, devices: &Vec<String>) -> (r: Result<
        Self,
        NetTongueError,
    >)
        ensures
            r is Ok <==> spec_interface_known(devices@, interface@),
            r matches Ok(m) ==> m.spec_interface() == interface@ && !m.spec_running(),
            r matches Err(e) ==> e matches NetTongueError::PacketCapture(_),
    {
        let n = devices.len();
        for i in 0..n
            invariant
                n == devices@.len(),
                forall|j: int| 0 <= j < i ==> (#[trigger] devices@[j])@ != interface@,
        {
            if strutil::str_eq(devices[i].as_str(), interface) {
                return Ok(PcapMonitor { interface: interface.to_owned(), running: false });
            }
        }
        let mut msg = "Interface ".to_owned();
        msg.append(interface);
        msg.append(" not found");
        Err(NetTongueError::PacketCapture(msg))
    }

    /// Start capturing.
    pub fn start(&mut self) -> (r: Result<(), NetTongueError>)
        ensures
            r is Ok,
            final(self).spec_running(),
            final(self).spec_interface() == old(self).spec_interface(),
    {
        self.running = true;
        Ok(())
    }

    /// Stop capturing.
    pub fn stop(&mut self) -> (r: Result<(), NetTongueError>)
        ensures
            r is Ok,
            !final(self).spec_running(),
            final(self).spec_interface() == old(self).spec_interface(),
    {
        self.running = false;
        Ok(())
    }
}

/// A latency fuzzer confusing timing attacks: draws latencies within its
/// configured range.
pub struct LatencyFuzzer {
    min_ms: u64,
    max_ms: u64,
    running: bool,
}

impl LatencyFuzzer {
    pub closed spec fn spec_min(&self) -> u64 {
        self.min_ms
    }

    pub closed spec fn spec_max(&self) -> u64 {
        self.max_ms
    }

    pub closed spec fn spec_running(&self) -> bool {
        self.running
    }

    /// A stopped fuzzer over an ordered range.
    pub fn new(min_ms: u64, max_ms: u64) -> (r: Self)
        requires
            min_ms <= max_ms,
        ensures
            r.spec_min() == min_ms,
            r.spec_max() == max_ms,
            !r.spec_running(),
    {
        LatencyFuzzer { min_ms, max_ms, running: false }
    }

    /// Start fuzzing.
    pub fn start(&mut self) -> (r: Result<(), NetTongueError>)
        ensures
            r is Ok,
            final(self).spec_running(),
            final(self).spec_min() == old(self).spec_min(),
            final(self).spec_max() == old(self).spec_max(),
    {
        self.running = true;
        Ok(())
    }

    /// Stop fuzzing.
    pub fn stop(&mut self) -> (r: Result<(), NetTongueError>)
        ensures
            r is Ok,
            !final(self).spec_running(),
            final(self).spec_min() == old(self).spec_min(),
            final(self).spec_max() == old(self).spec_max(),
    {
        self.running = false;
        Ok(())
    }

    /// Draw a latency: always within the configured range.
    pub fn get_latency(&self) -> (r: u64)
        requires
            self.spec_min() <= self.spec_max(),
        ensures
            self.spec_min() <= r <= self.spec_max(),
    {
        entropy::random_in_range(self.min_ms, self.max_ms)
    }
}

} // verus!
