//! System monitoring: detections of suspicious host activity and the
//! bookkeeping of the monitors.  The actual observation of processes and
//! system calls is the host application's business; detections arrive here as
//! plain values and are recorded and turned into security alerts.

use vstd::prelude::*;

use crate::events::{Event, EventType};
use crate::json;
use crate::probe;

verus! {

/// Errors of the system-monitoring subsystem.
#[derive(Debug, PartialEq, Eq)]
pub enum Eye360Error {
    /// System monitoring failed.
    SystemMonitoring(String),
    /// Syscall tracking failed.
    SyscallTracking(String),
    /// The eBPF machinery failed.
    Ebpf(String),
    /// Permission was denied.
    PermissionDenied(String),
    /// An input/output failure, carried as text.
    Io(String),
}

/// Configuration of the system-monitoring subsystem.
#[derive(Debug, PartialEq)]
pub struct Eye360Config {
    /// Whether system call monitoring is enabled.
    pub syscall_monitoring: bool,
    /// Whether to log suspicious activities.
    pub log_suspicious: bool,
    /// Whether eBPF monitoring is enabled.
    pub ebpf_enabled: bool,
    /// The system calls to monitor.
    pub monitored_syscalls: Vec<String>,
}

impl Default for Eye360Config {
    /// The default configuration: syscall monitoring and logging on, eBPF
    /// off, the seven baseline system calls watched.
    fn default() -> (r: Self)
        ensures
            r.syscall_monitoring,
            r.log_suspicious,
            !r.ebpf_enabled,
            r.monitored_syscalls@.len() == 7,
            r.monitored_syscalls@[0]@ == "execve"@,
            r.monitored_syscalls@[1]@ == "fork"@,
            r.monitored_syscalls@[2]@ == "clone"@,
            r.monitored_syscalls@[3]@ == "open"@,
            r.monitored_syscalls@[4]@ == "connect"@,
            r.monitored_syscalls@[5]@ == "bind"@,
            r.monitored_syscalls@[6]@ == "socket"@,
    {
        let mut monitored_syscalls: Vec<String> = Vec::new();
        monitored_syscalls.push("execve".to_owned());
        monitored_syscalls.push("fork".to_owned());
        monitored_syscalls.push("clone".to_owned());
        monitored_syscalls.push("open".to_owned());
        monitored_syscalls.push("connect".to_owned());
        monitored_syscalls.push("bind".to_owned());
        monitored_syscalls.push("socket".to_owned());
        Eye360Config {
            syscall_monitoring: true,
            log_suspicious: true,
            ebpf_enabled: false,
            monitored_syscalls,
        }
    }
}

/// Kinds of system detections.
#[derive(Debug, PartialEq, Eq)]
pub enum DetectionType {
    /// Suspicious syscall activity.
    SuspiciousSyscall,
    /// Unusual process behavior.
    UnusualProcess,
    /// A file system anomaly.
    FileSystemAnomaly,
    /// A network connection anomaly.
    NetworkAnomaly,
    /// A privilege escalation attempt.
    PrivilegeEscalation,
    /// Anything else, named freely.
    Other(String),
}

impl DetectionType {
    /// Stable textual name of the detection kind; a free-form kind is its
    /// own name.
    pub fn text(&self) -> (r: String)
        ensures
            r@ == self.spec_text(),
    {
        match self {
            DetectionType::SuspiciousSyscall => "SuspiciousSyscall".to_owned(),
            DetectionType::UnusualProcess => "UnusualProcess".to_owned(),
            DetectionType::FileSystemAnomaly => "FileSystemAnomaly".to_owned(),
            DetectionType::NetworkAnomaly => "NetworkAnomaly".to_owned(),
            DetectionType::PrivilegeEscalation => "PrivilegeEscalation".to_owned(),
            DetectionType::Other(name) => name.clone(),
        }
    }

    pub open spec fn spec_text(&self) -> Seq<char> {
        match self {
            DetectionType::SuspiciousSyscall => "SuspiciousSyscall"@,
            DetectionType::UnusualProcess => "UnusualProcess"@,
            DetectionType::FileSystemAnomaly => "FileSystemAnomaly"@,
            DetectionType::NetworkAnomaly => "NetworkAnomaly"@,
            DetectionType::PrivilegeEscalation => "PrivilegeEscalation"@,
            DetectionType::Other(name) => name@,
        }
    }
}

/// A detection of suspicious system activity.
#[derive(Debug)]
pub struct Detection {
    /// Kind of detection.
    pub detection_type: DetectionType,
    /// Where the detection came from.
    pub source: String,
    /// Details about the detection, as key-value pairs.
    pub details: Vec<(String, String)>,
    /// Severity score on the 0 to 10 scale.
    pub severity: u8,
    /// When the detection was made, in milliseconds since the Unix epoch.
    pub timestamp: i64,
}

/// The system-monitoring service: configuration, detection history and the
/// monitors' run flags.
pub struct Eye360 {
    config: Eye360Config,
    detections: Vec<Detection>,
    process_monitor: Option<ProcessMonitor>,
    syscall_monitor: Option<SyscallMonitor>,
    ebpf_monitor: Option<EbpfMonitor>,
}

impl Eye360 {
    /// The recorded detections, oldest first.
    pub closed spec fn spec_detections(&self) -> Seq<Detection> {
        self.detections@
    }

    pub closed spec fn spec_config(&self) -> &Eye360Config {
        &self.config
    }

    /// A fresh service.  A process monitor is always built; a syscall
    /// monitor when syscall monitoring is on; an eBPF monitor when eBPF is on
    /// and the caller reports root privileges.
    pub fn new(config: Eye360Config, is_root: bool) -> (r: Result<Self, Eye360Error>)
        ensures
            r matches Ok(e) ==> e.spec_detections().len() == 0,
            r is Ok,
    {
        let syscall_monitor = if config.syscall_monitoring {
            Some(SyscallMonitor::new(&config.monitored_syscalls))
        } else {
            None
        };
        let ebpf_monitor = if config.ebpf_enabled {
            match EbpfMonitor::new(is_root) {
                Ok(monitor) => Some(monitor),
                Err(_) => None,
            }
        } else {
            None
        };
        Ok(
            Eye360 {
                config,
                detections: Vec::new(),
                process_monitor: Some(ProcessMonitor::new()),
                syscall_monitor,
                ebpf_monitor,
            },
        )
    }

    /// Start all configured monitors.
    pub fn start(&mut self) -> (r: Result<(), Eye360Error>)
        ensures
            r is Ok,
            final(self).spec_detections() == old(self).spec_detections(),
    {
        if let Some(monitor) = &mut self.process_monitor {
            let started = monitor.start();
            if let Err(e) = started {
                return Err(e);
            }
        }
        if let Some(monitor) = &mut self.syscall_monitor {
            let started = monitor.start();
            if let Err(e) = started {
                return Err(e);
            }
        }
        if let Some(monitor) = &mut self.ebpf_monitor {
            let started = monitor.start();
            if let Err(e) = started {
                return Err(e);
            }
        }
        Ok(())
    }

    /// Stop all configured monitors.
    pub fn stop(&mut self) -> (r: Result<(), Eye360Error>)
        ensures
            r is Ok,
            final(self).spec_detections() == old(self).spec_detections(),
    {
        if let Some(monitor) = &mut self.process_monitor {
            let stopped = monitor.stop();
            if let Err(e) = stopped {
                return Err(e);
            }
        }
        if let Some(monitor) = &mut self.syscall_monitor {
            let stopped = monitor.stop();
            if let Err(e) = stopped {
                return Err(e);
            }
        }
        if let Some(monitor) = &mut self.ebpf_monitor {
            let stopped = monitor.stop();
            if let Err(e) = stopped {
                return Err(e);
            }
        }
        Ok(())
    }

    /// Record a detection and build the security alert to broadcast: its
    /// payload carries the detection's kind, source, severity and details.
    pub fn add_detection(&mut self, detection: Detection) -> (r: Result<Event, Eye360Error>)
        ensures
            r is Ok,
            final(self).spec_detections() == old(self).spec_detections().push(detection),
            r matches Ok(e) ==> {
                &&& e.event_type == EventType::SecurityAlert
                &&& e.source@ == "eye360"@
                &&& e.data is Some
            },
    {
        let mut detail_fields: Vec<(String, serde_json::Value)> = Vec::new();
        let n = detection.details.len();
        for i in 0..n
            invariant
                n == detection.details@.len(),
        {
            let (k, v) = &detection.details[i];
            detail_fields.push((k.clone(), json::json_string(v.as_str())));
        }
        let mut fields: Vec<(String, serde_json::Value)> = Vec::new();
        fields.push(("detection_type".to_owned(), json::json_string(
            detection.detection_type.text().as_str(),
        )));
        fields.push(("source".to_owned(), json::json_string(detection.source.as_str())));
        fields.push(("severity".to_owned(), json::json_u64(detection.severity as u64)));
        fields.push(("timestamp".to_owned(), json::json_i64(detection.timestamp)));
        fields.push(("details".to_owned(), json::json_object(detail_fields)));
        let event = Event::new(EventType::SecurityAlert, "eye360", Some(json::json_object(fields)));
        self.detections.push(detection);
        Ok(event)
    }

    /// The recorded detections, read-only.
    pub fn get_detections(&self) -> (r: &Vec<Detection>)
        ensures
            r@ == self.spec_detections(),
    {
        &self.detections
    }
}

/// A monitor of system processes: tracks only whether it runs.
pub struct ProcessMonitor {
    running: bool,
}

impl ProcessMonitor {
    pub closed spec fn spec_running(&self) -> bool {
        self.running
    }

    /// A stopped monitor.
    pub fn new() -> (r: Self)
        ensures
            !r.spec_running(),
    {
        ProcessMonitor { running: false }
    }

    /// Start monitoring.
    pub fn start(&mut self) -> (r: Result<(), Eye360Error>)
        ensures
            r is Ok,
            final(self).spec_running(),
    {
        self.running = true;
        Ok(())
    }

    /// Stop monitoring.
    pub fn stop(&mut self) -> (r: Result<(), Eye360Error>)
        ensures
            r is Ok,
            !final(self).spec_running(),
    {
        self.running = false;
        Ok(())
    }
}

/// A monitor of system calls: tracks its watch list and whether it runs.
pub struct SyscallMonitor {
    running: bool,
    syscalls: Vec<String>,
}

impl SyscallMonitor {
    pub closed spec fn spec_running(&self) -> bool {
        self.running
    }

    /// The watched system calls.
    pub closed spec fn spec_syscalls(&self) -> Seq<String> {
        self.syscalls@
    }

    /// A stopped monitor watching the given system calls.
    pub fn new(syscalls: &Vec<String>) -> (r: Self)
        ensures
            !r.spec_running(),
            r.spec_syscalls().len() == syscalls@.len(),
            forall|i: int|
                0 <= i < syscalls@.len() ==> (#[trigger] r.spec_syscalls()[i])@ == syscalls@[i]@,
    {
        let mut copied: Vec<String> = Vec::new();
        let n = syscalls.len();
        for i in 0..n
            invariant
                n == syscalls@.len(),
                copied@.len() == i,
                forall|j: int| 0 <= j < i ==> (#[trigger] copied@[j])@ == syscalls@[j]@,
        {
            copied.push(syscalls[i].clone());
        }
        SyscallMonitor { running: false, syscalls: copied }
    }

    /// Start monitoring.
    pub fn start(&mut self) -> (r: Result<(), Eye360Error>)
        ensures
            r is Ok,
            final(self).spec_running(),
            final(self).spec_syscalls() == old(self).spec_syscalls(),
    {
        self.running = true;
        Ok(())
    }

    /// Stop monitoring.
    pub fn stop(&mut self) -> (r: Result<(), Eye360Error>)
        ensures
            r is Ok,
            !final(self).spec_running(),
            final(self).spec_syscalls() == old(self).spec_syscalls(),
    {
        self.running = false;
        Ok(())
    }
}

/// A monitor using eBPF: needs root privileges to exist at all.
pub struct EbpfMonitor {
    running: bool,
}

impl EbpfMonitor {
    pub closed spec fn spec_running(&self) -> bool {
        self.running
    }

    /// A stopped monitor; built if and only if the caller reports root
    /// privileges, else refused with `PermissionDenied`.
    pub fn new(is_root: bool) -> (r: Result<Self, Eye360Error>)
        ensures
            r is Ok <==> is_root,
            r matches Ok(m) ==> !m.spec_running(),
            r matches Err(e) ==> e matches Eye360Error::PermissionDenied(_),
    {
        if !is_root {
            return Err(
                Eye360Error::PermissionDenied(
                    "eBPF monitoring requires root permissions".to_owned(),
                ),
            );
        }
        Ok(EbpfMonitor { running: false })
    }

    /// A stopped monitor, probing the process's own privileges.
    pub fn for_current_process() -> (r: Result<Self, Eye360Error>)
        ensures
            r matches Ok(m) ==> !m.spec_running(),
            r matches Err(e) ==> e matches Eye360Error::PermissionDenied(_),
    {
        EbpfMonitor::new(probe::effective_uid_is_root())
    }

    /// Start monitoring.
    pub fn start(&mut self) -> (r: Result<(), Eye360Error>)
        ensures
            r is Ok,
            final(self).spec_running(),
    {
        self.running = true;
        Ok(())
    }

    /// Stop monitoring.
    pub fn stop(&mut self) -> (r: Result<(), Eye360Error>)
        ensures
            r is Ok,
            !final(self).spec_running(),
    {
        self.running = false;
        Ok(())
    }
}

} // verus!
