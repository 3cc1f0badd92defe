//! Tests of the honeypot, monitoring and command-line subsystems.

use camaleon::cli::{command_events, Commands};
use camaleon::config::{
    CamaleonConfig, Eye360Config as ConfEye360, GeneralConfig, LurefieldConfig as ConfLurefield,
    NettongueConfig, PostureConfig, SkinshiftConfig,
};
use camaleon::events::EventType;
use camaleon::eye360::{Detection, DetectionType, EbpfMonitor, Eye360, Eye360Error};
use camaleon::lurefield::{HoneypotType, Lurefield, LurefieldConfig, LurefieldError};
use camaleon::nettongue::{
    LatencyFuzzer, NetTongue, NetTongueConfig, NetTongueError, NetworkDetection,
    NetworkDetectionType, PcapMonitor,
};
use camaleon::pigment_api::{default_page, default_page_size, events_page};

#[test]
fn test_honeypot_type_from_str() {
    assert_eq!(HoneypotType::from_str("SSH"), Ok(HoneypotType::Ssh));
    assert_eq!(HoneypotType::from_str("http"), Ok(HoneypotType::Http));
    assert_eq!(HoneypotType::from_str("ftp"), Ok(HoneypotType::Ftp));
    assert_eq!(HoneypotType::from_str("smb"), Ok(HoneypotType::Smb));
    assert_eq!(
        HoneypotType::from_str("db:MySQL"),
        Ok(HoneypotType::Database("mysql".to_string()))
    );
    assert_eq!(
        HoneypotType::from_str("database:redis"),
        Ok(HoneypotType::Database("redis".to_string()))
    );
    assert_eq!(
        HoneypotType::from_str("db:"),
        Ok(HoneypotType::Database("".to_string()))
    );
    assert_eq!(
        HoneypotType::from_str("irc"),
        Ok(HoneypotType::Custom("irc".to_string()))
    );
}

#[test]
fn test_honeypot_default_port() {
    assert_eq!(HoneypotType::Ssh.default_port(), 22);
    assert_eq!(HoneypotType::Http.default_port(), 80);
    assert_eq!(HoneypotType::Ftp.default_port(), 21);
    assert_eq!(HoneypotType::Smb.default_port(), 445);
    assert_eq!(
        HoneypotType::Database("mysql".to_string()).default_port(),
        3306
    );
    assert_eq!(
        HoneypotType::Database("mongodb".to_string()).default_port(),
        27017
    );
    assert_eq!(
        HoneypotType::Database("postgresql".to_string()).default_port(),
        5432
    );
    assert_eq!(
        HoneypotType::Database("redis".to_string()).default_port(),
        6379
    );
    assert_eq!(
        HoneypotType::Database("other".to_string()).default_port(),
        27017
    );
    assert_eq!(HoneypotType::Custom("irc".to_string()).default_port(), 8080);
}

#[test]
fn test_honeypot_to_str() {
    assert_eq!(HoneypotType::Ssh.to_str(), "ssh");
    assert_eq!(HoneypotType::Database("redis".to_string()).to_str(), "redis");
    assert_eq!(HoneypotType::Custom("irc".to_string()).to_str(), "irc");
}

#[test]
fn test_honeypot_deployment_cap() {
    let config = LurefieldConfig {
        max_honeypots: 2,
        ..LurefieldConfig::default()
    };
    let mut lurefield = Lurefield::new(config).unwrap();
    let (id1, event) = lurefield.deploy_honeypot(HoneypotType::Ssh, None).unwrap();
    assert!(matches!(event.event_type, EventType::HoneypotActivity));
    lurefield.deploy_honeypot(HoneypotType::Http, None).unwrap();
    assert_eq!(lurefield.count(), 2);
    assert_eq!(
        lurefield
            .deploy_honeypot(HoneypotType::Ftp, None)
            .unwrap_err(),
        LurefieldError::MaxHoneypotsReached
    );
    // The default options pick the type's port.
    assert_eq!(lurefield.honeypot(&id1).unwrap().port, 22);
}

#[test]
fn test_honeypot_stop_and_interactions() {
    let mut lurefield = Lurefield::new(LurefieldConfig::default()).unwrap();
    let (id, _) = lurefield.deploy_honeypot(HoneypotType::Ssh, None).unwrap();
    assert!(lurefield.honeypot(&id).unwrap().active);
    lurefield.record_interaction(&id, Vec::new()).unwrap();
    lurefield.record_interaction(&id, Vec::new()).unwrap();
    assert_eq!(lurefield.honeypot(&id).unwrap().interaction_count, 2);
    lurefield.stop_honeypot(&id).unwrap();
    assert!(!lurefield.honeypot(&id).unwrap().active);
    assert!(matches!(
        lurefield.stop_honeypot("hp-missing"),
        Err(LurefieldError::HoneypotDeployment(_))
    ));
}

#[test]
fn test_eye360_detections() {
    let mut eye = Eye360::new(camaleon::eye360::Eye360Config::default(), false).unwrap();
    eye.start().unwrap();
    let detection = Detection {
        detection_type: DetectionType::SuspiciousSyscall,
        source: "probe".to_string(),
        details: Vec::new(),
        severity: 7,
        timestamp: 0,
    };
    let event = eye.add_detection(detection).unwrap();
    assert!(matches!(event.event_type, EventType::SecurityAlert));
    assert_eq!(event.source, "eye360");
    assert_eq!(eye.get_detections().len(), 1);
    eye.stop().unwrap();
}

#[test]
fn test_ebpf_monitor_requires_root() {
    assert!(matches!(
        EbpfMonitor::new(false),
        Err(Eye360Error::PermissionDenied(_))
    ));
    assert!(EbpfMonitor::new(true).is_ok());
}

#[test]
fn test_nettongue_detections() {
    let mut tongue = NetTongue::new(NetTongueConfig::default()).unwrap();
    let detection = NetworkDetection {
        detection_type: NetworkDetectionType::PortScan,
        source_ip: Some("203.0.113.9".to_string()),
        dest_ip: None,
        source_port: None,
        dest_port: Some(22),
        protocol: Some("tcp".to_string()),
        details: Vec::new(),
        severity: 6,
        timestamp: 0,
    };
    let event = tongue.add_detection(detection).unwrap();
    assert!(matches!(event.event_type, EventType::SecurityAlert));
    assert_eq!(tongue.get_detections().len(), 1);
}

#[test]
fn test_pcap_monitor_device_check() {
    let devices = vec!["lo".to_string(), "eth0".to_string()];
    assert!(PcapMonitor::with_devices("eth0", &devices).is_ok());
    assert!(matches!(
        PcapMonitor::with_devices("wlan9", &devices),
        Err(NetTongueError::PacketCapture(_))
    ));
}

#[test]
fn test_latency_fuzzer_bounds() {
    let fuzzer = LatencyFuzzer::new(50, 200);
    for _ in 0..50 {
        let latency = fuzzer.get_latency();
        assert!((50..=200).contains(&latency));
    }
}

#[test]
fn test_command_events() {
    let events = command_events(&Commands::Start {
        mode: "neutral".to_string(),
    })
    .unwrap();
    assert_eq!(events.len(), 1);
    assert!(matches!(events[0].event_type, EventType::SystemChange));
    assert_eq!(events[0].source, "cli");

    let events = command_events(&Commands::Posture {
        rotate_services: true,
        set: Some("silent".to_string()),
    })
    .unwrap();
    assert_eq!(events.len(), 2);
    assert!(matches!(events[0].event_type, EventType::PostureChange));

    assert!(command_events(&Commands::Skinshift {
        preset: None,
        custom: None,
    })
    .is_err());
    assert!(command_events(&Commands::Lurefield {
        generate: None,
        fake_auth: false,
        log_keystroke: false,
    })
    .is_err());
    assert!(command_events(&Commands::Api {
        start: false,
        stop: false,
        port: 8080,
    })
    .is_err());

    let events = command_events(&Commands::Status).unwrap();
    assert!(matches!(events[0].event_type, EventType::MetricsReport));
}

#[test]
fn test_command_event_payloads() {
    // The payloads carry exactly the requested action and its parameters.
    let events = command_events(&Commands::Start {
        mode: "mimetic".to_string(),
    })
    .unwrap();
    let payload = events[0].data.clone().unwrap();
    assert_eq!(payload.get("action").and_then(|v| v.as_str()), Some("start"));
    assert_eq!(payload.get("mode").and_then(|v| v.as_str()), Some("mimetic"));

    let events = command_events(&Commands::Eye360 {
        track_syn: true,
        syscalls: Some(vec!["execve".to_string(), "fork".to_string()]),
    })
    .unwrap();
    let payload = events[0].data.clone().unwrap();
    assert_eq!(payload.get("track_syn").and_then(|v| v.as_bool()), Some(true));
    let calls = payload.get("syscalls").and_then(|v| v.as_array()).unwrap();
    assert_eq!(calls.len(), 2);
    assert_eq!(calls[0].as_str(), Some("execve"));

    let events = command_events(&Commands::Api {
        start: true,
        stop: false,
        port: 9000,
    })
    .unwrap();
    let payload = events[0].data.clone().unwrap();
    assert_eq!(payload.get("port").and_then(|v| v.as_u64()), Some(9000));
}

#[test]
fn test_config_validation() {
    let mut config = CamaleonConfig {
        general: GeneralConfig {
            log_level: "info".to_string(),
            adaptive_mode: true,
            default_posture: "neutral".to_string(),
        },
        skinshift: SkinshiftConfig {
            enabled: true,
            presets_dir: "presets".to_string(),
            rotation_interval: None,
        },
        eye360: ConfEye360 {
            enabled: true,
            syscall_monitoring: true,
            log_suspicious: true,
            ebpf_enabled: false,
        },
        nettongue: NettongueConfig {
            enabled: true,
            pcap_enabled: false,
            interface: "eth0".to_string(),
            latency_fuzz_enabled: false,
            latency_fuzz_min_ms: 50,
            latency_fuzz_max_ms: 200,
        },
        lurefield: ConfLurefield {
            enabled: true,
            honeypot_dir: "honeypots".to_string(),
            max_honeypots: 5,
            auto_deploy: false,
        },
        posture: PostureConfig {
            change_threshold: 750,
            service_rotation_enabled: false,
            service_rotation_interval: 7200,
            postures: vec!["silent".to_string(), "neutral".to_string()],
        },
    };
    assert!(config.validate().is_ok());

    config.posture.change_threshold = 1500;
    assert!(config.validate().is_err());
    config.posture.change_threshold = 750;

    config.general.default_posture = "sideways".to_string();
    assert!(config.validate().is_err());
    config.general.default_posture = "neutral".to_string();

    config.nettongue.latency_fuzz_min_ms = 300;
    assert!(config.validate().is_err());
}

#[test]
fn test_events_page() {
    let mut events = Vec::new();
    for i in 0..5u32 {
        let source = if i % 2 == 0 { "even" } else { "odd" };
        events.push(camaleon::events::Event::new(
            EventType::NetworkActivity,
            source,
            None,
        ));
    }
    events.push(camaleon::events::Event::new(
        EventType::SecurityAlert,
        "even",
        None,
    ));

    assert_eq!(default_page(), 0);
    assert_eq!(default_page_size(), 20);

    let source = "even".to_string();
    let page = events_page(&events, None, Some(&source), 0, 2);
    assert_eq!(page.total, 4);
    assert_eq!(page.events.len(), 2);
    assert_eq!(page.events[0].source, "even");

    let second = events_page(&events, None, Some(&source), 1, 2);
    assert_eq!(second.events.len(), 2);
    let beyond = events_page(&events, None, Some(&source), 5, 2);
    assert_eq!(beyond.events.len(), 0);

    let kind = "SecurityAlert".to_string();
    let alerts = events_page(&events, Some(&kind), None, 0, 10);
    assert_eq!(alerts.total, 1);
    assert_eq!(alerts.events[0].severity, "High");
}
