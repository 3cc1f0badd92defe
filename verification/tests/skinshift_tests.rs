//! Tests of banners, firewall rules, fingerprints, presets and service
//! configurations.

use camaleon::banner::{rewrite_banner, BannerConfig, BannerManager};
use camaleon::fingerprint::OSFingerprint;
use camaleon::firewall::FirewallRule;
use camaleon::preset::{default_presets, FingerprintPreset};
use camaleon::service::{parse_service_config, ServiceConfig};
use camaleon::skinshift::{preset_for_posture, SkinshiftError};

#[test]
fn test_banner_config() {
    let config = BannerConfig::new("test", "Test Banner")
        .with_config_path("/etc/test.conf")
        .with_pattern(r"^Banner\s+.*$")
        .with_replace(true);

    assert_eq!(config.service_name, "test");
    assert_eq!(config.banner_text, "Test Banner");
    assert_eq!(config.config_path, Some("/etc/test.conf".to_string()));
    assert_eq!(config.pattern, Some(r"^Banner\s+.*$".to_string()));
    assert_eq!(config.replace, true);
}

#[test]
fn test_banner_config_for_services() {
    let manager = BannerManager::new();
    let ssh = manager.banner_config_for("SSH", "welcome").unwrap();
    assert_eq!(ssh.service_name, "ssh");
    assert_eq!(ssh.config_path, Some("/etc/ssh/sshd_config".to_string()));
    let nginx = manager.banner_config_for("nginx", "srv").unwrap();
    assert_eq!(nginx.config_path, Some("/etc/nginx/nginx.conf".to_string()));
    assert!(matches!(
        manager.banner_config_for("gopher", "x"),
        Err(SkinshiftError::BannerError(_))
    ));
}

#[test]
fn test_rewrite_banner() {
    let manager = BannerManager::new();
    let config = manager.get_ssh_config("Banner /etc/warning");
    let rewritten = rewrite_banner("#Banner none", &config).unwrap();
    assert_eq!(rewritten, "Banner /etc/warning");

    // Without a pattern the banner is appended.
    let plain = BannerConfig::new("telnet", "away");
    assert_eq!(rewrite_banner("keep", &plain).unwrap(), "keepaway");
}

#[test]
fn test_firewall_rule() {
    let rule = FirewallRule::new("test", "tcp", "ACCEPT")
        .with_source("192.168.1.0/24")
        .with_destination_port("80");

    assert_eq!(rule.name, "test");
    assert_eq!(rule.protocol, "tcp");
    assert_eq!(rule.action, "ACCEPT");
    assert_eq!(rule.source, Some("192.168.1.0/24".to_string()));
    assert_eq!(rule.destination_port, Some("80".to_string()));
}

#[test]
fn test_to_iptables_args() {
    let rule = FirewallRule::new("test", "tcp", "ACCEPT")
        .with_source("192.168.1.0/24")
        .with_destination_port("80");

    let args = rule.to_iptables_args();

    assert!(args.contains(&"-p".to_string()));
    assert!(args.contains(&"tcp".to_string()));
    assert!(args.contains(&"-s".to_string()));
    assert!(args.contains(&"192.168.1.0/24".to_string()));
    assert!(args.contains(&"--dport".to_string()));
    assert!(args.contains(&"80".to_string()));
}

#[test]
fn test_to_iptables_args_exact() {
    let rule = FirewallRule::new("shield", "udp", "drop").with_destination("10.0.0.0/8");
    let args = rule.to_iptables_args();
    // The action is rendered upper-case and the comment carries the name.
    assert_eq!(
        args,
        vec![
            "-A".to_string(),
            "INPUT".to_string(),
            "-p".to_string(),
            "udp".to_string(),
            "-d".to_string(),
            "10.0.0.0/8".to_string(),
            "-j".to_string(),
            "DROP".to_string(),
            "-m".to_string(),
            "comment".to_string(),
            "--comment".to_string(),
            "CAMALEON: shield".to_string(),
        ]
    );
}

#[test]
fn test_fingerprint_profiles() {
    let windows = OSFingerprint::windows(Some("Server 2019".to_string()));
    assert_eq!(windows.os_family, "Windows");
    assert_eq!(windows.ttl, Some(128));
    assert_eq!(windows.window_size, Some(64240));

    let linux = OSFingerprint::linux(Some("4.19".to_string()));
    assert_eq!(linux.ttl, Some(64));
    assert_eq!(linux.timestamps, Some(true));

    let router = OSFingerprint::router("Generic Router");
    assert_eq!(router.ttl, Some(255));

    let minimal = OSFingerprint::minimal();
    let ttl = minimal.ttl.unwrap();
    assert!((10..200).contains(&ttl));
    let window = minimal.window_size.unwrap();
    assert!((1024..65535).contains(&window));
    let mss = minimal.mss.unwrap();
    assert!((536..1460).contains(&mss));
}

#[test]
fn test_fingerprint_preset() {
    let mut preset = FingerprintPreset::new(
        "test",
        "Test Preset",
        OSFingerprint::windows(Some("10".to_string())),
    );

    preset.add_banner("ssh", "SSH-2.0-OpenSSH_8.2p1");
    let mut http_config = serde_json::Map::new();
    http_config.insert(
        "port".to_string(),
        serde_json::Value::Number(serde_json::Number::from(80u64)),
    );
    http_config.insert("enabled".to_string(), serde_json::Value::Bool(true));
    preset.add_service_config("http", serde_json::Value::Object(http_config));

    assert_eq!(preset.name().as_str(), "test");
    assert_eq!(
        preset.banner("ssh"),
        Some(&"SSH-2.0-OpenSSH_8.2p1".to_string())
    );
    assert_eq!(
        preset
            .service_config("http")
            .and_then(|v| v.get("port"))
            .and_then(|v| v.as_u64()),
        Some(80)
    );
}

#[test]
fn test_default_presets() {
    let presets = default_presets();
    assert_eq!(presets.len(), 5);
    assert_eq!(presets[0].name().as_str(), "windows_server2019");
    assert_eq!(
        presets[1].banner("ssh"),
        Some(&"SSH-2.0-OpenSSH_7.9p1 Debian-10+deb10u2".to_string())
    );
    // Each posture selects one of them.
    assert_eq!(
        preset_for_posture(camaleon::posture::Posture::Neutral),
        "linux_standard"
    );
    assert_eq!(
        preset_for_posture(camaleon::posture::Posture::Unstable),
        "random_changing"
    );
}

#[test]
fn test_service_config() {
    let config = ServiceConfig::new("test", true).with_port(8080).with_option(
        "max_connections",
        serde_json::Value::Number(serde_json::Number::from(100u64)),
    );

    assert_eq!(config.name, "test");
    assert_eq!(config.enabled, true);
    assert_eq!(config.port, Some(8080));
    assert_eq!(
        config.option("max_connections").and_then(|v| v.as_u64()),
        Some(100)
    );
}

#[test]
fn test_parse_service_config() {
    let mut options = serde_json::Map::new();
    options.insert(
        "max_connections".to_string(),
        serde_json::Value::Number(serde_json::Number::from(100u64)),
    );
    let mut doc = serde_json::Map::new();
    doc.insert("enabled".to_string(), serde_json::Value::Bool(true));
    doc.insert(
        "port".to_string(),
        serde_json::Value::Number(serde_json::Number::from(8080u64)),
    );
    doc.insert("options".to_string(), serde_json::Value::Object(options));
    let config = serde_json::Value::Object(doc);

    let service_config = parse_service_config("test", &config);

    assert_eq!(service_config.name, "test");
    assert_eq!(service_config.enabled, true);
    assert_eq!(service_config.port, Some(8080));
    assert_eq!(
        service_config
            .option("max_connections")
            .and_then(|v| v.as_u64()),
        Some(100)
    );
}

#[test]
fn test_parse_service_config_defaults() {
    // A document without the fields enables the service, with no port.
    let empty = serde_json::Value::Object(serde_json::Map::new());
    let config = parse_service_config("bare", &empty);
    assert!(config.enabled);
    assert_eq!(config.port, None);
    // An oversized port number is dropped rather than truncated.
    let mut doc = serde_json::Map::new();
    doc.insert(
        "port".to_string(),
        serde_json::Value::Number(serde_json::Number::from(70000u64)),
    );
    let config = parse_service_config("big", &serde_json::Value::Object(doc));
    assert_eq!(config.port, None);
}
