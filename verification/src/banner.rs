//! Service banner configurations.  The library builds and transforms banner
//! configurations as plain values; writing them into service configuration
//! files is the host application's business.

use vstd::prelude::*;

use crate::kv::StrMap;
use crate::rx;
use crate::skinshift::SkinshiftError;
use crate::strutil;

verus! {

/// How one service's banner is to be changed.
#[derive(Debug, PartialEq)]
pub struct BannerConfig {
    /// Service name, such as `ssh` or `http`.
    pub service_name: String,
    /// Banner text to display.
    pub banner_text: String,
    /// Configuration file path, where one is known.
    pub config_path: Option<String>,
    /// Pattern locating the banner line in the configuration file.
    pub pattern: Option<String>,
    /// Whether to replace the located line or append the banner.
    pub replace: bool,
}

impl BannerConfig {
    /// A banner configuration with no file path or pattern, replacing.
    pub fn new(service_name: &str, banner_text: &str) -> (r: Self)
        ensures
            r.service_name@ == service_name@,
            r.banner_text@ == banner_text@,
            r.config_path is None,
            r.pattern is None,
            r.replace,
    {
        BannerConfig {
            service_name: service_name.to_owned(),
            banner_text: banner_text.to_owned(),
            config_path: None,
            pattern: None,
            replace: true,
        }
    }

    /// Set the configuration file path.
    pub fn with_config_path(self, path: &str) -> (r: Self)
        ensures
            r.config_path matches Some(p) && p@ == path@,
            r.service_name == self.service_name,
            r.banner_text == self.banner_text,
            r.pattern == self.pattern,
            r.replace == self.replace,
    {
        BannerConfig { config_path: Some(path.to_owned()), ..self }
    }

    /// Set the pattern locating the banner.
    pub fn with_pattern(self, pattern: &str) -> (r: Self)
        ensures
            r.pattern matches Some(p) && p@ == pattern@,
            r.service_name == self.service_name,
            r.banner_text == self.banner_text,
            r.config_path == self.config_path,
            r.replace == self.replace,
    {
        BannerConfig { pattern: Some(pattern.to_owned()), ..self }
    }

    /// Set whether to replace or append.
    pub fn with_replace(self, replace: bool) -> (r: Self)
        ensures
            r.replace == replace,
            r.service_name == self.service_name,
            r.banner_text == self.banner_text,
            r.config_path == self.config_path,
            r.pattern == self.pattern,
    {
        BannerConfig { replace, ..self }
    }
}

/// Manager of service banners: remembers the original and current banner of
/// each service and builds the per-service configurations.
pub struct BannerManager {
    original_banners: StrMap<String>,
    current_banners: StrMap<String>,
}

impl BannerManager {
    /// The original banner remembered for a service.
    pub closed spec fn spec_original(&self, service: Seq<char>) -> Option<String> {
        self.original_banners.spec_get(service)
    }

    /// The current banner remembered for a service.
    pub closed spec fn spec_current(&self, service: Seq<char>) -> Option<String> {
        self.current_banners.spec_get(service)
    }

    pub closed spec fn wf(&self) -> bool {
        &&& self.original_banners.wf()
        &&& self.current_banners.wf()
    }

    /// A fresh manager with nothing remembered.
    pub fn new() -> (r: Self)
        ensures
            r.wf(),
            forall|s: Seq<char>| r.spec_original(s) == None::<String>,
            forall|s: Seq<char>| r.spec_current(s) == None::<String>,
    {
        BannerManager {
            original_banners: StrMap::new(),
            current_banners: StrMap::new(),
        }
    }

    /// Remember a service's original banner, the first time only.
    pub fn remember_original(&mut self, service: &str, banner: &str)
        requires
            old(self).wf(),
        ensures
            final(self).wf(),
            old(self).spec_original(service@) is Some ==> final(self).spec_original(service@)
                == old(self).spec_original(service@),
            old(self).spec_original(service@) is None ==> (final(self).spec_original(service@)
                matches Some(b) && b@ == banner@),
            forall|s: Seq<char>|
                s != service@ ==> final(self).spec_original(s) == old(self).spec_original(s),
            forall|s: Seq<char>| final(self).spec_current(s) == old(self).spec_current(s),
    {
        if !self.original_banners.has_key(service) {
            self.original_banners.set(service.to_owned(), banner.to_owned());
        }
    }

    /// Remember a service's current banner.
    pub fn remember_current(&mut self, service: &str, banner: &str)
        requires
            old(self).wf(),
        ensures
            final(self).wf(),
            final(self).spec_current(service@) matches Some(b) && b@ == banner@,
            forall|s: Seq<char>|
                s != service@ ==> final(self).spec_current(s) == old(self).spec_current(s),
            forall|s: Seq<char>| final(self).spec_original(s) == old(self).spec_original(s),
    {
        self.current_banners.set(service.to_owned(), banner.to_owned());
    }

    /// The banner configuration for a service, by its (case-insensitive)
    /// name; an unknown service is refused with a `BannerError`.
    pub fn banner_config_for(&self, service_name: &str, banner: &str) -> (r: Result<
        BannerConfig,
        SkinshiftError,
    >)
        ensures
            match r {
                Ok(c) => c.banner_text@ == banner@,
                Err(e) => e matches SkinshiftError::BannerError(_),
            },
            r is Ok <==> {
                ||| strutil::ci_eq(service_name@, "ssh"@)
                ||| strutil::ci_eq(service_name@, "http"@)
                ||| strutil::ci_eq(service_name@, "apache"@)
                ||| strutil::ci_eq(service_name@, "nginx"@)
                ||| strutil::ci_eq(service_name@, "ftp"@)
                ||| strutil::ci_eq(service_name@, "smtp"@)
                ||| strutil::ci_eq(service_name@, "telnet"@)
            },
    {
        if strutil::str_eq_ci(service_name, "ssh") {
            Ok(self.get_ssh_config(banner))
        } else if strutil::str_eq_ci(service_name, "http") || strutil::str_eq_ci(
            service_name,
            "apache",
        ) || strutil::str_eq_ci(service_name, "nginx") {
            Ok(self.get_http_config(service_name, banner))
        } else if strutil::str_eq_ci(service_name, "ftp") {
            Ok(self.get_ftp_config(banner))
        } else if strutil::str_eq_ci(service_name, "smtp") {
            Ok(self.get_smtp_config(banner))
        } else if strutil::str_eq_ci(service_name, "telnet") {
            Ok(self.get_telnet_config(banner))
        } else {
            let mut msg = "Unknown service: ".to_owned();
            msg.append(service_name);
            Err(SkinshiftError::BannerError(msg))
        }
    }

    /// The SSH banner configuration: the `Banner` line of `sshd_config`.
    pub fn get_ssh_config(&self, banner: &str) -> (r: BannerConfig)
        ensures
            r.service_name@ == "ssh"@,
            r.banner_text@ == banner@,
            r.config_path matches Some(p) && p@ == "/etc/ssh/sshd_config"@,
            r.pattern is Some,
            r.replace,
    {
        BannerConfig::new("ssh", banner).with_config_path("/etc/ssh/sshd_config").with_pattern(
            "^#?Banner\\s+.*$",
        ).with_replace(true)
    }

    /// The HTTP banner configuration: the server-tokens line of the web
    /// server's configuration, or an in-memory banner for other servers.
    pub fn get_http_config(&self, server_type: &str, banner: &str) -> (r: BannerConfig)
        ensures
            r.service_name@ == "http"@,
            r.banner_text@ == banner@,
            strutil::ci_eq(server_type@, "apache"@) ==> (r.config_path matches Some(p) && p@
                == "/etc/apache2/apache2.conf"@),
            strutil::ci_eq(server_type@, "nginx"@) ==> (r.config_path matches Some(p) && p@
                == "/etc/nginx/nginx.conf"@),
            !strutil::ci_eq(server_type@, "apache"@) && !strutil::ci_eq(server_type@, "nginx"@)
                ==> r.config_path is None,
    {
        proof {
            reveal_strlit("apache");
            reveal_strlit("nginx");
            assert(strutil::spec_lower("apache"@).len() == 6);
            assert(strutil::spec_lower("nginx"@).len() == 5);
        }
        if strutil::str_eq_ci(server_type, "apache") {
            BannerConfig::new("http", banner).with_config_path(
                "/etc/apache2/apache2.conf",
            ).with_pattern("^ServerTokens\\s+.*$").with_replace(true)
        } else if strutil::str_eq_ci(server_type, "nginx") {
            BannerConfig::new("http", banner).with_config_path(
                "/etc/nginx/nginx.conf",
            ).with_pattern("^server_tokens\\s+.*$").with_replace(true)
        } else {
            BannerConfig::new("http", banner)
        }
    }

    /// The FTP banner configuration: the banner line of `vsftpd.conf`.
    pub fn get_ftp_config(&self, banner: &str) -> (r: BannerConfig)
        ensures
            r.service_name@ == "ftp"@,
            r.banner_text@ == banner@,
            r.config_path matches Some(p) && p@ == "/etc/vsftpd.conf"@,
            r.replace,
    {
        BannerConfig::new("ftp", banner).with_config_path("/etc/vsftpd.conf").with_pattern(
            "^#?ftpd_banner=.*$",
        ).with_replace(true)
    }

    /// The SMTP banner configuration: the banner line of postfix's `main.cf`.
    pub fn get_smtp_config(&self, banner: &str) -> (r: BannerConfig)
        ensures
            r.service_name@ == "smtp"@,
            r.banner_text@ == banner@,
            r.config_path matches Some(p) && p@ == "/etc/postfix/main.cf"@,
            r.replace,
    {
        BannerConfig::new("smtp", banner).with_config_path("/etc/postfix/main.cf").with_pattern(
            "^#?smtpd_banner\\s*=.*$",
        ).with_replace(true)
    }

    /// The Telnet banner configuration: the whole of `issue.net`.
    pub fn get_telnet_config(&self, banner: &str) -> (r: BannerConfig)
        ensures
            r.service_name@ == "telnet"@,
            r.banner_text@ == banner@,
            r.config_path matches Some(p) && p@ == "/etc/issue.net"@,
            r.replace,
    {
        BannerConfig::new("telnet", banner).with_config_path("/etc/issue.net").with_replace(true)
    }
}

impl Default for BannerManager {
    fn default() -> (r: Self)
        ensures
            r.wf(),
    {
        BannerManager::new()
    }
}

/// What a configuration file's contents become under a banner configuration:
/// with a valid pattern and replacement on, every pattern match is replaced
/// by the banner text; otherwise the banner text is appended.
pub open spec fn spec_rewritten(content: Seq<char>, c: BannerConfig) -> Seq<char> {
    match c.pattern {
        Some(p) => if c.replace {
            rx::regex_replaced_of(p@, content, c.banner_text@)
        } else {
            content + c.banner_text@
        },
        None => content + c.banner_text@,
    }
}

/// Rewrite a configuration file's contents under a banner configuration; an
/// invalid pattern is refused with a `BannerError`.
pub fn rewrite_banner(content: &str, config: &BannerConfig) -> (r: Result<String, SkinshiftError>)
    ensures
        r matches Ok(s) ==> s@ == spec_rewritten(content@, *config),
        r matches Err(e) ==> e matches SkinshiftError::BannerError(_),
        config.pattern is None ==> r is Ok,
        !config.replace ==> r is Ok,
{
    match &config.pattern {
        Some(pattern) => {
            if config.replace {
                match rx::regex_new(pattern.as_str()) {
                    Some(re) => Ok(
                        rx::regex_replace_all(&re, content, config.banner_text.as_str()),
                    ),
                    None => Err(
                        SkinshiftError::BannerError("invalid banner pattern".to_owned()),
                    ),
                }
            } else {
                let mut out = content.to_owned();
                out.append(config.banner_text.as_str());
                Ok(out)
            }
        },
        None => {
            let mut out = content.to_owned();
            out.append(config.banner_text.as_str());
            Ok(out)
        },
    }
}

} // verus!
