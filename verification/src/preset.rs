//! Fingerprint presets: a named bundle of an OS fingerprint, service
//! banners, firewall rules and service configurations.  Loading and saving
//! preset files is the host application's business; the default presets are
//! built here as plain values.

use vstd::prelude::*;

use crate::fingerprint::OSFingerprint;
use crate::firewall::FirewallRule;
use crate::kv::StrMap;

verus! {

/// A named fingerprint preset.
pub struct FingerprintPreset {
    /// Name of the preset.
    pub name: String,
    /// What the preset mimics.
    pub description: String,
    /// The OS fingerprint to present.
    pub fingerprint: OSFingerprint,
    banners: StrMap<String>,
    /// Firewall rules, where the preset carries any.
    pub firewall_rules: Option<Vec<FirewallRule>>,
    services: StrMap<serde_json::Value>,
    metadata: Option<StrMap<serde_json::Value>>,
}

impl FingerprintPreset {
    /// The banner configured for a service.
    pub closed spec fn spec_banner(&self, service: Seq<char>) -> Option<String> {
        self.banners.spec_get(service)
    }

    /// The configuration document of a service.
    pub closed spec fn spec_service(&self, service: Seq<char>) -> Option<serde_json::Value> {
        self.services.spec_get(service)
    }

    /// A metadata entry.
    pub closed spec fn spec_metadata(&self, key: Seq<char>) -> Option<serde_json::Value> {
        match self.metadata {
            Some(m) => m.spec_get(key),
            None => None,
        }
    }

    pub closed spec fn spec_name(&self) -> Seq<char> {
        self.name@
    }

    pub closed spec fn spec_description(&self) -> Seq<char> {
        self.description@
    }

    pub closed spec fn spec_fingerprint(&self) -> &OSFingerprint {
        &self.fingerprint
    }

    pub closed spec fn spec_rules(&self) -> Option<Vec<FirewallRule>> {
        self.firewall_rules
    }

    /// The banners, as service-banner pairs.
    pub closed spec fn spec_banner_entries(&self) -> Seq<(String, String)> {
        self.banners.entries()
    }

    /// The service configurations, as name-document pairs.
    pub closed spec fn spec_service_entries(&self) -> Seq<(String, serde_json::Value)> {
        self.services.entries()
    }

    pub closed spec fn wf(&self) -> bool {
        &&& self.banners.wf()
        &&& self.services.wf()
        &&& match self.metadata {
            Some(m) => m.wf(),
            None => true,
        }
    }

    /// A preset with no banners, rules, services or metadata.
    pub fn new(name: &str, description: &str, fingerprint: OSFingerprint) -> (r: Self)
        ensures
            r.wf(),
            r.spec_name() == name@,
            r.spec_description() == description@,
            r.spec_fingerprint() == fingerprint,
            r.spec_rules() is None,
            forall|s: Seq<char>| r.spec_banner(s) == None::<String>,
            forall|s: Seq<char>| r.spec_service(s) == None::<serde_json::Value>,
            forall|s: Seq<char>| r.spec_metadata(s) == None::<serde_json::Value>,
    {
        FingerprintPreset {
            name: name.to_owned(),
            description: description.to_owned(),
            fingerprint,
            banners: StrMap::new(),
            firewall_rules: None,
            services: StrMap::new(),
            metadata: None,
        }
    }

    /// Set the banner of a service.
    pub fn add_banner(&mut self, service: &str, banner: &str)
        requires
            old(self).wf(),
        ensures
            final(self).wf(),
            final(self).spec_banner(service@) matches Some(b) && b@ == banner@,
            forall|s: Seq<char>|
                s != service@ ==> final(self).spec_banner(s) == old(self).spec_banner(s),
            forall|s: Seq<char>| final(self).spec_service(s) == old(self).spec_service(s),
            forall|s: Seq<char>| final(self).spec_metadata(s) == old(self).spec_metadata(s),
            final(self).spec_name() == old(self).spec_name(),
            final(self).spec_fingerprint() == old(self).spec_fingerprint(),
            final(self).spec_rules() == old(self).spec_rules(),
    {
        self.banners.set(service.to_owned(), banner.to_owned());
    }

    /// The preset's name.
    pub fn name(&self) -> (r: &String)
        ensures
            r@ == self.spec_name(),
    {
        &self.name
    }

    /// The banners, as pairs, read-only.
    pub fn banners(&self) -> (r: &Vec<(String, String)>)
        ensures
            r@ == self.spec_banner_entries(),
    {
        self.banners.pairs()
    }

    /// The service configurations, as pairs, read-only.
    pub fn services(&self) -> (r: &Vec<(String, serde_json::Value)>)
        ensures
            r@ == self.spec_service_entries(),
    {
        self.services.pairs()
    }

    /// The banner of a service, read back.
    pub fn banner(&self, service: &str) -> (r: Option<&String>)
        ensures
            match r {
                Some(b) => self.spec_banner(service@) == Some(*b),
                None => self.spec_banner(service@) == None::<String>,
            },
    {
        self.banners.get(service)
    }

    /// Append a firewall rule.
    pub fn add_firewall_rule(&mut self, rule: FirewallRule)
        requires
            old(self).wf(),
        ensures
            final(self).wf(),
            final(self).spec_rules() matches Some(rules) && rules@.len() == (match old(
                self,
            ).spec_rules() {
                Some(o) => o@.len() as int + 1,
                None => 1int,
            }),
            forall|s: Seq<char>| final(self).spec_banner(s) == old(self).spec_banner(s),
            forall|s: Seq<char>| final(self).spec_service(s) == old(self).spec_service(s),
            forall|s: Seq<char>| final(self).spec_metadata(s) == old(self).spec_metadata(s),
    {
        if self.firewall_rules.is_none() {
            self.firewall_rules = Some(Vec::new());
        }
        if let Some(rules) = &mut self.firewall_rules {
            rules.push(rule);
        }
    }

    /// Set the configuration document of a service.
    pub fn add_service_config(&mut self, service: &str, config: serde_json::Value)
        requires
            old(self).wf(),
        ensures
            final(self).wf(),
            final(self).spec_service(service@) == Some(config),
            forall|s: Seq<char>|
                s != service@ ==> final(self).spec_service(s) == old(self).spec_service(s),
            forall|s: Seq<char>| final(self).spec_banner(s) == old(self).spec_banner(s),
            forall|s: Seq<char>| final(self).spec_metadata(s) == old(self).spec_metadata(s),
    {
        self.services.set(service.to_owned(), config);
    }

    /// The configuration document of a service, read back.
    pub fn service_config(&self, service: &str) -> (r: Option<&serde_json::Value>)
        ensures
            match r {
                Some(v) => self.spec_service(service@) == Some(*v),
                None => self.spec_service(service@) == None::<serde_json::Value>,
            },
    {
        self.services.get(service)
    }

    /// Set a metadata entry.
    pub fn add_metadata(&mut self, key: &str, value: serde_json::Value)
        requires
            old(self).wf(),
        ensures
            final(self).wf(),
            final(self).spec_metadata(key@) == Some(value),
            forall|s: Seq<char>|
                s != key@ ==> final(self).spec_metadata(s) == old(self).spec_metadata(s),
            forall|s: Seq<char>| final(self).spec_banner(s) == old(self).spec_banner(s),
            forall|s: Seq<char>| final(self).spec_service(s) == old(self).spec_service(s),
    {
        if self.metadata.is_none() {
            self.metadata = Some(StrMap::new());
        }
        if let Some(metadata) = &mut self.metadata {
            metadata.set(key.to_owned(), value);
        }
    }
}

/// The default presets, one per posture: a Windows server, a standard Linux
/// server with an SSH banner, a vulnerable-looking router, and two minimal
/// profiles with randomized properties.
pub fn default_presets() -> (r: Vec<FingerprintPreset>)
    ensures
        r@.len() == 5,
        r@[0].spec_name() == "windows_server2019"@,
        r@[1].spec_name() == "linux_standard"@,
        r@[2].spec_name() == "router_vulnerable"@,
        r@[3].spec_name() == "silent_minimal"@,
        r@[4].spec_name() == "random_changing"@,
        r@[1].spec_banner("ssh"@) matches Some(b) && b@
            == "SSH-2.0-OpenSSH_7.9p1 Debian-10+deb10u2"@,
{
    let mut out: Vec<FingerprintPreset> = Vec::new();
    out.push(
        FingerprintPreset::new(
            "windows_server2019",
            "Windows Server 2019",
            OSFingerprint::windows(Some("Server 2019".to_owned())),
        ),
    );
    let mut linux_standard = FingerprintPreset::new(
        "linux_standard",
        "Standard Linux Server",
        OSFingerprint::linux(Some("4.19".to_owned())),
    );
    linux_standard.add_banner("ssh", "SSH-2.0-OpenSSH_7.9p1 Debian-10+deb10u2");
    out.push(linux_standard);
    out.push(
        FingerprintPreset::new(
            "router_vulnerable",
            "Vulnerable Router",
            OSFingerprint::router("Generic Router"),
        ),
    );
    out.push(
        FingerprintPreset::new(
            "silent_minimal",
            "Minimal Stealth Profile",
            OSFingerprint::minimal(),
        ),
    );
    out.push(
        FingerprintPreset::new(
            "random_changing",
            "Random Changing Profile",
            OSFingerprint::minimal(),
        ),
    );
    out
}

} // verus!
