//! Service configurations as plain values, and the reading of one out of a
//! loosely-typed JSON document.  Enabling and configuring the host's services
//! is the application's business.

use vstd::prelude::*;

use crate::json;
use crate::kv::StrMap;

verus! {

/// One service's configuration.
pub struct ServiceConfig {
    /// Service name.
    pub name: String,
    /// Whether the service is enabled.
    pub enabled: bool,
    /// Port number, where one is set.
    pub port: Option<u16>,
    options: StrMap<serde_json::Value>,
}

impl ServiceConfig {
    /// A configuration option.
    pub closed spec fn spec_option(&self, key: Seq<char>) -> Option<serde_json::Value> {
        self.options.spec_get(key)
    }

    pub closed spec fn spec_name(&self) -> Seq<char> {
        self.name@
    }

    pub closed spec fn spec_enabled(&self) -> bool {
        self.enabled
    }

    pub closed spec fn spec_port(&self) -> Option<u16> {
        self.port
    }

    pub closed spec fn spec_options_len(&self) -> nat {
        self.options.entries().len()
    }

    pub closed spec fn wf(&self) -> bool {
        self.options.wf()
    }

    /// A configuration with no port and no options.
    pub fn new(name: &str, enabled: bool) -> (r: Self)
        ensures
            r.wf(),
            r.spec_name() == name@,
            r.spec_enabled() == enabled,
            r.spec_port() is None,
            r.spec_options_len() == 0,
            forall|k: Seq<char>| r.spec_option(k) == None::<serde_json::Value>,
    {
        ServiceConfig { name: name.to_owned(), enabled, port: None, options: StrMap::new() }
    }

    /// Set the port number.
    pub fn with_port(self, port: u16) -> (r: Self)
        requires
            self.wf(),
        ensures
            r.wf(),
            r.spec_port() == Some(port),
            r.spec_name() == self.spec_name(),
            r.spec_enabled() == self.spec_enabled(),
            forall|k: Seq<char>| r.spec_option(k) == self.spec_option(k),
    {
        ServiceConfig { port: Some(port), ..self }
    }

    /// Add an option.
    pub fn with_option(self, key: &str, value: serde_json::Value) -> (r: Self)
        requires
            self.wf(),
        ensures
            r.wf(),
            r.spec_option(key@) == Some(value),
            forall|k: Seq<char>| k != key@ ==> r.spec_option(k) == self.spec_option(k),
            r.spec_name() == self.spec_name(),
            r.spec_enabled() == self.spec_enabled(),
            r.spec_port() == self.spec_port(),
    {
        let mut out = self;
        out.options.set(key.to_owned(), value);
        out
    }

    /// An option's value, read back.
    pub fn option(&self, key: &str) -> (r: Option<&serde_json::Value>)
        ensures
            match r {
                Some(v) => self.spec_option(key@) == Some(*v),
                None => self.spec_option(key@) == None::<serde_json::Value>,
            },
    {
        self.options.get(key)
    }
}

/// What parsing a service configuration document reads out of it: the
/// `enabled` flag (on by default), the `port` number if it fits a port, and
/// the members of the `options` object.
pub open spec fn spec_parsed_enabled(config: serde_json::Value) -> bool {
    match json::json_member_of(config, "enabled"@) {
        Some(m) => match json::json_bool_read_of(m) {
            Some(b) => b,
            None => true,
        },
        None => true,
    }
}

/// What a sequence of JSON object members associates with a key: the last
/// member under that key, if any.
pub open spec fn spec_member_lookup(
    es: Seq<(Seq<char>, serde_json::Value)>,
    k: Seq<char>,
) -> Option<serde_json::Value>
    decreases es.len(),
{
    if es.len() == 0 {
        None
    } else if es.last().0 == k {
        Some(es.last().1)
    } else {
        spec_member_lookup(es.drop_last(), k)
    }
}

/// The port number a configuration document carries, if one fits.
pub open spec fn spec_parsed_port(config: serde_json::Value) -> Option<u16> {
    match json::json_member_of(config, "port"@) {
        Some(m) => match json::json_u64_read_of(m) {
            Some(p) => if p <= u16::MAX {
                Some(p as u16)
            } else {
                None
            },
            None => None,
        },
        None => None,
    }
}

/// Read a service configuration out of a loosely-typed document: the name is
/// the caller's, the flag and port come from the document, and the members of
/// its `options` object become the options, in the object's own order.
pub fn parse_service_config(service_name: &str, config: &serde_json::Value) -> (r: ServiceConfig)
    ensures
        r.wf(),
        r.spec_name() == service_name@,
        r.spec_enabled() == spec_parsed_enabled(*config),
        r.spec_port() == spec_parsed_port(*config),
        match json::json_member_of(*config, "options"@) {
            Some(doc) => match json::json_entries_of(doc) {
                Some(es) => forall|k: Seq<char>|
                    #![trigger r.spec_option(k)]
                    r.spec_option(k) == spec_member_lookup(es, k),
                None => forall|k: Seq<char>| r.spec_option(k) == None::<serde_json::Value>,
            },
            None => forall|k: Seq<char>| r.spec_option(k) == None::<serde_json::Value>,
        },
{
    let enabled: bool = match json::json_get(config, "enabled") {
        Some(m) => match json::json_as_bool(m) {
            Some(b) => b,
            None => true,
        },
        None => true,
    };
    let port: Option<u16> = match json::json_get(config, "port") {
        Some(m) => match json::json_as_u64(m) {
            Some(p) => if p <= u16::MAX as u64 {
                Some(p as u16)
            } else {
                None
            },
            None => None,
        },
        None => None,
    };
    let mut out = ServiceConfig::new(service_name, enabled);
    out.port = port;
    if let Some(options_doc) = json::json_get(config, "options") {
        if let Some(entries) = json::json_entries(options_doc) {
            let ghost es = json::fields_view(entries@);
            let n = entries.len();
            for i in 0..n
                invariant
                    n == entries@.len(),
                    es == json::fields_view(entries@),
                    out.wf(),
                    out.name@ == service_name@,
                    out.enabled == enabled,
                    out.port == port,
                    forall|k: Seq<char>|
                        #![trigger out.options.spec_get(k)]
                        out.options.spec_get(k) == spec_member_lookup(es.take(i as int), k),
            {
                proof {
                    assert(es.take(i + 1).drop_last() =~= es.take(i as int));
                    assert(es.take(i + 1).last() == es[i as int]);
                }
                let (k, v) = &entries[i];
                out.options.set(k.clone(), v.clone());
            }
            proof {
                assert(es.take(n as int) =~= es);
                assert forall|k: Seq<char>| #![trigger out.spec_option(k)]
                    out.spec_option(k) == spec_member_lookup(es, k) by {
                    assert(out.options.spec_get(k) == spec_member_lookup(es, k));
                }
            }
        }
    }
    out
}

} // verus!
