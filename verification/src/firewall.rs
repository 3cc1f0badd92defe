//! Firewall rules as plain values, and their rendering into iptables
//! arguments.  Running iptables is the host application's business; the
//! manager here only keeps the bookkeeping of capabilities and active rules.

use vstd::prelude::*;

use crate::strutil::{self, spec_upper};

verus! {

/// One firewall rule.
#[derive(Debug, PartialEq)]
pub struct FirewallRule {
    /// Rule name, used in the iptables comment.
    pub name: String,
    /// Protocol: `tcp`, `udp`, `icmp` or `all`.
    pub protocol: String,
    /// Source network in CIDR form.
    pub source: Option<String>,
    /// Source port.
    pub source_port: Option<String>,
    /// Destination network in CIDR form.
    pub destination: Option<String>,
    /// Destination port.
    pub destination_port: Option<String>,
    /// Action: `accept`, `drop` or `reject`, rendered upper-case.
    pub action: String,
    /// Rule priority; higher is more important.
    pub priority: Option<u32>,
    /// Additional options.
    pub options: Option<Vec<(String, String)>>,
}

/// An optional argument pair: flag and value when the value is set.
pub open spec fn spec_opt_arg(flag: Seq<char>, v: Option<String>) -> Seq<Seq<char>> {
    match v {
        Some(s) => seq![flag, s@],
        None => Seq::empty(),
    }
}

/// The iptables arguments a rule renders to: append to INPUT, protocol,
/// optional source and destination selectors, the upper-cased action, and a
/// comment carrying the rule's name.
pub open spec fn spec_iptables_args(r: FirewallRule) -> Seq<Seq<char>> {
    seq!["-A"@, "INPUT"@, "-p"@, r.protocol@] + spec_opt_arg("-s"@, r.source) + spec_opt_arg(
        "--sport"@,
        r.source_port,
    ) + spec_opt_arg("-d"@, r.destination) + spec_opt_arg("--dport"@, r.destination_port) + seq![
        "-j"@,
        spec_upper(r.action@),
        "-m"@,
        "comment"@,
        "--comment"@,
        "CAMALEON: "@ + r.name@,
    ]
}

/// The views of a list of argument strings.
pub open spec fn spec_arg_views(args: Seq<String>) -> Seq<Seq<char>> {
    args.map_values(|s: String| s@)
}

impl FirewallRule {
    /// A rule with only name, protocol and action set.
    pub fn new(name: &str, protocol: &str, action: &str) -> (r: Self)
        ensures
            r.name@ == name@,
            r.protocol@ == protocol@,
            r.action@ == action@,
            r.source is None,
            r.source_port is None,
            r.destination is None,
            r.destination_port is None,
            r.priority is None,
            r.options is None,
    {
        FirewallRule {
            name: name.to_owned(),
            protocol: protocol.to_owned(),
            source: None,
            source_port: None,
            destination: None,
            destination_port: None,
            action: action.to_owned(),
            priority: None,
            options: None,
        }
    }

    /// Set the source network.
    pub fn with_source(self, source: &str) -> (r: Self)
        ensures
            r.source matches Some(s) && s@ == source@,
            r.name == self.name,
            r.protocol == self.protocol,
            r.action == self.action,
            r.source_port == self.source_port,
            r.destination == self.destination,
            r.destination_port == self.destination_port,
            r.priority == self.priority,
            r.options == self.options,
    {
        FirewallRule { source: Some(source.to_owned()), ..self }
    }

    /// Set the source port.
    pub fn with_source_port(self, port: &str) -> (r: Self)
        ensures
            r.source_port matches Some(s) && s@ == port@,
            r.name == self.name,
            r.protocol == self.protocol,
            r.action == self.action,
            r.source == self.source,
            r.destination == self.destination,
            r.destination_port == self.destination_port,
            r.priority == self.priority,
            r.options == self.options,
    {
        FirewallRule { source_port: Some(port.to_owned()), ..self }
    }

    /// Set the destination network.
    pub fn with_destination(self, destination: &str) -> (r: Self)
        ensures
            r.destination matches Some(s) && s@ == destination@,
            r.name == self.name,
            r.protocol == self.protocol,
            r.action == self.action,
            r.source == self.source,
            r.source_port == self.source_port,
            r.destination_port == self.destination_port,
            r.priority == self.priority,
            r.options == self.options,
    {
        FirewallRule { destination: Some(destination.to_owned()), ..self }
    }

    /// Set the destination port.
    pub fn with_destination_port(self, port: &str) -> (r: Self)
        ensures
            r.destination_port matches Some(s) && s@ == port@,
            r.name == self.name,
            r.protocol == self.protocol,
            r.action == self.action,
            r.source == self.source,
            r.source_port == self.source_port,
            r.destination == self.destination,
            r.priority == self.priority,
            r.options == self.options,
    {
        FirewallRule { destination_port: Some(port.to_owned()), ..self }
    }

    /// Set the priority.
    pub fn with_priority(self, priority: u32) -> (r: Self)
        ensures
            r.priority == Some(priority),
            r.name == self.name,
            r.protocol == self.protocol,
            r.action == self.action,
            r.source == self.source,
            r.source_port == self.source_port,
            r.destination == self.destination,
            r.destination_port == self.destination_port,
            r.options == self.options,
    {
        FirewallRule { priority: Some(priority), ..self }
    }

    /// Add an option pair.
    pub fn with_option(self, key: &str, value: &str) -> (r: Self)
        ensures
            r.options matches Some(opts) && opts@.len() == (match self.options {
                Some(o) => o@.len() as int + 1,
                None => 1int,
            }) && opts@.last().0@ == key@ && opts@.last().1@ == value@,
            r.name == self.name,
            r.protocol == self.protocol,
            r.action == self.action,
            r.source == self.source,
            r.source_port == self.source_port,
            r.destination == self.destination,
            r.destination_port == self.destination_port,
            r.priority == self.priority,
    {
        let mut opts: Vec<(String, String)> = match self.options {
            Some(o) => o,
            None => Vec::new(),
        };
        opts.push((key.to_owned(), value.to_owned()));
        FirewallRule { options: Some(opts), ..self }
    }

    /// Render the rule as iptables arguments; see [`spec_iptables_args`].
    pub fn to_iptables_args(&self) -> (r: Vec<String>)
        ensures
            spec_arg_views(r@) == spec_iptables_args(*self),
    {
        let mut args: Vec<String> = Vec::new();
        args.push("-A".to_owned());
        args.push("INPUT".to_owned());
        args.push("-p".to_owned());
        args.push(self.protocol.clone());
        if let Some(source) = &self.source {
            args.push("-s".to_owned());
            args.push(source.clone());
        }
        if let Some(sport) = &self.source_port {
            args.push("--sport".to_owned());
            args.push(sport.clone());
        }
        if let Some(destination) = &self.destination {
            args.push("-d".to_owned());
            args.push(destination.clone());
        }
        if let Some(dport) = &self.destination_port {
            args.push("--dport".to_owned());
            args.push(dport.clone());
        }
        args.push("-j".to_owned());
        args.push(strutil::to_ascii_upper(self.action.as_str()));
        args.push("-m".to_owned());
        args.push("comment".to_owned());
        args.push("--comment".to_owned());
        let mut comment = "CAMALEON: ".to_owned();
        comment.append(self.name.as_str());
        args.push(comment);
        proof {
            assert(spec_arg_views(args@) =~= spec_iptables_args(*self));
        }
        args
    }
}

/// Bookkeeping of the firewall: what the host offers, the saved original
/// rules, and the custom rules currently active.  Probing and applying rules
/// is the host application's business.
pub struct FirewallManager {
    has_iptables: bool,
    has_superuser: bool,
    original_rules: Vec<String>,
    active_rules: Vec<FirewallRule>,
}

impl FirewallManager {
    pub closed spec fn spec_has_iptables(&self) -> bool {
        self.has_iptables
    }

    pub closed spec fn spec_has_superuser(&self) -> bool {
        self.has_superuser
    }

    /// The saved original rules, line by line.
    pub closed spec fn spec_original_rules(&self) -> Seq<String> {
        self.original_rules@
    }

    /// The custom rules currently active, in application order.
    pub closed spec fn spec_active_rules(&self) -> Seq<FirewallRule> {
        self.active_rules@
    }

    /// A manager built from the probed capabilities and the saved rules.
    pub fn with_capabilities(
        has_iptables: bool,
        has_superuser: bool,
        original_rules: Vec<String>,
    ) -> (r: Self)
        ensures
            r.spec_has_iptables() == has_iptables,
            r.spec_has_superuser() == has_superuser,
            r.spec_original_rules() == original_rules@,
            r.spec_active_rules().len() == 0,
    {
        FirewallManager { has_iptables, has_superuser, original_rules, active_rules: Vec::new() }
    }

    /// Whether rules can actually be applied on this host.
    pub fn can_apply(&self) -> (r: bool)
        ensures
            r == (self.spec_has_iptables() && self.spec_has_superuser()),
    {
        self.has_iptables && self.has_superuser
    }

    /// Note a rule as active.
    pub fn note_rule_applied(&mut self, rule: FirewallRule)
        ensures
            final(self).spec_active_rules() == old(self).spec_active_rules().push(rule),
            final(self).spec_original_rules() == old(self).spec_original_rules(),
            final(self).spec_has_iptables() == old(self).spec_has_iptables(),
            final(self).spec_has_superuser() == old(self).spec_has_superuser(),
    {
        self.active_rules.push(rule);
    }

    /// Forget all active rules, after a reset.
    pub fn note_reset(&mut self)
        ensures
            final(self).spec_active_rules().len() == 0,
            final(self).spec_original_rules() == old(self).spec_original_rules(),
            final(self).spec_has_iptables() == old(self).spec_has_iptables(),
            final(self).spec_has_superuser() == old(self).spec_has_superuser(),
    {
        self.active_rules.clear();
    }

    /// The active rules, read-only.
    pub fn active_rules(&self) -> (r: &Vec<FirewallRule>)
        ensures
            r@ == self.spec_active_rules(),
    {
        &self.active_rules
    }
}

} // verus!
