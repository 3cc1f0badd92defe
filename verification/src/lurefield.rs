//! Honeypot management: types of honeypots, deployment options, and the
//! bookkeeping of deployed honeypots.  Spawning honeypot processes and
//! sending events is the host application's business; deployment decisions
//! and counts are verified here.

use vstd::prelude::*;

use crate::clock;
use crate::events::{Event, EventType};
use crate::json;
use crate::kv::StrMap;
use crate::strutil::{self, ci_eq, spec_lower};

verus! {

/// Errors of the honeypot subsystem.
#[derive(Debug, PartialEq, Eq)]
pub enum LurefieldError {
    /// A honeypot could not be created.
    HoneypotCreation(String),
    /// A honeypot could not be deployed or found.
    HoneypotDeployment(String),
    /// A template failed.
    Template(String),
    /// An input/output failure, carried as text.
    Io(String),
    /// The configured maximum number of honeypots is reached.
    MaxHoneypotsReached,
}

/// Configuration of the honeypot subsystem.
#[derive(Debug, PartialEq)]
pub struct LurefieldConfig {
    /// Directory holding honeypot templates.
    pub honeypot_dir: String,
    /// Most honeypots deployed at once.
    pub max_honeypots: u32,
    /// Whether to deploy a basic set automatically.
    pub auto_deploy: bool,
}

impl Default for LurefieldConfig {
    /// The default configuration: `./honeypots`, at most five, no automatic
    /// deployment.
    fn default() -> (r: Self)
        ensures
            r.honeypot_dir@ == "./honeypots"@,
            r.max_honeypots == 5,
            !r.auto_deploy,
    {
        LurefieldConfig {
            honeypot_dir: "./honeypots".to_owned(),
            max_honeypots: 5,
            auto_deploy: false,
        }
    }
}

/// Types of honeypots that can be deployed.
#[derive(Debug, PartialEq, Eq)]
pub enum HoneypotType {
    /// An SSH server.
    Ssh,
    /// An HTTP server.
    Http,
    /// An FTP server.
    Ftp,
    /// An SMB server.
    Smb,
    /// A database server of the named kind.
    Database(String),
    /// A custom honeypot.
    Custom(String),
}

impl Clone for HoneypotType {
    fn clone(&self) -> (r: Self)
        ensures
            r == *self,
    {
        match self {
            HoneypotType::Ssh => HoneypotType::Ssh,
            HoneypotType::Http => HoneypotType::Http,
            HoneypotType::Ftp => HoneypotType::Ftp,
            HoneypotType::Smb => HoneypotType::Smb,
            HoneypotType::Database(db) => HoneypotType::Database(db.clone()),
            HoneypotType::Custom(name) => HoneypotType::Custom(name.clone()),
        }
    }
}

/// Position of the first occurrence of `c` in `s`, or nothing.
pub open spec fn spec_first_pos(s: Seq<char>, c: char) -> Option<int>
    decreases s.len(),
{
    if s.len() == 0 {
        None
    } else if s[0] == c {
        Some(0int)
    } else {
        match spec_first_pos(s.subrange(1, s.len() as int), c) {
            Some(i) => Some(i + 1),
            None => None,
        }
    }
}

/// The database kind named by a `db:` or `database:` spelling: the text of
/// the lowered name between the first colon and the next one (or the end).
pub open spec fn spec_db_kind(low: Seq<char>) -> Seq<char> {
    match spec_first_pos(low, ':') {
        Some(i) => {
            let rest = low.subrange(i + 1, low.len() as int);
            match spec_first_pos(rest, ':') {
                Some(j) => rest.subrange(0, j),
                None => rest,
            }
        },
        None => "generic"@,
    }
}

/// The honeypot type a spelling denotes: the known kinds by name without
/// regard to ASCII case, a `db:`/`database:` prefix naming a database kind,
/// and anything else a custom honeypot under its own spelling.
pub open spec fn spec_honeypot_from(s: Seq<char>) -> HoneypotTypeView {
    if ci_eq(s, "ssh"@) {
        HoneypotTypeView::Ssh
    } else if ci_eq(s, "http"@) {
        HoneypotTypeView::Http
    } else if ci_eq(s, "ftp"@) {
        HoneypotTypeView::Ftp
    } else if ci_eq(s, "smb"@) {
        HoneypotTypeView::Smb
    } else if spec_lower(s).len() >= 3 && spec_lower(s).take(3) == "db:"@ || spec_lower(s).len()
        >= 9 && spec_lower(s).take(9) == "database:"@ {
        HoneypotTypeView::Database(spec_db_kind(spec_lower(s)))
    } else {
        HoneypotTypeView::Custom(s)
    }
}

/// A honeypot type at the level of its text contents.
pub enum HoneypotTypeView {
    /// An SSH server.
    Ssh,
    /// An HTTP server.
    Http,
    /// An FTP server.
    Ftp,
    /// An SMB server.
    Smb,
    /// A database server of the named kind.
    Database(Seq<char>),
    /// A custom honeypot.
    Custom(Seq<char>),
}

impl HoneypotType {
    /// The text contents of a honeypot type.
    pub open spec fn view_of(&self) -> HoneypotTypeView {
        match self {
            HoneypotType::Ssh => HoneypotTypeView::Ssh,
            HoneypotType::Http => HoneypotTypeView::Http,
            HoneypotType::Ftp => HoneypotTypeView::Ftp,
            HoneypotType::Smb => HoneypotTypeView::Smb,
            HoneypotType::Database(db) => HoneypotTypeView::Database(db@),
            HoneypotType::Custom(name) => HoneypotTypeView::Custom(name@),
        }
    }

    /// Parse a honeypot type from its spelling; see [`spec_honeypot_from`].
    /// Never fails: unknown spellings become custom honeypots.
    pub fn from_str(s: &str) -> (r: Result<Self, LurefieldError>)
        ensures
            r matches Ok(t) && t.view_of() == spec_honeypot_from(s@),
    {
        if strutil::str_eq_ci(s, "ssh") {
            Ok(HoneypotType::Ssh)
        } else if strutil::str_eq_ci(s, "http") {
            Ok(HoneypotType::Http)
        } else if strutil::str_eq_ci(s, "ftp") {
            Ok(HoneypotType::Ftp)
        } else if strutil::str_eq_ci(s, "smb") {
            Ok(HoneypotType::Smb)
        } else {
            proof {
                reveal_strlit("db:");
                reveal_strlit("database:");
            }
            let low = strutil::to_ascii_lower(s);
            if starts_with_plain(low.as_str(), "db:") || starts_with_plain(
                low.as_str(),
                "database:",
            ) {
                Ok(HoneypotType::Database(db_kind(low.as_str())))
            } else {
                Ok(HoneypotType::Custom(s.to_owned()))
            }
        }
    }

    /// The default port of each honeypot type.
    pub fn default_port(&self) -> (r: u16)
        ensures
            r == spec_default_port(self.view_of()),
    {
        match self {
            HoneypotType::Ssh => 22,
            HoneypotType::Http => 80,
            HoneypotType::Ftp => 21,
            HoneypotType::Smb => 445,
            HoneypotType::Database(db_type) => {
                if strutil::str_eq(db_type.as_str(), "mysql") {
                    3306
                } else if strutil::str_eq(db_type.as_str(), "mongodb") {
                    27017
                } else if strutil::str_eq(db_type.as_str(), "postgresql") {
                    5432
                } else if strutil::str_eq(db_type.as_str(), "redis") {
                    6379
                } else {
                    27017
                }
            },
            HoneypotType::Custom(_) => 8080,
        }
    }

    /// The spelling of a honeypot type; database and custom honeypots spell
    /// as their own names.
    pub fn to_str(&self) -> (r: &str)
        ensures
            r@ == spec_honeypot_text(self.view_of()),
    {
        match self {
            HoneypotType::Ssh => "ssh",
            HoneypotType::Http => "http",
            HoneypotType::Ftp => "ftp",
            HoneypotType::Smb => "smb",
            HoneypotType::Database(db_type) => db_type.as_str(),
            HoneypotType::Custom(name) => name.as_str(),
        }
    }
}

/// The default port of each honeypot type: the service's well-known port,
/// known database ports, and 8080 for custom honeypots.
pub open spec fn spec_default_port(t: HoneypotTypeView) -> u16 {
    match t {
        HoneypotTypeView::Ssh => 22,
        HoneypotTypeView::Http => 80,
        HoneypotTypeView::Ftp => 21,
        HoneypotTypeView::Smb => 445,
        HoneypotTypeView::Database(db) => if db == "mysql"@ {
            3306
        } else if db == "mongodb"@ {
            27017
        } else if db == "postgresql"@ {
            5432
        } else if db == "redis"@ {
            6379
        } else {
            27017
        },
        HoneypotTypeView::Custom(_) => 8080,
    }
}

/// The spelling of a honeypot type.
pub open spec fn spec_honeypot_text(t: HoneypotTypeView) -> Seq<char> {
    match t {
        HoneypotTypeView::Ssh => "ssh"@,
        HoneypotTypeView::Http => "http"@,
        HoneypotTypeView::Ftp => "ftp"@,
        HoneypotTypeView::Smb => "smb"@,
        HoneypotTypeView::Database(db) => db,
        HoneypotTypeView::Custom(name) => name,
    }
}

/// Whether `s` begins with `prefix`, exactly.
fn starts_with_plain(s: &str, prefix: &str) -> (r: bool)
    ensures
        r == (s@.len() >= prefix@.len() && s@.take(prefix@.len() as int) == prefix@),
{
    let n = prefix.unicode_len();
    if s.unicode_len() < n {
        return false;
    }
    for i in 0..n
        invariant
            n == prefix@.len(),
            n <= s@.len(),
            forall|j: int| 0 <= j < i ==> s@[j] == prefix@[j],
    {
        if s.get_char(i) != prefix.get_char(i) {
            proof {
                assert(s@.take(n as int)[i as int] != prefix@[i as int]);
            }
            return false;
        }
    }
    proof {
        assert(s@.take(n as int) =~= prefix@);
    }
    true
}

/// Position of the first occurrence of `c`, executable form.
fn first_char_pos(s: &str, c: char) -> (r: Option<usize>)
    ensures
        match r {
            Some(i) => spec_first_pos(s@, c) == Some(i as int) && i < s@.len(),
            None => spec_first_pos(s@, c) == None::<int>,
        },
{
    match strutil::find_char_from(s, c, 0) {
        Some(i) => {
            proof {
                lemma_first_pos_found(s@, c, i as int);
            }
            Some(i)
        },
        None => {
            proof {
                lemma_first_pos_none(s@, c);
            }
            None
        },
    }
}

/// A first occurrence at `i` makes the first-position spec yield `i`.
proof fn lemma_first_pos_found(s: Seq<char>, c: char, i: int)
    requires
        0 <= i < s.len(),
        s[i] == c,
        forall|j: int| 0 <= j < i ==> s[j] != c,
    ensures
        spec_first_pos(s, c) == Some(i),
    decreases i,
{
    if i > 0 {
        assert(s.subrange(1, s.len() as int)[i - 1] == s[i]);
        assert forall|j: int| 0 <= j < i - 1 implies s.subrange(1, s.len() as int)[j] != c by {
            assert(s.subrange(1, s.len() as int)[j] == s[j + 1]);
        }
        lemma_first_pos_found(s.subrange(1, s.len() as int), c, i - 1);
    }
}

/// No occurrence makes the first-position spec yield nothing.
proof fn lemma_first_pos_none(s: Seq<char>, c: char)
    requires
        forall|j: int| 0 <= j < s.len() ==> s[j] != c,
    ensures
        spec_first_pos(s, c) == None::<int>,
    decreases s.len(),
{
    if s.len() > 0 {
        assert forall|j: int| 0 <= j < s.len() - 1
            implies s.subrange(1, s.len() as int)[j] != c by {
            assert(s.subrange(1, s.len() as int)[j] == s[j + 1]);
        }
        lemma_first_pos_none(s.subrange(1, s.len() as int), c);
    }
}

/// The database kind in a lowered `db:`/`database:` spelling; see
/// [`spec_db_kind`].
fn db_kind(low: &str) -> (r: String)
    ensures
        r@ == spec_db_kind(low@),
{
    let n = low.unicode_len();
    match first_char_pos(low, ':') {
        Some(i) => {
            let rest = low.substring_char(i + 1, n);
            let m = rest.unicode_len();
            match first_char_pos(rest, ':') {
                Some(j) => rest.substring_char(0, j).to_owned(),
                None => rest.to_owned(),
            }
        },
        None => "generic".to_owned(),
    }
}

/// Options for deploying one honeypot.
#[derive(Debug, PartialEq)]
pub struct HoneypotOptions {
    /// Port to listen on; zero selects the type's default port.
    pub port: u16,
    /// Whether to present fake authentication.
    pub fake_auth: bool,
    /// Whether to log keystrokes.
    pub log_keystroke: bool,
    /// A custom banner or response.
    pub custom_banner: Option<String>,
    /// Additional options.
    pub extra_options: Vec<(String, String)>,
}

impl Default for HoneypotOptions {
    /// The default options: the type's default port, fake authentication and
    /// keystroke logging on.
    fn default() -> (r: Self)
        ensures
            r.port == 0,
            r.fake_auth,
            r.log_keystroke,
            r.custom_banner is None,
            r.extra_options@.len() == 0,
    {
        HoneypotOptions {
            port: 0,
            fake_auth: true,
            log_keystroke: true,
            custom_banner: None,
            extra_options: Vec::new(),
        }
    }
}

/// One deployed honeypot.
#[derive(Debug)]
pub struct Honeypot {
    /// Unique id.
    pub id: String,
    /// Type of honeypot.
    pub honeypot_type: HoneypotType,
    /// Port the honeypot listens on.
    pub port: u16,
    /// Options used for deployment.
    pub options: HoneypotOptions,
    /// When the honeypot was deployed, in milliseconds since the Unix epoch.
    pub deployed_at: i64,
    /// How many interactions the honeypot has seen.
    pub interaction_count: u32,
    /// Whether the honeypot is active.
    pub active: bool,
}

/// The honeypot management service.
pub struct Lurefield {
    config: LurefieldConfig,
    honeypots: StrMap<Honeypot>,
}

impl Lurefield {
    /// The deployed honeypot under an id.
    pub closed spec fn spec_honeypot(&self, id: Seq<char>) -> Option<Honeypot> {
        self.honeypots.spec_get(id)
    }

    pub closed spec fn spec_count(&self) -> nat {
        self.honeypots.entries().len()
    }

    /// The deployed honeypots, as id-descriptor pairs.
    pub closed spec fn spec_entries(&self) -> Seq<(String, Honeypot)> {
        self.honeypots.entries()
    }

    pub closed spec fn spec_config(&self) -> &LurefieldConfig {
        &self.config
    }

    pub closed spec fn wf(&self) -> bool {
        self.honeypots.wf()
    }

    /// A fresh service with no honeypots.
    pub fn new(config: LurefieldConfig) -> (r: Result<Self, LurefieldError>)
        ensures
            r matches Ok(l) ==> {
                &&& l.wf()
                &&& l.spec_count() == 0
                &&& l.spec_config() == config
            },
            r is Ok,
    {
        Ok(Lurefield { config, honeypots: StrMap::new() })
    }

    /// How many honeypots are deployed.
    pub fn count(&self) -> (r: usize)
        ensures
            r == self.spec_count(),
    {
        self.honeypots.len()
    }

    /// Deploy a honeypot: refused with `MaxHoneypotsReached` once the
    /// configured maximum is deployed.  The honeypot's id is built from its
    /// type and the deployment time; the returned notification carries the
    /// id, type and port.
    pub fn deploy_honeypot(&mut self, honeypot_type: HoneypotType, options: Option<
        HoneypotOptions,
    >) -> (r: Result<(String, Event), LurefieldError>)
        requires
            old(self).wf(),
        ensures
            final(self).wf(),
            r is Ok <==> old(self).spec_count() < old(self).spec_config().max_honeypots,
            match r {
                Ok((id, e)) => {
                    &&& final(self).spec_honeypot(id@) matches Some(h) && h.id@ == id@
                        && h.honeypot_type == honeypot_type && h.active
                        && h.interaction_count == 0
                    &&& exists|ts: i64|
                        id@ == "hp-"@ + spec_honeypot_text(honeypot_type.view_of()) + "-"@
                            + crate::strutil::spec_decimal_signed(ts as int)
                    &&& final(self).spec_count() <= old(self).spec_count() + 1
                    &&& e.event_type == EventType::HoneypotActivity
                    &&& e.source@ == "lurefield"@
                },
                Err(e) => {
                    &&& e == LurefieldError::MaxHoneypotsReached
                    &&& final(self).spec_count() == old(self).spec_count()
                },
            },
    {
        if self.honeypots.len() >= self.config.max_honeypots as usize {
            return Err(LurefieldError::MaxHoneypotsReached);
        }
        let now = clock::now_millis();
        let mut id = "hp-".to_owned();
        id.append(honeypot_type.to_str());
        id.append("-");
        id.append(crate::strutil::i64_to_string(now).as_str());
        proof {
            reveal_strlit("-");
            assert(id@ =~= "hp-"@ + spec_honeypot_text(honeypot_type.view_of()) + "-"@
                + crate::strutil::spec_decimal_signed(now as int));
        }
        let mut opts = match options {
            Some(o) => o,
            None => HoneypotOptions::default(),
        };
        if opts.port == 0 {
            opts.port = honeypot_type.default_port();
        }
        let port = opts.port;
        let type_text = honeypot_type.to_str().to_owned();
        let honeypot = Honeypot {
            id: id.clone(),
            honeypot_type,
            port,
            options: opts,
            deployed_at: now,
            interaction_count: 0,
            active: true,
        };
        self.honeypots.set(id.clone(), honeypot);
        let mut fields: Vec<(String, serde_json::Value)> = Vec::new();
        fields.push(("action".to_owned(), json::json_string("deploy")));
        fields.push(("honeypot_id".to_owned(), json::json_string(id.as_str())));
        fields.push(("honeypot_type".to_owned(), json::json_string(type_text.as_str())));
        fields.push(("port".to_owned(), json::json_u64(port as u64)));
        let event = Event::new(
            EventType::HoneypotActivity,
            "lurefield",
            Some(json::json_object(fields)),
        );
        Ok((id, event))
    }

    /// Stop a honeypot by id: it is marked inactive; an unknown id is refused
    /// with `HoneypotDeployment`.  The returned notification carries the id.
    pub fn stop_honeypot(&mut self, id: &str) -> (r: Result<Event, LurefieldError>)
        requires
            old(self).wf(),
        ensures
            final(self).wf(),
            r is Ok <==> old(self).spec_honeypot(id@) is Some,
            match r {
                Ok(e) => {
                    &&& final(self).spec_honeypot(id@) matches Some(h) && !h.active
                    &&& forall|other: Seq<char>|
                        other != id@ ==> final(self).spec_honeypot(other) == old(
                            self,
                        ).spec_honeypot(other)
                    &&& e.event_type == EventType::HoneypotActivity
                    &&& e.source@ == "lurefield"@
                },
                Err(e) => {
                    &&& e matches LurefieldError::HoneypotDeployment(_)
                    &&& forall|other: Seq<char>|
                        final(self).spec_honeypot(other) == old(self).spec_honeypot(other)
                },
            },
    {
        match self.honeypots.remove(id) {
            Some(mut h) => {
                h.active = false;
                self.honeypots.set(id.to_owned(), h);
                let mut fields: Vec<(String, serde_json::Value)> = Vec::new();
                fields.push(("action".to_owned(), json::json_string("stop")));
                fields.push(("honeypot_id".to_owned(), json::json_string(id)));
                Ok(
                    Event::new(
                        EventType::HoneypotActivity,
                        "lurefield",
                        Some(json::json_object(fields)),
                    ),
                )
            },
            None => {
                let mut msg = "Honeypot ".to_owned();
                msg.append(id);
                msg.append(" not found");
                Err(LurefieldError::HoneypotDeployment(msg))
            },
        }
    }

    /// Record an interaction with a honeypot: its count rises by one,
    /// saturating; an unknown id is refused with `HoneypotDeployment`.
    pub fn record_interaction(&mut self, id: &str, details: Vec<(String, String)>) -> (r: Result<
        Event,
        LurefieldError,
    >)
        requires
            old(self).wf(),
        ensures
            final(self).wf(),
            r is Ok <==> old(self).spec_honeypot(id@) is Some,
            match r {
                Ok(e) => {
                    &&& final(self).spec_honeypot(id@) matches Some(h) && h.interaction_count
                        as int == (if old(self).spec_honeypot(id@)->Some_0.interaction_count
                        == u32::MAX {
                        u32::MAX as int
                    } else {
                        old(self).spec_honeypot(id@)->Some_0.interaction_count + 1
                    })
                    &&& forall|other: Seq<char>|
                        other != id@ ==> final(self).spec_honeypot(other) == old(
                            self,
                        ).spec_honeypot(other)
                    &&& e.event_type == EventType::HoneypotActivity
                    &&& e.source@ == "lurefield"@
                },
                Err(e) => {
                    &&& e matches LurefieldError::HoneypotDeployment(_)
                    &&& forall|other: Seq<char>|
                        final(self).spec_honeypot(other) == old(self).spec_honeypot(other)
                },
            },
    {
        match self.honeypots.remove(id) {
            Some(mut h) => {
                if h.interaction_count < u32::MAX {
                    h.interaction_count = h.interaction_count + 1;
                }
                self.honeypots.set(id.to_owned(), h);
                let mut detail_fields: Vec<(String, serde_json::Value)> = Vec::new();
                let n = details.len();
                for i in 0..n
                    invariant
                        n == details@.len(),
                {
                    let (k, v) = &details[i];
                    detail_fields.push((k.clone(), json::json_string(v.as_str())));
                }
                let mut fields: Vec<(String, serde_json::Value)> = Vec::new();
                fields.push(("action".to_owned(), json::json_string("interaction")));
                fields.push(("honeypot_id".to_owned(), json::json_string(id)));
                fields.push(("details".to_owned(), json::json_object(detail_fields)));
                Ok(
                    Event::new(
                        EventType::HoneypotActivity,
                        "lurefield",
                        Some(json::json_object(fields)),
                    ),
                )
            },
            None => {
                let mut msg = "Honeypot ".to_owned();
                msg.append(id);
                msg.append(" not found");
                Err(LurefieldError::HoneypotDeployment(msg))
            },
        }
    }

    /// The deployed honeypot under an id, read-only.
    pub fn honeypot(&self, id: &str) -> (r: Option<&Honeypot>)
        ensures
            match r {
                Some(h) => self.spec_honeypot(id@) == Some(*h),
                None => self.spec_honeypot(id@) == None::<Honeypot>,
            },
    {
        self.honeypots.get(id)
    }

    /// All deployed honeypots, as id-descriptor pairs, read-only.
    pub fn honeypots(&self) -> (r: &Vec<(String, Honeypot)>)
        ensures
            r@ == self.spec_entries(),
    {
        self.honeypots.pairs()
    }
}

} // verus!
