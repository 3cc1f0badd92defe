//! The command-line surface's decisions: which events each command submits
//! into the core, with their exact payloads, and which commands are refused
//! for missing parameters.  Argument parsing and printing are the host
//! application's business.

use vstd::prelude::*;

use crate::events::{Event, EventType};
use crate::json;

verus! {

/// Configuration for the command-line interface.
#[derive(Debug, PartialEq, Eq)]
pub struct CliConfig {
    /// Configuration file path, where one was given.
    pub config_path: Option<String>,
    /// Verbose output.
    pub verbose: bool,
}

impl Default for CliConfig {
    /// The default configuration: no file, quiet.
    fn default() -> (r: Self)
        ensures
            r.config_path is None,
            !r.verbose,
    {
        CliConfig { config_path: None, verbose: false }
    }
}

/// The commands the interface accepts, as plain values.
#[derive(Debug, PartialEq, Eq)]
pub enum Commands {
    /// Start the protective service in a mode.
    Start { mode: String },
    /// Shift to a fingerprint preset or a custom fingerprint file.
    Skinshift { preset: Option<String>, custom: Option<String> },
    /// Configure system detection.
    Eye360 { track_syn: bool, syscalls: Option<Vec<String>> },
    /// Configure network detection.
    Nettongue { pcap: bool, latency_fuzz: bool },
    /// Generate and deploy honeypots.
    Lurefield { generate: Option<String>, fake_auth: bool, log_keystroke: bool },
    /// Control the defensive posture.
    Posture { rotate_services: bool, set: Option<String> },
    /// Manage the API server.
    Api { start: bool, stop: bool, port: u16 },
    /// Show system status.
    Status,
}

/// An error of the command-line surface: a command missing a required
/// parameter.
#[derive(Debug, PartialEq, Eq)]
pub struct CliError {
    /// What was missing.
    pub message: String,
}

/// Whether a command carries everything it needs: a skinshift needs a preset
/// or a custom file, a lurefield needs a honeypot type, an api command needs
/// a start or a stop.
pub open spec fn spec_command_complete(cmd: Commands) -> bool {
    match cmd {
        Commands::Skinshift { preset, custom } => preset is Some || custom is Some,
        Commands::Lurefield { generate, .. } => generate is Some,
        Commands::Api { start, stop, .. } => start || stop,
        _ => true,
    }
}

/// The kind and payload of every event a complete command submits, in
/// submission order.
pub open spec fn spec_command_payloads(cmd: Commands) -> Seq<(EventType, serde_json::Value)> {
    match cmd {
        Commands::Start { mode } => seq![
            (
                EventType::SystemChange,
                json::json_object_of(
                    seq![
                        ("action"@, json::json_string_of("start"@)),
                        ("mode"@, json::json_string_of(mode@)),
                    ],
                ),
            ),
        ],
        Commands::Skinshift { preset, custom } => match (preset, custom) {
            (Some(name), _) => seq![
                (
                    EventType::FingerprintChange,
                    json::json_object_of(
                        seq![
                            ("action"@, json::json_string_of("preset"@)),
                            ("preset"@, json::json_string_of(name@)),
                        ],
                    ),
                ),
            ],
            (None, Some(path)) => seq![
                (
                    EventType::FingerprintChange,
                    json::json_object_of(
                        seq![
                            ("action"@, json::json_string_of("custom"@)),
                            ("path"@, json::json_string_of(path@)),
                        ],
                    ),
                ),
            ],
            (None, None) => Seq::empty(),
        },
        Commands::Eye360 { track_syn, syscalls } => seq![
            (
                EventType::SystemChange,
                json::json_object_of(
                    seq![("action"@, json::json_string_of("configure"@))] + (if track_syn {
                        seq![("track_syn"@, json::json_bool_of(true))]
                    } else {
                        Seq::empty()
                    }) + (match syscalls {
                        Some(calls) => seq![
                            (
                                "syscalls"@,
                                json::json_string_array_of(
                                    calls@.map_values(|c: String| c@),
                                ),
                            ),
                        ],
                        None => Seq::empty(),
                    }),
                ),
            ),
        ],
        Commands::Nettongue { pcap, latency_fuzz } => seq![
            (
                EventType::NetworkActivity,
                json::json_object_of(
                    seq![("action"@, json::json_string_of("configure"@))] + (if pcap {
                        seq![("pcap"@, json::json_bool_of(true))]
                    } else {
                        Seq::empty()
                    }) + (if latency_fuzz {
                        seq![("latency_fuzz"@, json::json_bool_of(true))]
                    } else {
                        Seq::empty()
                    }),
                ),
            ),
        ],
        Commands::Lurefield { generate, fake_auth, log_keystroke } => match generate {
            Some(kind) => seq![
                (
                    EventType::HoneypotActivity,
                    json::json_object_of(
                        seq![
                            ("action"@, json::json_string_of("generate"@)),
                            ("type"@, json::json_string_of(kind@)),
                        ] + (if fake_auth {
                            seq![("fake_auth"@, json::json_bool_of(true))]
                        } else {
                            Seq::empty()
                        }) + (if log_keystroke {
                            seq![("log_keystroke"@, json::json_bool_of(true))]
                        } else {
                            Seq::empty()
                        }),
                    ),
                ),
            ],
            None => Seq::empty(),
        },
        Commands::Posture { rotate_services, set } => (if rotate_services {
            seq![
                (
                    EventType::PostureChange,
                    json::json_object_of(
                        seq![
                            ("action"@, json::json_string_of("rotate_services"@)),
                            ("enabled"@, json::json_bool_of(true)),
                        ],
                    ),
                ),
            ]
        } else {
            Seq::empty()
        }) + (match set {
            Some(posture) => seq![
                (
                    EventType::PostureChange,
                    json::json_object_of(
                        seq![
                            ("action"@, json::json_string_of("set_posture"@)),
                            ("posture"@, json::json_string_of(posture@)),
                        ],
                    ),
                ),
            ],
            None => Seq::empty(),
        }),
        Commands::Api { start, stop, port } => if start {
            seq![
                (
                    EventType::ServiceLifecycle,
                    json::json_object_of(
                        seq![
                            ("action"@, json::json_string_of("start_api"@)),
                            ("port"@, json::json_u64_of(port as u64)),
                        ],
                    ),
                ),
            ]
        } else if stop {
            seq![
                (
                    EventType::ServiceLifecycle,
                    json::json_object_of(
                        seq![("action"@, json::json_string_of("stop_api"@))],
                    ),
                ),
            ]
        } else {
            Seq::empty()
        },
        Commands::Status => seq![
            (
                EventType::MetricsReport,
                json::json_object_of(
                    seq![("action"@, json::json_string_of("get_status"@))],
                ),
            ),
        ],
    }
}

/// The events a command submits into the core: each from source `cli`, with
/// the exact kind and payload of [`spec_command_payloads`], in order.  A
/// command missing a required parameter is refused.
pub fn command_events(cmd: &Commands) -> (r: Result<Vec<Event>, CliError>)
    ensures
        r is Ok <==> spec_command_complete(*cmd),
        r matches Ok(events) ==> {
            &&& events@.len() == spec_command_payloads(*cmd).len()
            &&& forall|j: int|
                0 <= j < events@.len() ==> {
                    &&& (#[trigger] events@[j]).source@ == "cli"@
                    &&& events@[j].event_type == spec_command_payloads(*cmd)[j].0
                    &&& events@[j].data == Some(spec_command_payloads(*cmd)[j].1)
                }
        },
{
    match cmd {
        Commands::Start { mode } => {
            let mut fields: Vec<(String, serde_json::Value)> = Vec::new();
            fields.push(("action".to_owned(), json::json_string("start")));
            fields.push(("mode".to_owned(), json::json_string(mode.as_str())));
            proof {
                assert(json::fields_view(fields@) =~= seq![
                    ("action"@, json::json_string_of("start"@)),
                    ("mode"@, json::json_string_of(mode@)),
                ]);
            }
            let event = Event::system_change("cli", Some(json::json_object(fields)));
            let mut out: Vec<Event> = Vec::new();
            out.push(event);
            Ok(out)
        },
        Commands::Skinshift { preset, custom } => {
            if let Some(preset_name) = preset {
                let mut fields: Vec<(String, serde_json::Value)> = Vec::new();
                fields.push(("action".to_owned(), json::json_string("preset")));
                fields.push(("preset".to_owned(), json::json_string(preset_name.as_str())));
                proof {
                    assert(json::fields_view(fields@) =~= seq![
                        ("action"@, json::json_string_of("preset"@)),
                        ("preset"@, json::json_string_of(preset_name@)),
                    ]);
                }
                let event = Event::fingerprint_change("cli", Some(json::json_object(fields)));
                let mut out: Vec<Event> = Vec::new();
                out.push(event);
                Ok(out)
            } else if let Some(custom_path) = custom {
                let mut fields: Vec<(String, serde_json::Value)> = Vec::new();
                fields.push(("action".to_owned(), json::json_string("custom")));
                fields.push(("path".to_owned(), json::json_string(custom_path.as_str())));
                proof {
                    assert(json::fields_view(fields@) =~= seq![
                        ("action"@, json::json_string_of("custom"@)),
                        ("path"@, json::json_string_of(custom_path@)),
                    ]);
                }
                let event = Event::fingerprint_change("cli", Some(json::json_object(fields)));
                let mut out: Vec<Event> = Vec::new();
                out.push(event);
                Ok(out)
            } else {
                Err(CliError { message: "Missing required parameter".to_owned() })
            }
        },
        Commands::Eye360 { track_syn, syscalls } => {
            let mut fields: Vec<(String, serde_json::Value)> = Vec::new();
            fields.push(("action".to_owned(), json::json_string("configure")));
            if *track_syn {
                fields.push(("track_syn".to_owned(), json::json_bool(true)));
            }
            if let Some(calls) = syscalls {
                fields.push(("syscalls".to_owned(), json::json_string_array(calls)));
            }
            proof {
                assert(json::fields_view(fields@) =~= seq![
                    ("action"@, json::json_string_of("configure"@)),
                ] + (if *track_syn {
                    seq![("track_syn"@, json::json_bool_of(true))]
                } else {
                    Seq::empty()
                }) + (match syscalls {
                    Some(calls) => seq![
                        ("syscalls"@, json::json_string_array_of(calls@.map_values(|c: String| c@))),
                    ],
                    None => Seq::<(Seq<char>, serde_json::Value)>::empty(),
                }));
            }
            let event = Event::system_change("cli", Some(json::json_object(fields)));
            let mut out: Vec<Event> = Vec::new();
            out.push(event);
            Ok(out)
        },
        Commands::Nettongue { pcap, latency_fuzz } => {
            let mut fields: Vec<(String, serde_json::Value)> = Vec::new();
            fields.push(("action".to_owned(), json::json_string("configure")));
            if *pcap {
                fields.push(("pcap".to_owned(), json::json_bool(true)));
            }
            if *latency_fuzz {
                fields.push(("latency_fuzz".to_owned(), json::json_bool(true)));
            }
            proof {
                assert(json::fields_view(fields@) =~= seq![
                    ("action"@, json::json_string_of("configure"@)),
                ] + (if *pcap {
                    seq![("pcap"@, json::json_bool_of(true))]
                } else {
                    Seq::empty()
                }) + (if *latency_fuzz {
                    seq![("latency_fuzz"@, json::json_bool_of(true))]
                } else {
                    Seq::<(Seq<char>, serde_json::Value)>::empty()
                }));
            }
            let event = Event::network_activity("cli", Some(json::json_object(fields)));
            let mut out: Vec<Event> = Vec::new();
            out.push(event);
            Ok(out)
        },
        Commands::Lurefield { generate, fake_auth, log_keystroke } => {
            if let Some(honeypot_type) = generate {
                let mut fields: Vec<(String, serde_json::Value)> = Vec::new();
                fields.push(("action".to_owned(), json::json_string("generate")));
                fields.push(("type".to_owned(), json::json_string(honeypot_type.as_str())));
                if *fake_auth {
                    fields.push(("fake_auth".to_owned(), json::json_bool(true)));
                }
                if *log_keystroke {
                    fields.push(("log_keystroke".to_owned(), json::json_bool(true)));
                }
                proof {
                    assert(json::fields_view(fields@) =~= seq![
                        ("action"@, json::json_string_of("generate"@)),
                        ("type"@, json::json_string_of(honeypot_type@)),
                    ] + (if *fake_auth {
                        seq![("fake_auth"@, json::json_bool_of(true))]
                    } else {
                        Seq::empty()
                    }) + (if *log_keystroke {
                        seq![("log_keystroke"@, json::json_bool_of(true))]
                    } else {
                        Seq::<(Seq<char>, serde_json::Value)>::empty()
                    }));
                }
                let event = Event::honeypot_activity("cli", Some(json::json_object(fields)));
                let mut out: Vec<Event> = Vec::new();
                out.push(event);
                Ok(out)
            } else {
                Err(CliError { message: "Missing required parameter".to_owned() })
            }
        },
        Commands::Posture { rotate_services, set } => {
            let mut out: Vec<Event> = Vec::new();
            if *rotate_services {
                let mut fields: Vec<(String, serde_json::Value)> = Vec::new();
                fields.push(("action".to_owned(), json::json_string("rotate_services")));
                fields.push(("enabled".to_owned(), json::json_bool(true)));
                proof {
                    assert(json::fields_view(fields@) =~= seq![
                        ("action"@, json::json_string_of("rotate_services"@)),
                        ("enabled"@, json::json_bool_of(true)),
                    ]);
                }
                out.push(Event::posture_change("cli", Some(json::json_object(fields))));
            }
            if let Some(posture) = set {
                let mut fields: Vec<(String, serde_json::Value)> = Vec::new();
                fields.push(("action".to_owned(), json::json_string("set_posture")));
                fields.push(("posture".to_owned(), json::json_string(posture.as_str())));
                proof {
                    assert(json::fields_view(fields@) =~= seq![
                        ("action"@, json::json_string_of("set_posture"@)),
                        ("posture"@, json::json_string_of(posture@)),
                    ]);
                }
                out.push(Event::posture_change("cli", Some(json::json_object(fields))));
            }
            proof {
                let expected = spec_command_payloads(*cmd);
                assert forall|j: int| 0 <= j < out@.len()
                    implies (#[trigger] out@[j]).source@ == "cli"@ && out@[j].event_type
                        == expected[j].0 && out@[j].data == Some(expected[j].1) by {}
            }
            Ok(out)
        },
        Commands::Api { start, stop, port } => {
            if *start {
                let mut fields: Vec<(String, serde_json::Value)> = Vec::new();
                fields.push(("action".to_owned(), json::json_string("start_api")));
                fields.push(("port".to_owned(), json::json_u64(*port as u64)));
                proof {
                    assert(json::fields_view(fields@) =~= seq![
                        ("action"@, json::json_string_of("start_api"@)),
                        ("port"@, json::json_u64_of(*port as u64)),
                    ]);
                }
                let event = Event::service_lifecycle("cli", Some(json::json_object(fields)));
                let mut out: Vec<Event> = Vec::new();
                out.push(event);
                Ok(out)
            } else if *stop {
                let mut fields: Vec<(String, serde_json::Value)> = Vec::new();
                fields.push(("action".to_owned(), json::json_string("stop_api")));
                proof {
                    assert(json::fields_view(fields@) =~= seq![
                        ("action"@, json::json_string_of("stop_api"@)),
                    ]);
                }
                let event = Event::service_lifecycle("cli", Some(json::json_object(fields)));
                let mut out: Vec<Event> = Vec::new();
                out.push(event);
                Ok(out)
            } else {
                Err(CliError { message: "Missing required parameter".to_owned() })
            }
        },
        Commands::Status => {
            let mut fields: Vec<(String, serde_json::Value)> = Vec::new();
            fields.push(("action".to_owned(), json::json_string("get_status")));
            proof {
                assert(json::fields_view(fields@) =~= seq![
                    ("action"@, json::json_string_of("get_status"@)),
                ]);
            }
            let event = Event::metrics_report("cli", Some(json::json_object(fields)));
            let mut out: Vec<Event> = Vec::new();
            out.push(event);
            Ok(out)
        },
    }
}

} // verus!
