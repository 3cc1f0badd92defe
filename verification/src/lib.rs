//! Adaptive cyber-deception control plane: an event-driven threat-assessment
//! and posture-decision engine.  Security signals arrive as events, feed a
//! bounded threat score held in thousandths (0 through 1000 stands for
//! 0.0 through 1.0), and drive a hysteretic state machine that selects one of
//! five defensive postures and notifies the actuator subsystems.
//!
//! The core lives in [`events`] (the event model), [`metrics`] (the metrics
//! store), [`adaptive`] (the handler registry and dispatcher), [`posture`],
//! [`decision`] and [`posture_engine`] (the two decision modes over the
//! shared [`state`]), and [`chameleon`] (the core service tying them
//! together).  The actuator-facing subsystems keep their decisions and data
//! shapes here — [`banner`], [`firewall`], [`fingerprint`], [`preset`],
//! [`service`], [`skinshift`], [`lurefield`], [`eye360`], [`nettongue`],
//! [`formats`], [`reports`], [`pigment_api`], [`cli`] and [`config`] — while
//! the host application performs their input and output.  Calls into outside
//! crates go through [`clock`], [`json`], [`rx`], [`entropy`] and [`probe`].

pub mod posture;
pub mod strutil;
pub mod kv;
pub mod clock;
pub mod json;
pub mod events;
pub mod state;
pub mod errors;
pub mod decision;
pub mod metrics;
pub mod adaptive;
pub mod chameleon;
pub mod posture_engine;
pub mod rx;
pub mod formats;
pub mod entropy;
pub mod probe;
pub mod skinshift;
pub mod banner;
pub mod firewall;
pub mod fingerprint;
pub mod preset;
pub mod service;
pub mod lurefield;
pub mod eye360;
pub mod nettongue;
pub mod pigment_api;
pub mod cli;
pub mod config;
pub mod reports;
