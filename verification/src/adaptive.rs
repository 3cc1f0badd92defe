//! The handler registry and dispatcher: named, stateful reactive handlers
//! receive each normalized signal sequentially, in registration order, after
//! the signal is appended to a bounded dispatch history.  The first handler
//! failure stops the round and is returned wrapped with the handler's name;
//! the signal stays recorded either way.

use vstd::prelude::*;

use crate::clock;
use crate::events::AdaptiveEvent;
use crate::metrics::spec_push_evict;

verus! {

/// Most signals the dispatch history keeps; the oldest is evicted first.
pub const DISPATCH_HISTORY_CAP: usize = 1000;

/// Errors of the dispatcher.
#[derive(Debug, PartialEq, Eq)]
pub enum AdaptiveError {
    /// A name was referenced with no registration behind it.
    HandlerNotFound(String),
    /// A handler failed; carries the handler's name and the cause.
    ProcessingFailed(String, String),
    /// An internal invariant was violated.
    Internal(String),
}

impl AdaptiveError {
    /// The error rendered as text.
    pub fn describe(&self) -> (r: String)
        ensures
            r@ == self.spec_describe(),
    {
        match self {
            AdaptiveError::HandlerNotFound(m) => {
                let mut out = "Handler not found: ".to_owned();
                out.append(m.as_str());
                out
            },
            AdaptiveError::ProcessingFailed(name, cause) => {
                let mut out = "Handler '".to_owned();
                out.append(name.as_str());
                out.append("' failed: ");
                out.append(cause.as_str());
                out
            },
            AdaptiveError::Internal(m) => {
                let mut out = "Internal error: ".to_owned();
                out.append(m.as_str());
                out
            },
        }
    }

    pub open spec fn spec_describe(&self) -> Seq<char> {
        match self {
            AdaptiveError::HandlerNotFound(m) => "Handler not found: "@ + m@,
            AdaptiveError::ProcessingFailed(name, cause) => "Handler '"@ + name@ + "' failed: "@
                + cause@,
            AdaptiveError::Internal(m) => "Internal error: "@ + m@,
        }
    }
}

/// A reactive handler: holds its own state and reacts to each normalized
/// signal in turn.  Implementations are supplied by the host application.
pub trait AdaptiveHandler {
    /// Handle one signal; an error aborts the rest of the dispatch round.
    fn handle_event(&mut self, event: &AdaptiveEvent) -> Result<(), AdaptiveError>;
}

/// The dispatcher: a name-keyed registry of handlers, invoked sequentially in
/// registration order, and a bounded history of dispatched signals.
pub struct AdaptiveEngine<H> {
    names: Vec<String>,
    handlers: Vec<H>,
    history: Vec<AdaptiveEvent>,
    max_history: usize,
}

impl<H: AdaptiveHandler> AdaptiveEngine<H> {
    /// The names of the registered handlers, in registration order.
    pub closed spec fn spec_names(&self) -> Seq<String> {
        self.names@
    }

    /// The registered handlers, in registration order.
    pub closed spec fn spec_handlers(&self) -> Seq<H> {
        self.handlers@
    }

    /// The dispatch history, oldest first.
    pub closed spec fn spec_history(&self) -> Seq<AdaptiveEvent> {
        self.history@
    }

    pub closed spec fn spec_max_history(&self) -> usize {
        self.max_history
    }

    /// Well-formed: one handler per name, names unique, history bounded.
    pub closed spec fn wf(&self) -> bool {
        &&& self.names@.len() == self.handlers@.len()
        &&& forall|i: int, j: int|
            0 <= i < j < self.names@.len() ==> self.names@[i]@ != self.names@[j]@
        &&& self.history@.len() <= self.max_history
        &&& self.max_history == DISPATCH_HISTORY_CAP
    }

    /// A fresh dispatcher with no handlers and an empty history.  Never
    /// fails; the `Result` shape is the ingestion boundary's contract.
    pub fn new() -> (r: Result<Self, AdaptiveError>)
        ensures
            r matches Ok(e) ==> {
                &&& e.wf()
                &&& e.spec_names().len() == 0
                &&& e.spec_history().len() == 0
                &&& e.spec_max_history() == DISPATCH_HISTORY_CAP
            },
            r is Ok,
    {
        Ok(
            AdaptiveEngine {
                names: Vec::new(),
                handlers: Vec::new(),
                history: Vec::new(),
                max_history: DISPATCH_HISTORY_CAP,
            },
        )
    }

    /// Position of a handler by name.
    fn position(&self, name: &str) -> (r: Option<usize>)
        requires
            self.wf(),
        ensures
            match r {
                Some(i) => i < self.spec_names().len() && self.spec_names()[i as int]@ == name@,
                None => forall|j: int|
                    0 <= j < self.spec_names().len() ==> self.spec_names()[j]@ != name@,
            },
    {
        let n = self.names.len();
        for i in 0..n
            invariant
                n == self.names@.len(),
                forall|j: int| 0 <= j < i ==> self.names@[j]@ != name@,
        {
            if crate::strutil::str_eq(self.names[i].as_str(), name) {
                return Some(i);
            }
        }
        None
    }

    /// Whether a handler is registered under a name.
    pub fn has_handler(&self, name: &str) -> (r: bool)
        requires
            self.wf(),
        ensures
            r == exists|j: int|
                0 <= j < self.spec_names().len() && (#[trigger] self.spec_names()[j])@ == name@,
    {
        self.position(name).is_some()
    }

    /// A shared view of the handler registered under a name.
    pub fn get_handler(&self, name: &str) -> (r: Option<&H>)
        requires
            self.wf(),
        ensures
            match r {
                Some(h) => exists|j: int|
                    0 <= j < self.spec_names().len() && (#[trigger] self.spec_names()[j])@ == name@
                        && *h == self.spec_handlers()[j],
                None => forall|j: int|
                    0 <= j < self.spec_names().len() ==> (#[trigger] self.spec_names()[j])@
                        != name@,
            },
    {
        match self.position(name) {
            Some(i) => Some(&self.handlers[i]),
            None => None,
        }
    }

    /// Register a handler under a name: a new name is appended at the end of
    /// the dispatch order, a known name has its handler replaced in place.
    /// Not retroactive to a dispatch already in progress.
    pub fn register_handler(&mut self, name: String, handler: H)
        requires
            old(self).wf(),
        ensures
            final(self).wf(),
            final(self).spec_history() == old(self).spec_history(),
            if exists|j: int|
                0 <= j < old(self).spec_names().len() && (#[trigger] old(self).spec_names()[j])@
                    == name@ {
                {
                    let j = choose|j: int|
                        0 <= j < old(self).spec_names().len() && (#[trigger] old(
                            self,
                        ).spec_names()[j])@ == name@;
                    &&& final(self).spec_names() == old(self).spec_names().update(j, name)
                    &&& final(self).spec_handlers() == old(self).spec_handlers().update(j, handler)
                }
            } else {
                &&& final(self).spec_names() == old(self).spec_names().push(name)
                &&& final(self).spec_handlers() == old(self).spec_handlers().push(handler)
            },
    {
        match self.position(name.as_str()) {
            Some(i) => {
                proof {
                    let w = choose|j: int|
                        0 <= j < self.names@.len() && (#[trigger] self.names@[j])@ == name@;
                    assert(w == i as int);
                }
                self.names[i] = name;
                self.handlers[i] = handler;
            },
            None => {
                self.names.push(name);
                self.handlers.push(handler);
            },
        }
    }

    /// Dispatch one signal: append it to the bounded history (evicting the
    /// oldest when full), then invoke each registered handler sequentially in
    /// registration order.  The first handler failure stops the round: the
    /// error names the failing handler, and every handler registered after it
    /// is left exactly as it was — nothing later runs.  The signal stays
    /// recorded whatever the handlers do.
    pub fn process_event(&mut self, event: AdaptiveEvent) -> (r: Result<(), AdaptiveError>)
        requires
            old(self).wf(),
        ensures
            final(self).wf(),
            final(self).spec_history() == spec_push_evict(
                old(self).spec_history(),
                event,
                DISPATCH_HISTORY_CAP as int,
            ),
            final(self).spec_names() == old(self).spec_names(),
            final(self).spec_handlers().len() == old(self).spec_handlers().len(),
            match r {
                Ok(()) => true,
                Err(e) => {
                    &&& e matches AdaptiveError::ProcessingFailed(name, _)
                    &&& exists|j: int|
                        {
                            &&& 0 <= j < old(self).spec_names().len()
                            &&& (#[trigger] old(self).spec_names()[j])@
                                == (e->ProcessingFailed_0)@
                            &&& forall|k: int|
                                j < k < old(self).spec_handlers().len()
                                    ==> final(self).spec_handlers()[k]
                                    == old(self).spec_handlers()[k]
                        }
                },
            },
    {
        if self.history.len() >= DISPATCH_HISTORY_CAP {
            self.history.remove(0);
        }
        self.history.push(event.clone());
        proof {
            assert(self.history@ == spec_push_evict(
                old(self).spec_history(),
                event,
                DISPATCH_HISTORY_CAP as int,
            ));
        }
        let n = self.handlers.len();
        for i in 0..n
            invariant
                n == self.handlers@.len(),
                n == self.names@.len(),
                self.names@ == old(self).spec_names(),
                self.handlers@.len() == old(self).spec_handlers().len(),
                self.history@ == spec_push_evict(
                    old(self).spec_history(),
                    event,
                    DISPATCH_HISTORY_CAP as int,
                ),
                self.max_history == DISPATCH_HISTORY_CAP,
                self.history@.len() <= DISPATCH_HISTORY_CAP,
                forall|a: int, b: int|
                    0 <= a < b < self.names@.len() ==> self.names@[a]@ != self.names@[b]@,
                forall|k: int|
                    i <= k < n ==> self.handlers@[k] == old(self).spec_handlers()[k],
        {
            let outcome = self.handlers[i].handle_event(&event);
            if let Err(cause) = outcome {
                let name = self.names[i].clone();
                return Err(AdaptiveError::ProcessingFailed(name, cause.describe()));
            }
        }
        Ok(())
    }

    /// A copy of the dispatch history, oldest first.
    pub fn get_history(&self) -> (r: Vec<AdaptiveEvent>)
        ensures
            r@ == self.spec_history(),
    {
        let mut out: Vec<AdaptiveEvent> = Vec::new();
        let n = self.history.len();
        for i in 0..n
            invariant
                n == self.history@.len(),
                out@.len() == i,
                forall|j: int| 0 <= j < i ==> out@[j] == self.history@[j],
        {
            out.push(self.history[i].clone());
        }
        proof {
            assert(out@ =~= self.spec_history());
        }
        out
    }

    /// Reset the dispatch history.
    pub fn clear_history(&mut self)
        requires
            old(self).wf(),
        ensures
            final(self).wf(),
            final(self).spec_history().len() == 0,
            final(self).spec_names() == old(self).spec_names(),
            final(self).spec_handlers() == old(self).spec_handlers(),
    {
        self.history.clear();
    }

    /// Build a normalized signal from components, stamped with the current
    /// time.
    pub fn create_event(
        source: &str,
        event_type: &str,
        severity: u8,
        data: serde_json::Value,
    ) -> (r: AdaptiveEvent)
        ensures
            r.source@ == source@,
            r.event_type@ == event_type@,
            r.severity == severity,
            r.data == data,
    {
        AdaptiveEvent {
            source: source.to_owned(),
            event_type: event_type.to_owned(),
            severity,
            data,
            timestamp: clock::now_millis(),
        }
    }
}

} // verus!
