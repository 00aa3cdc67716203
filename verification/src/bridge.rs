//! The call bridge: orchestrates one bridged call from id allocation to a
//! terminal outcome, and routes push traffic into the relay.
//!
//! Per call: allocate an id, register it, frame the code, hand the framed
//! script to the external one-way injection primitive. If injection itself
//! fails, the registration is evicted and the call ends immediately; else
//! the waiter races the sandbox's callback against the deadline. Exactly
//! one injection happens per call and at most one registry entry; there
//! are no retries, so code with side effects runs at most once.

use vstd::prelude::*;

use crate::{BridgeError, EvalResult};
use crate::framer::{frame_eval, frame_eval_spec, frame_invoke, frame_invoke_spec};
use crate::registry::{CorrelationRegistry, evict_spec, register_spec, resolve_spec};
use crate::relay::{BroadcastRelay, SubView, publish_spec};
use crate::webview::{json_quote, json_quoted};

verus! {

/// Default deadline for generic code execution: arbitrary code may be
/// slow, so it gets tens of seconds.
pub const DEFAULT_EVAL_TIMEOUT_SECS: u64 = 10;

/// Default deadline for a command invocation routed through the sandbox.
pub const DEFAULT_INVOKE_TIMEOUT_SECS: u64 = 30;

/// The stream name console lines are published under.
pub open spec fn console_stream() -> Seq<char> {
    "console"@
}

/// The lifecycle of one bridged call.
pub enum CallState {
    /// An id exists but nothing is registered yet.
    Created,
    /// The id is registered and the framed code has been handed over.
    Registered,
    /// The sandbox's callback completed the call.
    Resolved,
    /// The deadline passed first; the registration was evicted.
    EvictedByTimeout,
    /// The injection primitive itself rejected the call.
    EvictedByInjectionFailure,
}

/// What can happen to a call in flight.
pub enum CallEvent {
    /// The id was registered and the code injected.
    Register,
    /// The sandbox called back with an outcome.
    CallbackArrived,
    /// The deadline passed with no callback.
    DeadlinePassed,
    /// The one-way injection primitive failed synchronously.
    InjectionRejected,
}

/// Whether a call has reached one of the three mutually exclusive ends.
pub open spec fn is_terminal(s: CallState) -> bool {
    s is Resolved || s is EvictedByTimeout || s is EvictedByInjectionFailure
}

/// One step of the per-call state machine. Terminal states absorb every
/// later event: a late callback or a late deadline changes nothing.
pub open spec fn call_step(s: CallState, e: CallEvent) -> CallState {
    match s {
        CallState::Created => match e {
            CallEvent::Register => CallState::Registered,
            _ => CallState::Created,
        },
        CallState::Registered => match e {
            CallEvent::CallbackArrived => CallState::Resolved,
            CallEvent::DeadlinePassed => CallState::EvictedByTimeout,
            CallEvent::InjectionRejected => CallState::EvictedByInjectionFailure,
            CallEvent::Register => CallState::Registered,
        },
        _ => s,
    }
}

/// Every registered call that sees a completion event ends in exactly one
/// terminal state, and a terminal state never changes again: resolution
/// and eviction can race, but a call can neither end twice nor end in two
/// different ways.
pub proof fn lemma_call_lifecycle(s: CallState, e: CallEvent)
    ensures
        call_step(CallState::Created, CallEvent::Register) == CallState::Registered,
        s is Registered && e != CallEvent::Register ==> is_terminal(call_step(s, e)),
        is_terminal(s) ==> call_step(s, e) == s,
{
}

/// One console line as relayed to subscribers: level and message as a
/// small JSON object.
pub open spec fn console_line_spec(level: Seq<char>, message: Seq<char>) -> Seq<char> {
    "{\"level\":"@ + json_quoted(level) + ",\"message\":"@ + json_quoted(message) + "}"@
}

/// One application event as relayed to subscribers: name and payload text
/// as a small JSON object.
pub open spec fn event_line_spec(name: Seq<char>, payload: Seq<char>) -> Seq<char> {
    "{\"event\":"@ + json_quoted(name) + ",\"payload\":"@ + json_quoted(payload) + "}"@
}

/// Shared state of one bridge instance: the in-flight call registry and
/// the console/event fan-out relay. Constructed once and passed to every
/// component; nothing here is ambient global state.
pub struct BridgeState {
    /// In-flight calls, keyed by call id.
    pub pending: CorrelationRegistry,
    /// Fan-out of console lines and application events.
    pub console: BroadcastRelay,
}

impl BridgeState {
    /// Both shared structures are well formed.
    pub open spec fn wf(self) -> bool {
        self.pending.wf() && self.console.wf()
    }

    /// A fresh bridge with no in-flight calls and no subscribers.
    pub fn new() -> (s: BridgeState)
        ensures
            s.wf(),
            s.pending@ == Map::<Seq<char>, Option<EvalResult>>::empty(),
            s.console@ == Seq::<SubView>::empty(),
    {
        BridgeState { pending: CorrelationRegistry::new(), console: BroadcastRelay::new() }
    }

    /// Start a bridged eval call: register `id` and produce the framed
    /// script to hand to the one-way injection primitive. Fails, changing
    /// nothing, only if the freshly generated id collides with an
    /// in-flight one.
    pub fn begin_eval_call(&mut self, id: String, code: &str) -> (r: Result<String, BridgeError>)
        requires
            old(self).wf(),
        ensures
            final(self).wf(),
            final(self).console == old(self).console,
            match r {
                Ok(js) => {
                    &&& !old(self).pending@.contains_key(id@)
                    &&& final(self).pending@ == register_spec(old(self).pending@, id@)
                    &&& js@ == frame_eval_spec(id@, code@)
                },
                Err(e) => {
                    &&& old(self).pending@.contains_key(id@)
                    &&& final(self).pending@ == old(self).pending@
                    &&& e matches BridgeError::Internal(d) && d@ == "call id collision"@
                },
            },
    {
        let framed = frame_eval(id.as_str(), code);
        if self.pending.register(id) {
            Ok(framed)
        } else {
            Err(BridgeError::Internal(String::from_str("call id collision")))
        }
    }

    /// Start a bridged command invocation: as `begin_eval_call`, but the
    /// invoke script is framed without the expression heuristic.
    pub fn begin_invoke_call(&mut self, id: String, invoke_script: &str) -> (r: Result<
        String,
        BridgeError,
    >)
        requires
            old(self).wf(),
        ensures
            final(self).wf(),
            final(self).console == old(self).console,
            match r {
                Ok(js) => {
                    &&& !old(self).pending@.contains_key(id@)
                    &&& final(self).pending@ == register_spec(old(self).pending@, id@)
                    &&& js@ == frame_invoke_spec(id@, invoke_script@)
                },
                Err(e) => {
                    &&& old(self).pending@.contains_key(id@)
                    &&& final(self).pending@ == old(self).pending@
                    &&& e matches BridgeError::Internal(d) && d@ == "call id collision"@
                },
            },
    {
        let framed = frame_invoke(id.as_str(), invoke_script);
        if self.pending.register(id) {
            Ok(framed)
        } else {
            Err(BridgeError::Internal(String::from_str("call id collision")))
        }
    }

    /// The sandbox's outcome callback. Completes the matching waiter;
    /// reports `false` for a late or unknown id, in which case nothing —
    /// in particular no other pending call — changes.
    pub fn eval_callback(
        &mut self,
        id: &str,
        success: bool,
        value: Option<String>,
        error: Option<String>,
    ) -> (r: bool)
        requires
            old(self).wf(),
        ensures
            final(self).wf(),
            final(self).console == old(self).console,
            r == resolve_spec(old(self).pending@, id@, (EvalResult { success, value, error })).1,
            final(self).pending@ == resolve_spec(
                old(self).pending@,
                id@,
                (EvalResult { success, value, error }),
            ).0,
    {
        self.pending.resolve(id, EvalResult { success, value, error })
    }

    /// Pick up the outcome a callback delivered for `id`, removing the
    /// registration. `None` while the call still waits.
    pub fn take_outcome(&mut self, id: &str) -> (r: Option<EvalResult>)
        requires
            old(self).wf(),
        ensures
            final(self).wf(),
            final(self).console == old(self).console,
            match r {
                Some(outcome) => {
                    &&& old(self).pending@.contains_key(id@)
                    &&& old(self).pending@[id@] == Some(outcome)
                    &&& final(self).pending@ == old(self).pending@.remove(id@)
                },
                None => {
                    &&& !(old(self).pending@.contains_key(id@) && old(self).pending@[id@] is Some)
                    &&& final(self).pending@ == old(self).pending@
                },
            },
    {
        self.pending.take_delivered(id)
    }

    /// End a call whose deadline passed: the registration is evicted, so a
    /// late callback will be discarded, and the caller gets `Timeout`.
    pub fn timeout_call(&mut self, id: &str, detail: String) -> (e: BridgeError)
        requires
            old(self).wf(),
        ensures
            final(self).wf(),
            final(self).console == old(self).console,
            final(self).pending@ == evict_spec(old(self).pending@, id@).0,
            !crate::registry::waiting(final(self).pending@, id@),
            e == BridgeError::Timeout(detail),
    {
        self.pending.evict(id);
        BridgeError::Timeout(detail)
    }

    /// End a call whose injection was rejected synchronously: the
    /// registration is evicted without waiting and the caller gets
    /// `InjectionFailed`.
    pub fn fail_injection(&mut self, id: &str, detail: String) -> (e: BridgeError)
        requires
            old(self).wf(),
        ensures
            final(self).wf(),
            final(self).console == old(self).console,
            final(self).pending@ == evict_spec(old(self).pending@, id@).0,
            !crate::registry::waiting(final(self).pending@, id@),
            e == BridgeError::InjectionFailed(detail),
    {
        self.pending.evict(id);
        BridgeError::InjectionFailed(detail)
    }

    /// The sandbox's console hook callback: publish one console line to
    /// every console subscriber.
    pub fn console_callback(&mut self, level: &str, message: &str)
        requires
            old(self).wf(),
        ensures
            final(self).wf(),
            final(self).pending == old(self).pending,
            final(self).console@ == publish_spec(
                old(self).console@,
                console_stream(),
                console_line_spec(level@, message@),
            ),
    {
        let mut line = String::new();
        line.append("{\"level\":");
        let ql = json_quote(level);
        line.append(ql.as_str());
        line.append(",\"message\":");
        let qm = json_quote(message);
        line.append(qm.as_str());
        line.append("}");
        self.console.publish("console", line.as_str());
    }

    /// An application event as observed by the host: publish it, as a
    /// small JSON object, to the subscribers of that event's stream.
    pub fn event_callback(&mut self, name: &str, payload: &str)
        requires
            old(self).wf(),
        ensures
            final(self).wf(),
            final(self).pending == old(self).pending,
            final(self).console@ == publish_spec(
                old(self).console@,
                name@,
                event_line_spec(name@, payload@),
            ),
    {
        let mut line = String::new();
        line.append("{\"event\":");
        let qn = json_quote(name);
        line.append(qn.as_str());
        line.append(",\"payload\":");
        let qp = json_quote(payload);
        line.append(qp.as_str());
        line.append("}");
        self.console.publish(name, line.as_str());
    }
}

} // verus!
