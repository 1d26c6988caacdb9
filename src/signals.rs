//! The rules of calling scripted callbacks from native events.
use vstd::prelude::*;
use crate::text::{hyphenated, str_eq, to_hyphenated};

verus! {

/// A value passed between native events and scripted callbacks. Numbers
/// travel as the bits of a 64-bit float; a widget as its build handle.
#[derive(Debug)]
pub enum ScriptArg {
    Nil,
    Bool(bool),
    Number(u64),
    String(String),
    Widget(usize),
}

/// What came of calling a callback: the value it returned, or a failure.
#[derive(Debug)]
pub enum CallOutcome {
    Returned(ScriptArg),
    Failed,
}

/// The value handed back to the native event.
#[derive(Debug)]
pub enum NativeReturn {
    Bool(bool),
    Double(u64),
    Str(String),
}

/// Events whose native contract expects to learn whether they were handled.
pub open spec fn is_tri_state(signal: Seq<char>) -> bool {
    signal == "state-set"@ || signal == "focus-out"@
}

/// What the native event receives when a callback of `signal` ends in `outcome`.
pub open spec fn return_for(signal: Seq<char>, outcome: CallOutcome) -> Option<NativeReturn> {
    let handled = if is_tri_state(signal) { Some(NativeReturn::Bool(true)) } else { None };
    match outcome {
        CallOutcome::Returned(ScriptArg::Bool(b)) => Some(NativeReturn::Bool(b)),
        CallOutcome::Returned(ScriptArg::Number(n)) => Some(NativeReturn::Double(n)),
        CallOutcome::Returned(ScriptArg::String(s)) => Some(NativeReturn::Str(s)),
        CallOutcome::Returned(ScriptArg::Nil) => handled,
        CallOutcome::Returned(ScriptArg::Widget(_)) => None,
        CallOutcome::Failed => handled,
    }
}

/// Connects scripted callbacks to native events.
pub struct SignalConnector;

impl SignalConnector {
    /// The native name of a scripted event name: underscores become hyphens.
    pub fn signal_name(name: &str) -> (r: String)
        ensures
            r@ == hyphenated(name@),
    {
        to_hyphenated(name)
    }

    /// Whether `signal` (a native name) expects a "handled" answer.
    pub fn is_tri_state(signal: &str) -> (r: bool)
        ensures
            r == is_tri_state(signal@),
    {
        str_eq(signal, "state-set") || str_eq(signal, "focus-out")
    }

    /// The arguments of a callback: the widget that fired, then the event's own.
    pub fn callback_args(widget: usize, event_args: Vec<ScriptArg>) -> (r: Vec<ScriptArg>)
        ensures
            r@ == seq![ScriptArg::Widget(widget)] + event_args@,
    {
        let mut out: Vec<ScriptArg> = Vec::new();
        out.push(ScriptArg::Widget(widget));
        let mut rest = event_args;
        out.append(&mut rest);
        assert(out@ =~= seq![ScriptArg::Widget(widget)] + event_args@);
        out
    }

    /// What the native event receives when a callback of `signal` ends in
    /// `outcome`: booleans, numbers and strings pass through; nil, and a
    /// failure, count as handled for the events that need an answer.
    pub fn native_return(signal: &str, outcome: CallOutcome) -> (r: Option<NativeReturn>)
        ensures
            r == return_for(signal@, outcome),
    {
        let tri = Self::is_tri_state(signal);
        match outcome {
            CallOutcome::Returned(ScriptArg::Bool(b)) => Some(NativeReturn::Bool(b)),
            CallOutcome::Returned(ScriptArg::Number(n)) => Some(NativeReturn::Double(n)),
            CallOutcome::Returned(ScriptArg::String(s)) => Some(NativeReturn::Str(s)),
            CallOutcome::Returned(ScriptArg::Widget(_)) => None,
            _ => if tri { Some(NativeReturn::Bool(true)) } else { None },
        }
    }
}

} // verus!
