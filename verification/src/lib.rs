//! An embeddable finite-state-machine runtime.
//!
//! A machine is described by a statically resolved definition table
//! ([`defs::FsmDef`]): states, regions, transitions, guards, actions and
//! timers, all referred to by index. The dispatch engine
//! ([`machine::FsmMachine`]) receives one event at a time, matches it against
//! the transition table of every region, runs the exit/guard/action/entry
//! protocol, and reports the aggregate result. Orthogonal regions transition
//! independently; a state may embed a whole sub-machine; timers are ticked
//! externally and feed synthetic timeout events back into dispatch.

use vstd::prelude::*;

pub mod defs;
pub mod events;
pub mod example_basic;
pub mod example_embedded;
pub mod example_timers;
pub mod inspect;
pub mod inspect_slog;
pub mod laws;
pub mod machine;
pub mod pending;
pub mod queue;
pub mod sem;
pub mod timers;

verus! {

/// The result type used throughout the library.
pub type FsmResult<T> = Result<T, FsmError>;

/// A machine declaration handed to the engine: the backend builds the
/// statically resolved definition tables the dispatch engine consumes. The
/// engine validates the tables once, when the machine is built.
pub trait FsmBackend {
    /// The machine's definition tables.
    fn build_def(&self) -> defs::FsmDef;
}

/// Enumerates all the variants of a simple enum, in declaration order; used
/// for the flattened, ordered set of timer identifiers of a machine and its
/// nested sub-machines.
pub trait AllVariants where Self: Sized {
    /// Every variant, in declaration order.
    fn all_variants() -> Vec<Self>;
}

/// The library-level error type. Every error is returned as an explicit
/// result value; verified code never aborts.
#[derive(Clone, Copy, Debug, PartialEq, Eq, Structural)]
pub enum FsmError {
    /// No region had a matching transition for the dispatched event.
    NoTransition,
    /// Dispatch was blocked by an active interrupt state.
    Interrupted,
    /// A bounded event queue was full.
    QueueOverCapacity,
    /// The operation is unavailable for the configured backend.
    NotSupported,
    /// An operation was requested on a timer id with no active timer.
    TimerNotStarted,
}

} // verus!
