//! The host's non-local exit slot and the extension's result-level errors,
//! with the translation between the two.
//!
//! The host reports failures out-of-band: a primitive call stores a signal
//! or a throw into one session-scoped slot and returns a garbage value.
//! The extension's own error model is in-band (`Result`). Draining maps a
//! set slot to an error; the opposite direction, used when a host-invoked
//! callback fails, maps an error back into a slot state.

use vstd::prelude::*;
use crate::table::FuncId;

verus! {

/// The single pending-exit slot of one host session.
///
/// At most one exit is pending at a time; once set, the host unwinds any
/// further call the extension makes into it until the slot is cleared.
#[derive(Clone, Copy, Debug, PartialEq, Eq, Structural)]
pub enum PendingExit {
    /// No exit is pending: calls into the host behave normally.
    NoExit,
    /// An error signal: an error symbol plus associated data.
    Signal {
        /// Host value id of the error symbol.
        symbol: usize,
        /// Host value id of the associated data.
        data: usize,
    },
    /// A throw to a catch tag: the tag plus the thrown value.
    Throw {
        /// Host value id of the catch tag.
        tag: usize,
        /// Host value id of the thrown value.
        value: usize,
    },
}

/// A recoverable failure, flowing up the extension's call stack in-band.
#[derive(Clone, Copy, Debug, PartialEq, Eq, Structural)]
pub enum Error {
    /// A required non-critical host function is absent from the table.
    MissingFunction(FuncId),
    /// A drained host signal: error symbol plus data, not interpreted
    /// further by this layer.
    Signal {
        /// Host value id of the error symbol.
        symbol: usize,
        /// Host value id of the associated data.
        data: usize,
    },
    /// A drained host throw: catch tag plus thrown value.
    Throw {
        /// Host value id of the catch tag.
        tag: usize,
        /// Host value id of the thrown value.
        value: usize,
    },
    /// A transferred-in value carried a different type identity than the
    /// one expected.
    TypeMismatch {
        /// Finalizer identity of the expected type.
        expected: usize,
        /// Finalizer identity actually stored with the value.
        actual: usize,
    },
    /// Text could not be handed to the host because it holds an interior
    /// null byte.
    StringConversion,
}

/// What draining a slot state yields: `None` for no pending exit, or the
/// error that the wrapping call must return.
pub open spec fn drained(exit: PendingExit) -> Option<Error> {
    match exit {
        PendingExit::NoExit => None,
        PendingExit::Signal { symbol, data } => Some(Error::Signal { symbol, data }),
        PendingExit::Throw { tag, value } => Some(Error::Throw { tag, value }),
    }
}

/// The slot state a failing callback must leave behind for the host to
/// notice: a signal or throw is put back as it was drained; every other
/// error has no native host representation and falls back to a generic
/// signal.
pub open spec fn exit_for(e: Error, fallback_symbol: usize, fallback_data: usize) -> PendingExit {
    match e {
        Error::Signal { symbol, data } => PendingExit::Signal { symbol, data },
        Error::Throw { tag, value } => PendingExit::Throw { tag, value },
        _ => PendingExit::Signal { symbol: fallback_symbol, data: fallback_data },
    }
}

} // verus!
