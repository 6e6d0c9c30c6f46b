//! The session model: a borrowed host environment, transient value handles,
//! and the call-dispatch discipline that keeps the pending-exit slot sound.
//!
//! Every operation that invokes a host function must (1) look the pointer
//! up, failing with a missing-function error if absent; (2) invoke it;
//! (3) immediately drain the pending-exit slot into an in-band error before
//! any other host call is issued. [`Env::dispatch`] centralizes that
//! discipline; the derived operations are compositions of it.
//!
//! The host itself cannot be reasoned about, so its side of each primitive
//! call is a value: a [`HostOutcome`] holding the raw return and the slot
//! state the call left behind. The runner that owns the real function-
//! pointer table performs the raw call and hands the outcome in; every
//! decision around the call is made, and verified, here. A ghost trace of
//! the fallible calls issued records that an absent function is never
//! invoked and that nothing runs between a call and its drain.

use vstd::prelude::*;
use crate::convert::has_interior_nul;
use crate::convert::text_is_clean;
use crate::exit::drained;
use crate::exit::exit_for;
use crate::exit::Error;
use crate::exit::PendingExit;
use crate::table::FuncId;
use crate::table::Table;

verus! {

/// Well-known id of the host's nil value in this model; the sentinel a
/// failing callback returns.
pub const NIL: usize = 0;

/// Well-known id of the host's generic error symbol in this model, used
/// when a failure has no native host representation.
pub const ERROR_SYMBOL: usize = 1;

/// Well-known id of the host's wrong-type-argument symbol in this model,
/// signaled when a value is not the collector-owned box it was taken for.
pub const WRONG_TYPE_SYMBOL: usize = 2;

/// A transient, freely copyable reference to one host-owned opaque value,
/// bound to the session that produced it.
///
/// The collector, not the extension, owns the referent, however many
/// copies of the handle alias it.
#[derive(Clone, Copy, Debug, PartialEq, Eq, Structural)]
pub struct Value {
    /// The host's name for the value: opaque to the extension.
    pub raw: usize,
    /// The session the handle belongs to; it must not outlive it.
    pub session: usize,
}

impl Value {
    /// Wrap a raw host value for use within the given session.
    pub fn new(raw: usize, session: usize) -> (r: Value)
        ensures
            r.raw == raw,
            r.session == session,
    {
        Value { raw, session }
    }
}

/// The host's side of one primitive call: the raw return value and the
/// state the pending-exit slot was left in.
#[derive(Clone, Copy, Debug, PartialEq, Eq, Structural)]
pub struct HostOutcome {
    /// The call's raw return, meaningful only when no exit is pending.
    pub ret: usize,
    /// The pending-exit slot as the call left it.
    pub exit: PendingExit,
}

/// What a drained primitive call returns: the raw value on a clear slot,
/// the drained exit as an error otherwise.
pub open spec fn dispatch_result(o: HostOutcome) -> Result<usize, Error> {
    match drained(o.exit) {
        None => Ok(o.ret),
        Some(e) => Err(e),
    }
}

/// [`dispatch_result`], with a successful raw return wrapped as a handle
/// of the given session.
pub open spec fn value_result(o: HostOutcome, session: usize) -> Result<Value, Error> {
    match drained(o.exit) {
        None => Ok(Value { raw: o.ret, session }),
        Some(e) => Err(e),
    }
}

/// [`dispatch_result`], with a successful raw return read as a host
/// boolean: anything but nil is true.
pub open spec fn bool_result(o: HostOutcome) -> Result<bool, Error> {
    match drained(o.exit) {
        None => Ok(o.ret != NIL),
        Some(e) => Err(e),
    }
}

/// A borrowed, non-owning reference to one host environment instance,
/// valid only for the current call's dynamic extent.
///
/// `pending` models the host's session-scoped exit slot; `calls` is a
/// ghost trace of the fallible host functions invoked through this
/// environment, in order.
///
/// Every operation demands a clear slot on entry and leaves it clear,
/// except [`Env::conclude_callback`], which deliberately leaves it set for
/// the host to unwind on. What becomes of an exit left undrained because
/// the extension itself faults mid-call is undefined here on purpose: the
/// preconditions forbid reaching any further host call in that state, and
/// no behavior is promised for it.
pub struct Env {
    /// Identity of the session this environment belongs to.
    pub session: usize,
    /// Presence flags of the host's function table.
    pub table: Table,
    /// The single pending-exit slot of this session.
    pub pending: PendingExit,
    /// Trace of the fallible host calls issued, oldest first.
    pub calls: Ghost<Seq<FuncId>>,
}

impl Env {
    /// The environment can report errors: the critical subset of its table
    /// is present.
    pub open spec fn wf(self) -> bool {
        self.table.criticals_present()
    }

    /// Every fallible host call ever issued went to a function the table
    /// offers, and never to a critical one: an absent function is
    /// reported, not invoked, and the critical entries bypass this path
    /// entirely.
    pub open spec fn trace_wf(self) -> bool {
        forall|i: int|
            0 <= i < self.calls@.len() ==> self.table.spec_has(#[trigger] self.calls@[i])
                && !self.calls@[i].spec_is_critical()
    }

    /// Enter a session over the given table.
    ///
    /// The critical entries must be present: without them no error can be
    /// reported at all, and the caller must abort instead of constructing
    /// an environment (check with [`Table::has_criticals`]).
    pub fn new(session: usize, table: Table) -> (r: Env)
        requires
            table.criticals_present(),
        ensures
            r.session == session,
            r.table == table,
            r.pending == PendingExit::NoExit,
            r.calls@ == Seq::<FuncId>::empty(),
            r.wf(),
            r.trace_wf(),
    {
        Env { session, table, pending: PendingExit::NoExit, calls: Ghost(Seq::empty()) }
    }

    /// One primitive call, under the full dispatch discipline: presence
    /// check first — an absent entry yields the missing-function error and
    /// no call is issued — then the call, then the immediate drain of the
    /// slot, before control returns to any other code path.
    ///
    /// On return the slot is always clear again, and the trace has grown
    /// by exactly the one call: no other host function ran between the
    /// call and its drain.
    pub fn dispatch(&mut self, f: FuncId, outcome: HostOutcome) -> (r: Result<usize, Error>)
        requires
            old(self).wf(),
            old(self).pending is NoExit,
            !f.spec_is_critical(),
        ensures
            final(self).wf(),
            final(self).session == old(self).session,
            final(self).table == old(self).table,
            final(self).pending is NoExit,
            old(self).trace_wf() ==> final(self).trace_wf(),
            !old(self).table.spec_has(f) ==> r == Err::<usize, Error>(Error::MissingFunction(f))
                && final(self).calls@ == old(self).calls@,
            old(self).table.spec_has(f) ==> r == dispatch_result(outcome)
                && final(self).calls@ == old(self).calls@.push(f),
    {
        if !self.table.has(f) {
            return Err(Error::MissingFunction(f));
        }
        // The runner performs the raw call here; `outcome` is what it
        // observed: the raw return and the slot state left behind.
        self.calls = Ghost(self.calls@.push(f));
        self.pending = outcome.exit;
        match outcome.exit {
            PendingExit::NoExit => Ok(outcome.ret),
            PendingExit::Signal { symbol, data } => {
                // Drain: clear the slot (a critical entry, present by
                // well-formedness) and re-pair the exit with the result.
                self.pending = PendingExit::NoExit;
                Err(Error::Signal { symbol, data })
            },
            PendingExit::Throw { tag, value } => {
                self.pending = PendingExit::NoExit;
                Err(Error::Throw { tag, value })
            },
        }
    }
}

/// Result and calls-trace of `intern`, starting from the trace `prior`.
pub open spec fn intern_effect(
    table: Table,
    session: usize,
    name: Seq<char>,
    o: HostOutcome,
    prior: Seq<FuncId>,
) -> (Result<Value, Error>, Seq<FuncId>) {
    if !table.spec_has(FuncId::Intern) {
        (Err(Error::MissingFunction(FuncId::Intern)), prior)
    } else if has_interior_nul(name) {
        (Err(Error::StringConversion), prior)
    } else {
        (value_result(o, session), prior.push(FuncId::Intern))
    }
}

/// Result and calls-trace of `call`: an intern of the name, then, on
/// success, one funcall.
pub open spec fn call_effect(
    table: Table,
    session: usize,
    name: Seq<char>,
    o_intern: HostOutcome,
    o_funcall: HostOutcome,
    prior: Seq<FuncId>,
) -> (Result<Value, Error>, Seq<FuncId>) {
    let step = intern_effect(table, session, name, o_intern, prior);
    match step.0 {
        Err(e) => (Err(e), step.1),
        Ok(_) => if !table.spec_has(FuncId::Funcall) {
            (Err(Error::MissingFunction(FuncId::Funcall)), step.1)
        } else {
            (value_result(o_funcall, session), step.1.push(FuncId::Funcall))
        },
    }
}

/// Result and calls-trace of `make_string`.
pub open spec fn make_string_effect(
    table: Table,
    session: usize,
    text: Seq<char>,
    o: HostOutcome,
    prior: Seq<FuncId>,
) -> (Result<Value, Error>, Seq<FuncId>) {
    if !table.spec_has(FuncId::MakeString) {
        (Err(Error::MissingFunction(FuncId::MakeString)), prior)
    } else if has_interior_nul(text) {
        (Err(Error::StringConversion), prior)
    } else {
        (value_result(o, session), prior.push(FuncId::MakeString))
    }
}

/// Result and calls-trace of `provide`: an intern of the feature name,
/// then a `call` of the host's `provide`.
pub open spec fn provide_effect(
    table: Table,
    session: usize,
    name: Seq<char>,
    o_intern: HostOutcome,
    o_intern_provide: HostOutcome,
    o_funcall: HostOutcome,
    prior: Seq<FuncId>,
) -> (Result<Value, Error>, Seq<FuncId>) {
    let step = intern_effect(table, session, name, o_intern, prior);
    match step.0 {
        Err(e) => (Err(e), step.1),
        Ok(_) => call_effect(table, session, "provide"@, o_intern_provide, o_funcall, step.1),
    }
}

/// Result and calls-trace of `message`: the text marshaled into a host
/// string, then a `call` of the host's `message`.
pub open spec fn message_effect(
    table: Table,
    session: usize,
    text: Seq<char>,
    o_string: HostOutcome,
    o_intern: HostOutcome,
    o_funcall: HostOutcome,
    prior: Seq<FuncId>,
) -> (Result<Value, Error>, Seq<FuncId>) {
    let step = make_string_effect(table, session, text, o_string, prior);
    match step.0 {
        Err(e) => (Err(e), step.1),
        Ok(_) => call_effect(table, session, "message"@, o_intern, o_funcall, step.1),
    }
}

impl Env {
    /// Look a symbol up by name. Fails with the missing-function error if
    /// the host lacks `intern`, with a string-conversion error if the name
    /// holds an interior null, and with the drained exit if the host
    /// signals or throws.
    pub fn intern(&mut self, name: &str, outcome: HostOutcome) -> (r: Result<Value, Error>)
        requires
            old(self).wf(),
            old(self).pending is NoExit,
        ensures
            final(self).wf(),
            final(self).session == old(self).session,
            final(self).table == old(self).table,
            final(self).pending is NoExit,
            old(self).trace_wf() ==> final(self).trace_wf(),
            r == intern_effect(old(self).table, old(self).session, name@, outcome, old(self).calls@).0,
            final(self).calls@ == intern_effect(old(self).table, old(self).session, name@, outcome, old(self).calls@).1,
    {
        if !self.table.has(FuncId::Intern) {
            return Err(Error::MissingFunction(FuncId::Intern));
        }
        if !text_is_clean(name) {
            return Err(Error::StringConversion);
        }
        match self.dispatch(FuncId::Intern, outcome) {
            Ok(raw) => Ok(Value { raw, session: self.session }),
            Err(e) => Err(e),
        }
    }

    /// Apply a function value to arguments. The handles must belong to
    /// this session.
    pub fn funcall(&mut self, func: Value, args: &[Value], outcome: HostOutcome) -> (r: Result<
        Value,
        Error,
    >)
        requires
            old(self).wf(),
            old(self).pending is NoExit,
            func.session == old(self).session,
            forall|i: int| 0 <= i < args@.len() ==> args@[i].session == old(self).session,
        ensures
            final(self).wf(),
            final(self).session == old(self).session,
            final(self).table == old(self).table,
            final(self).pending is NoExit,
            old(self).trace_wf() ==> final(self).trace_wf(),
            !old(self).table.spec_has(FuncId::Funcall) ==> r == Err::<Value, Error>(
                Error::MissingFunction(FuncId::Funcall),
            ) && final(self).calls@ == old(self).calls@,
            old(self).table.spec_has(FuncId::Funcall) ==> r == value_result(
                outcome,
                old(self).session,
            ) && final(self).calls@ == old(self).calls@.push(FuncId::Funcall),
    {
        match self.dispatch(FuncId::Funcall, outcome) {
            Ok(raw) => Ok(Value { raw, session: self.session }),
            Err(e) => Err(e),
        }
    }

    /// Query the type of a value.
    pub fn type_of(&mut self, value: Value, outcome: HostOutcome) -> (r: Result<Value, Error>)
        requires
            old(self).wf(),
            old(self).pending is NoExit,
            value.session == old(self).session,
        ensures
            final(self).wf(),
            final(self).session == old(self).session,
            final(self).table == old(self).table,
            final(self).pending is NoExit,
            old(self).trace_wf() ==> final(self).trace_wf(),
            !old(self).table.spec_has(FuncId::TypeOf) ==> r == Err::<Value, Error>(
                Error::MissingFunction(FuncId::TypeOf),
            ) && final(self).calls@ == old(self).calls@,
            old(self).table.spec_has(FuncId::TypeOf) ==> r == value_result(
                outcome,
                old(self).session,
            ) && final(self).calls@ == old(self).calls@.push(FuncId::TypeOf),
    {
        match self.dispatch(FuncId::TypeOf, outcome) {
            Ok(raw) => Ok(Value { raw, session: self.session }),
            Err(e) => Err(e),
        }
    }

    /// Identity comparison of two values, as the host sees them.
    pub fn eq(&mut self, a: Value, b: Value, outcome: HostOutcome) -> (r: Result<bool, Error>)
        requires
            old(self).wf(),
            old(self).pending is NoExit,
            a.session == old(self).session,
            b.session == old(self).session,
        ensures
            final(self).wf(),
            final(self).session == old(self).session,
            final(self).table == old(self).table,
            final(self).pending is NoExit,
            old(self).trace_wf() ==> final(self).trace_wf(),
            !old(self).table.spec_has(FuncId::Eq) ==> r == Err::<bool, Error>(
                Error::MissingFunction(FuncId::Eq),
            ) && final(self).calls@ == old(self).calls@,
            old(self).table.spec_has(FuncId::Eq) ==> r == bool_result(outcome) && final(self).calls@
                == old(self).calls@.push(FuncId::Eq),
    {
        match self.dispatch(FuncId::Eq, outcome) {
            Ok(raw) => Ok(raw != NIL),
            Err(e) => Err(e),
        }
    }

    /// Test a value against the host's false sentinel.
    pub fn is_not_nil(&mut self, value: Value, outcome: HostOutcome) -> (r: Result<bool, Error>)
        requires
            old(self).wf(),
            old(self).pending is NoExit,
            value.session == old(self).session,
        ensures
            final(self).wf(),
            final(self).session == old(self).session,
            final(self).table == old(self).table,
            final(self).pending is NoExit,
            old(self).trace_wf() ==> final(self).trace_wf(),
            !old(self).table.spec_has(FuncId::IsNotNil) ==> r == Err::<bool, Error>(
                Error::MissingFunction(FuncId::IsNotNil),
            ) && final(self).calls@ == old(self).calls@,
            old(self).table.spec_has(FuncId::IsNotNil) ==> r == bool_result(outcome) && final(self).calls@
                == old(self).calls@.push(FuncId::IsNotNil),
    {
        match self.dispatch(FuncId::IsNotNil, outcome) {
            Ok(raw) => Ok(raw != NIL),
            Err(e) => Err(e),
        }
    }

    /// Build a host string from the given text, failing on an interior
    /// null byte before any host function is invoked.
    pub fn make_string(&mut self, text: &str, outcome: HostOutcome) -> (r: Result<Value, Error>)
        requires
            old(self).wf(),
            old(self).pending is NoExit,
        ensures
            final(self).wf(),
            final(self).session == old(self).session,
            final(self).table == old(self).table,
            final(self).pending is NoExit,
            old(self).trace_wf() ==> final(self).trace_wf(),
            r == make_string_effect(
                old(self).table,
                old(self).session,
                text@,
                outcome,
                old(self).calls@,
            ).0,
            final(self).calls@ == make_string_effect(
                old(self).table,
                old(self).session,
                text@,
                outcome,
                old(self).calls@,
            ).1,
    {
        if !self.table.has(FuncId::MakeString) {
            return Err(Error::MissingFunction(FuncId::MakeString));
        }
        if !text_is_clean(text) {
            return Err(Error::StringConversion);
        }
        match self.dispatch(FuncId::MakeString, outcome) {
            Ok(raw) => Ok(Value { raw, session: self.session }),
            Err(e) => Err(e),
        }
    }

    /// Call a host function by name: intern the name, then funcall the
    /// symbol on the arguments. Each of the two primitive calls follows
    /// the dispatch discipline; the second is issued only if the first
    /// drained no exit.
    pub fn call(
        &mut self,
        name: &str,
        args: &[Value],
        intern_outcome: HostOutcome,
        funcall_outcome: HostOutcome,
    ) -> (r: Result<Value, Error>)
        requires
            old(self).wf(),
            old(self).pending is NoExit,
            forall|i: int| 0 <= i < args@.len() ==> args@[i].session == old(self).session,
        ensures
            final(self).wf(),
            final(self).session == old(self).session,
            final(self).table == old(self).table,
            final(self).pending is NoExit,
            old(self).trace_wf() ==> final(self).trace_wf(),
            r == call_effect(
                old(self).table,
                old(self).session,
                name@,
                intern_outcome,
                funcall_outcome,
                old(self).calls@,
            ).0,
            final(self).calls@ == call_effect(
                old(self).table,
                old(self).session,
                name@,
                intern_outcome,
                funcall_outcome,
                old(self).calls@,
            ).1,
    {
        let symbol = match self.intern(name, intern_outcome) {
            Ok(v) => v,
            Err(e) => {
                return Err(e);
            },
        };
        self.funcall(symbol, args, funcall_outcome)
    }

    /// Build a host list of the given elements, through the host's `list`.
    pub fn list(
        &mut self,
        args: &[Value],
        intern_outcome: HostOutcome,
        funcall_outcome: HostOutcome,
    ) -> (r: Result<Value, Error>)
        requires
            old(self).wf(),
            old(self).pending is NoExit,
            forall|i: int| 0 <= i < args@.len() ==> args@[i].session == old(self).session,
        ensures
            final(self).wf(),
            final(self).session == old(self).session,
            final(self).table == old(self).table,
            final(self).pending is NoExit,
            old(self).trace_wf() ==> final(self).trace_wf(),
            r == call_effect(
                old(self).table,
                old(self).session,
                "list"@,
                intern_outcome,
                funcall_outcome,
                old(self).calls@,
            ).0,
            final(self).calls@ == call_effect(
                old(self).table,
                old(self).session,
                "list"@,
                intern_outcome,
                funcall_outcome,
                old(self).calls@,
            ).1,
    {
        self.call("list", args, intern_outcome, funcall_outcome)
    }

    /// Announce a feature to the host: intern the feature name, then call
    /// the host's `provide` on it.
    pub fn provide(
        &mut self,
        name: &str,
        intern_outcome: HostOutcome,
        intern_provide_outcome: HostOutcome,
        funcall_outcome: HostOutcome,
    ) -> (r: Result<Value, Error>)
        requires
            old(self).wf(),
            old(self).pending is NoExit,
        ensures
            final(self).wf(),
            final(self).session == old(self).session,
            final(self).table == old(self).table,
            final(self).pending is NoExit,
            old(self).trace_wf() ==> final(self).trace_wf(),
            r == provide_effect(
                old(self).table,
                old(self).session,
                name@,
                intern_outcome,
                intern_provide_outcome,
                funcall_outcome,
                old(self).calls@,
            ).0,
            final(self).calls@ == provide_effect(
                old(self).table,
                old(self).session,
                name@,
                intern_outcome,
                intern_provide_outcome,
                funcall_outcome,
                old(self).calls@,
            ).1,
    {
        let symbol = match self.intern(name, intern_outcome) {
            Ok(v) => v,
            Err(e) => {
                return Err(e);
            },
        };
        let args: Vec<Value> = vec![symbol];
        self.call("provide", args.as_slice(), intern_provide_outcome, funcall_outcome)
    }

    /// Show a message to the host's user: marshal the text into a host
    /// string, then call the host's `message` on it.
    pub fn message(
        &mut self,
        text: &str,
        string_outcome: HostOutcome,
        intern_outcome: HostOutcome,
        funcall_outcome: HostOutcome,
    ) -> (r: Result<Value, Error>)
        requires
            old(self).wf(),
            old(self).pending is NoExit,
        ensures
            final(self).wf(),
            final(self).session == old(self).session,
            final(self).table == old(self).table,
            final(self).pending is NoExit,
            old(self).trace_wf() ==> final(self).trace_wf(),
            r == message_effect(
                old(self).table,
                old(self).session,
                text@,
                string_outcome,
                intern_outcome,
                funcall_outcome,
                old(self).calls@,
            ).0,
            final(self).calls@ == message_effect(
                old(self).table,
                old(self).session,
                text@,
                string_outcome,
                intern_outcome,
                funcall_outcome,
                old(self).calls@,
            ).1,
    {
        let text_value = match self.make_string(text, string_outcome) {
            Ok(v) => v,
            Err(e) => {
                return Err(e);
            },
        };
        let args: Vec<Value> = vec![text_value];
        self.call("message", args.as_slice(), intern_outcome, funcall_outcome)
    }

    /// Translate a host-invoked callback's result into what crosses back
    /// over the boundary: the value itself on success, or — since the ABI
    /// has no return channel for callback errors — the pending-exit slot
    /// set for the host to unwind on, and the sentinel nil as the returned
    /// placeholder. A drained signal or throw is put back as it was; any
    /// other failure becomes the generic error signal.
    ///
    /// Setting the slot uses only critical entries, so no fallible call is
    /// traced and the translation itself cannot fail.
    pub fn conclude_callback(&mut self, result: Result<Value, Error>) -> (r: Value)
        requires
            old(self).wf(),
            old(self).pending is NoExit,
        ensures
            final(self).wf(),
            final(self).session == old(self).session,
            final(self).table == old(self).table,
            final(self).calls@ == old(self).calls@,
            old(self).trace_wf() ==> final(self).trace_wf(),
            result matches Ok(v) ==> final(self).pending is NoExit && r == v,
            result matches Err(e) ==> final(self).pending == exit_for(e, ERROR_SYMBOL, NIL) && r
                == (Value { raw: NIL, session: old(self).session }),
    {
        match result {
            Ok(v) => v,
            Err(Error::Signal { symbol, data }) => {
                self.pending = PendingExit::Signal { symbol, data };
                Value { raw: NIL, session: self.session }
            },
            Err(Error::Throw { tag, value }) => {
                self.pending = PendingExit::Throw { tag, value };
                Value { raw: NIL, session: self.session }
            },
            Err(_) => {
                self.pending = PendingExit::Signal { symbol: ERROR_SYMBOL, data: NIL };
                Value { raw: NIL, session: self.session }
            },
        }
    }
}

/// The integer status a module entry point reports to the host loader:
/// zero for success, one for failure.
pub fn init_status(result: &Result<Value, Error>) -> (s: i32)
    ensures
        result is Ok <==> s == 0,
        result is Err <==> s == 1,
{
    match result {
        Ok(_) => 0,
        Err(_) => 1,
    }
}

} // verus!
