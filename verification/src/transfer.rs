//! The ownership-transfer protocol: boxed extension data living as
//! collector-owned opaque values.
//!
//! Transferring out hands the host a pointer paired with a fixed per-type
//! finalizer; from then on the collector owns the allocation and the
//! extension reads it back only through a runtime check comparing the
//! stored finalizer identity against the expected type's — the host has no
//! richer type system to consult. The check fails closed: a mismatch
//! yields a type-mismatch error and never a reference of the wrong type.
//!
//! The host's memory of transferred boxes is modeled as a store of
//! entries, each a finalizer identity (`tag`) paired with the data; a
//! handle's raw id indexes it. Reading goes through the host's functions
//! for the stored pointer and finalizer, so the dispatch discipline of
//! [`crate::env`] applies: presence is checked first, and a host exit
//! (a value that is no collector-owned box at all) is drained.

use vstd::prelude::*;
use crate::env::Env;
use crate::env::Value;
use crate::env::WRONG_TYPE_SYMBOL;
use crate::exit::Error;
use crate::exit::PendingExit;
use crate::table::FuncId;

verus! {

/// A type whose boxed values can be exposed to the host as collector-owned
/// opaque objects.
///
/// Each implementing type fixes one finalizer identity, the only runtime
/// type tag the host can store, and a name under which a mismatch is
/// reported to the user. After a value of the type is transferred, the
/// collector owns it; module code reaches it only through handles, so a
/// type that host code may alias mutably should wrap its state in an
/// interior-mutability guard before transfer.
pub trait Transfer: Sized {
    /// The finalizer identity that tags every transferred box of this
    /// type; what [`UserPtrStore::transfer_in`] compares.
    fn tag() -> usize;

    /// The name of this type, used to report a runtime type mismatch when
    /// a handle carries a different kind of collector-owned box.
    fn type_label() -> &'static str;
}

/// One collector-owned box: the finalizer identity it was transferred
/// with, and the data the extension boxed.
pub struct UserPtr<T> {
    /// Identity of the per-type finalizer handed to the host; the only
    /// runtime type tag available.
    pub tag: usize,
    /// The boxed extension data, owned by the collector.
    pub data: T,
}

/// The host collector's memory of every box transferred to it, in the
/// order of transfer. A handle's raw id is its index here.
pub struct UserPtrStore<T> {
    /// The boxes, oldest first.
    pub entries: Vec<UserPtr<T>>,
}

impl<T> View for UserPtrStore<T> {
    type V = Seq<UserPtr<T>>;

    open spec fn view(&self) -> Seq<UserPtr<T>> {
        self.entries@
    }
}

/// What reading a handle back out of the store yields: the host signals
/// on a handle that names no box, the type check fails closed on a
/// mismatched finalizer identity, and only an exact match yields the data.
pub open spec fn lookup<T>(entries: Seq<UserPtr<T>>, raw: usize, expected_tag: usize) -> Result<
    T,
    Error,
> {
    if raw >= entries.len() {
        Err(Error::Signal { symbol: WRONG_TYPE_SYMBOL, data: raw })
    } else if entries[raw as int].tag != expected_tag {
        Err(Error::TypeMismatch { expected: expected_tag, actual: entries[raw as int].tag })
    } else {
        Ok(entries[raw as int].data)
    }
}

impl<T> UserPtrStore<T> {
    /// An empty store: no box has been transferred yet.
    pub fn new() -> (r: UserPtrStore<T>)
        ensures
            r@ == Seq::<UserPtr<T>>::empty(),
    {
        UserPtrStore { entries: Vec::new() }
    }

    /// Transfer a boxed value out to the collector: pair it with its
    /// type's finalizer identity and hand both to the host's opaque-
    /// pointer primitive, receiving a handle. From this point the value is
    /// collector-owned; the extension must never free it directly.
    pub fn transfer_out(&mut self, env: &mut Env, tag: usize, data: T) -> (r: Result<Value, Error>)
        requires
            old(env).wf(),
            old(env).pending is NoExit,
        ensures
            final(env).wf(),
            final(env).session == old(env).session,
            final(env).table == old(env).table,
            final(env).pending is NoExit,
            old(env).trace_wf() ==> final(env).trace_wf(),
            !old(env).table.spec_has(FuncId::MakeUserPtr) ==> r == Err::<Value, Error>(
                Error::MissingFunction(FuncId::MakeUserPtr),
            ) && final(self)@ == old(self)@ && final(env).calls@ == old(env).calls@,
            old(env).table.spec_has(FuncId::MakeUserPtr) ==> final(self)@ == old(self)@.push(
                UserPtr { tag, data },
            ) && final(env).calls@ == old(env).calls@.push(FuncId::MakeUserPtr) && r == Ok::<
                Value,
                Error,
            >(Value { raw: old(self)@.len() as usize, session: old(env).session }),
    {
        if !env.table.has(FuncId::MakeUserPtr) {
            return Err(Error::MissingFunction(FuncId::MakeUserPtr));
        }
        // The modeled host always accepts a transfer: the new box is
        // appended and the returned handle names its slot.
        let raw = self.entries.len();
        let outcome = crate::env::HostOutcome { ret: raw, exit: PendingExit::NoExit };
        let _ = env.dispatch(FuncId::MakeUserPtr, outcome);
        self.entries.push(UserPtr { tag, data });
        Ok(Value { raw, session: env.session })
    }

    /// Transfer a box back in as a shared reference: fetch the stored
    /// pointer and finalizer through the host, compare the finalizer
    /// identity against the expected type's, and yield the data only on
    /// an exact match.
    pub fn transfer_in<'a>(
        &'a self,
        env: &mut Env,
        handle: Value,
        expected_tag: usize,
    ) -> (r: Result<&'a T, Error>)
        requires
            old(env).wf(),
            old(env).pending is NoExit,
            handle.session == old(env).session,
        ensures
            final(env).wf(),
            final(env).session == old(env).session,
            final(env).table == old(env).table,
            final(env).pending is NoExit,
            old(env).trace_wf() ==> final(env).trace_wf(),
            !old(env).table.spec_has(FuncId::GetUserPtr) ==> r == Err::<&'a T, Error>(
                Error::MissingFunction(FuncId::GetUserPtr),
            ) && final(env).calls@ == old(env).calls@,
            old(env).table.spec_has(FuncId::GetUserPtr) && handle.raw >= self@.len() ==> r
                == Err::<&'a T, Error>(
                Error::Signal { symbol: WRONG_TYPE_SYMBOL, data: handle.raw },
            ) && final(env).calls@ == old(env).calls@.push(FuncId::GetUserPtr),
            old(env).table.spec_has(FuncId::GetUserPtr) && handle.raw < self@.len()
                && !old(env).table.spec_has(FuncId::GetUserFinalizer) ==> r == Err::<&'a T, Error>(
                Error::MissingFunction(FuncId::GetUserFinalizer),
            ) && final(env).calls@ == old(env).calls@.push(FuncId::GetUserPtr),
            old(env).table.spec_has(FuncId::GetUserPtr) && handle.raw < self@.len() && old(
                env,
            ).table.spec_has(FuncId::GetUserFinalizer) ==> final(env).calls@ == old(
                env,
            ).calls@.push(FuncId::GetUserPtr).push(FuncId::GetUserFinalizer) && (match lookup(
                self@,
                handle.raw,
                expected_tag,
            ) {
                Ok(d) => r matches Ok(p) && *p == d,
                Err(e) => r == Err::<&'a T, Error>(e),
            }),
    {
        if !env.table.has(FuncId::GetUserPtr) {
            return Err(Error::MissingFunction(FuncId::GetUserPtr));
        }
        if handle.raw >= self.entries.len() {
            // The value is no collector-owned box: the host signals a
            // wrong-type error, drained here as the discipline demands.
            let outcome = crate::env::HostOutcome {
                ret: 0,
                exit: PendingExit::Signal { symbol: WRONG_TYPE_SYMBOL, data: handle.raw },
            };
            return match env.dispatch(FuncId::GetUserPtr, outcome) {
                Ok(_) => Err(Error::Signal { symbol: WRONG_TYPE_SYMBOL, data: handle.raw }),
                Err(e) => Err(e),
            };
        }
        let ptr_outcome = crate::env::HostOutcome { ret: handle.raw, exit: PendingExit::NoExit };
        match env.dispatch(FuncId::GetUserPtr, ptr_outcome) {
            Ok(_) => (),
            Err(e) => {
                return Err(e);
            },
        }
        if !env.table.has(FuncId::GetUserFinalizer) {
            return Err(Error::MissingFunction(FuncId::GetUserFinalizer));
        }
        let entry_tag = self.entries[handle.raw].tag;
        let fin_outcome = crate::env::HostOutcome { ret: entry_tag, exit: PendingExit::NoExit };
        match env.dispatch(FuncId::GetUserFinalizer, fin_outcome) {
            Ok(_) => (),
            Err(e) => {
                return Err(e);
            },
        }
        if entry_tag != expected_tag {
            return Err(Error::TypeMismatch { expected: expected_tag, actual: entry_tag });
        }
        Ok(&self.entries[handle.raw].data)
    }
}

impl<T> UserPtrStore<T> {
    /// Run the transfer-in checks for a mutable read-back: fetch the
    /// stored pointer and finalizer through the host and compare the
    /// finalizer identity, without yet yielding the data. On success the
    /// handle is known to name a box of the expected type and
    /// [`UserPtrStore::get_mut`] may borrow it.
    pub fn check_type(&self, env: &mut Env, handle: Value, expected_tag: usize) -> (r: Result<
        (),
        Error,
    >)
        requires
            old(env).wf(),
            old(env).pending is NoExit,
            handle.session == old(env).session,
        ensures
            final(env).wf(),
            final(env).session == old(env).session,
            final(env).table == old(env).table,
            final(env).pending is NoExit,
            old(env).trace_wf() ==> final(env).trace_wf(),
            r is Ok <==> old(env).table.spec_has(FuncId::GetUserPtr) && old(env).table.spec_has(
                FuncId::GetUserFinalizer,
            ) && lookup(self@, handle.raw, expected_tag) is Ok,
            !old(env).table.spec_has(FuncId::GetUserPtr) ==> r == Err::<(), Error>(
                Error::MissingFunction(FuncId::GetUserPtr),
            ) && final(env).calls@ == old(env).calls@,
            old(env).table.spec_has(FuncId::GetUserPtr) && handle.raw >= self@.len() ==> r
                == Err::<(), Error>(Error::Signal { symbol: WRONG_TYPE_SYMBOL, data: handle.raw })
                && final(env).calls@ == old(env).calls@.push(FuncId::GetUserPtr),
            old(env).table.spec_has(FuncId::GetUserPtr) && handle.raw < self@.len() && !old(
                env,
            ).table.spec_has(FuncId::GetUserFinalizer) ==> r == Err::<(), Error>(
                Error::MissingFunction(FuncId::GetUserFinalizer),
            ) && final(env).calls@ == old(env).calls@.push(FuncId::GetUserPtr),
            old(env).table.spec_has(FuncId::GetUserPtr) && handle.raw < self@.len() && old(
                env,
            ).table.spec_has(FuncId::GetUserFinalizer) ==> final(env).calls@ == old(
                env,
            ).calls@.push(FuncId::GetUserPtr).push(FuncId::GetUserFinalizer) && (match lookup(
                self@,
                handle.raw,
                expected_tag,
            ) {
                Ok(_) => r is Ok,
                Err(e) => r == Err::<(), Error>(e),
            }),
    {
        match self.transfer_in(env, handle, expected_tag) {
            Ok(_) => Ok(()),
            Err(e) => Err(e),
        }
    }

    /// Borrow a box mutably after a successful [`UserPtrStore::check_type`]
    /// on the same handle: the reference's lifetime is tied to the borrow
    /// of the store, not to any ownership claim — the collector stays the
    /// owner, and any other handle naming the same box will observe the
    /// mutation.
    pub fn get_mut<'a>(&'a mut self, handle: Value, expected_tag: usize) -> (r: &'a mut T)
        requires
            lookup(old(self)@, handle.raw, expected_tag) is Ok,
        ensures
            *r == old(self)@[handle.raw as int].data,
            final(self)@ == old(self)@.update(
                handle.raw as int,
                (UserPtr { tag: expected_tag, data: *final(r) }),
            ),
    {
        &mut self.entries[handle.raw].data
    }
}

/// Transferring a box out and immediately back in under the same type
/// yields exactly the value that was boxed: with the store grown by the
/// new entry and the handle naming it, the read-back succeeds and returns
/// the transferred data.
pub proof fn lemma_transfer_round_trip<T>(entries: Seq<UserPtr<T>>, tag: usize, data: T)
    requires
        entries.len() < usize::MAX,
    ensures
        lookup(entries.push(UserPtr { tag, data }), entries.len() as usize, tag) == Ok::<T, Error>(
            data,
        ),
{
    let grown = entries.push(UserPtr { tag, data });
    assert(grown[entries.len() as int] == UserPtr { tag, data });
}

} // verus!
