//! The host's function table: a fixed set of optional capabilities.
//!
//! Any entry may be absent depending on the host version. Every call site
//! must check presence and fail with a missing-function error rather than
//! dereference an absent entry — except the critical subset that implements
//! the error-reporting path itself, whose absence is unrecoverable.

use vstd::prelude::*;

verus! {

/// Identity of one entry of the host's function table.
#[derive(Clone, Copy, Debug, PartialEq, Eq, Structural)]
pub enum FuncId {
    /// Look a symbol up by name.
    Intern,
    /// Apply a function value to an argument vector.
    Funcall,
    /// Query the type of a value.
    TypeOf,
    /// Identity comparison of two values.
    Eq,
    /// Test a value against the host's false sentinel.
    IsNotNil,
    /// Build a host string from bytes.
    MakeString,
    /// Hand an opaque pointer plus finalizer to the collector.
    MakeUserPtr,
    /// Read the opaque pointer stored in a collector-owned box.
    GetUserPtr,
    /// Read the finalizer stored in a collector-owned box.
    GetUserFinalizer,
    /// Query whether an exit is pending (critical).
    ExitCheck,
    /// Fetch the pending exit's payload (critical).
    ExitGet,
    /// Clear the pending-exit slot (critical).
    ExitClear,
    /// Set the slot to a signal (critical).
    ExitSignal,
    /// Set the slot to a throw (critical).
    ExitThrow,
}

impl FuncId {
    /// The entry's name inside the host's environment structure, used to
    /// report which capability was found absent.
    pub fn name(self) -> (r: &'static str)
        ensures
            self is Intern ==> r@ == "intern"@,
            self is Funcall ==> r@ == "funcall"@,
            self is TypeOf ==> r@ == "type_of"@,
            self is Eq ==> r@ == "eq"@,
            self is IsNotNil ==> r@ == "is_not_nil"@,
            self is MakeString ==> r@ == "make_string"@,
            self is MakeUserPtr ==> r@ == "make_user_ptr"@,
            self is GetUserPtr ==> r@ == "get_user_ptr"@,
            self is GetUserFinalizer ==> r@ == "get_user_finalizer"@,
            self is ExitCheck ==> r@ == "non_local_exit_check"@,
            self is ExitGet ==> r@ == "non_local_exit_get"@,
            self is ExitClear ==> r@ == "non_local_exit_clear"@,
            self is ExitSignal ==> r@ == "non_local_exit_signal"@,
            self is ExitThrow ==> r@ == "non_local_exit_throw"@,
    {
        match self {
            FuncId::Intern => "intern",
            FuncId::Funcall => "funcall",
            FuncId::TypeOf => "type_of",
            FuncId::Eq => "eq",
            FuncId::IsNotNil => "is_not_nil",
            FuncId::MakeString => "make_string",
            FuncId::MakeUserPtr => "make_user_ptr",
            FuncId::GetUserPtr => "get_user_ptr",
            FuncId::GetUserFinalizer => "get_user_finalizer",
            FuncId::ExitCheck => "non_local_exit_check",
            FuncId::ExitGet => "non_local_exit_get",
            FuncId::ExitClear => "non_local_exit_clear",
            FuncId::ExitSignal => "non_local_exit_signal",
            FuncId::ExitThrow => "non_local_exit_throw",
        }
    }

    /// Whether the entry belongs to the critical subset: the functions that
    /// query, clear and set the pending-exit slot. Without them no error can
    /// be reported at all, so their absence is a fatal condition, never an
    /// ordinary missing-function error.
    pub open spec fn spec_is_critical(self) -> bool {
        match self {
            FuncId::ExitCheck => true,
            FuncId::ExitGet => true,
            FuncId::ExitClear => true,
            FuncId::ExitSignal => true,
            FuncId::ExitThrow => true,
            _ => false,
        }
    }

    /// Executable form of [`FuncId::spec_is_critical`].
    pub fn is_critical(self) -> (r: bool)
        ensures
            r == self.spec_is_critical(),
    {
        match self {
            FuncId::ExitCheck => true,
            FuncId::ExitGet => true,
            FuncId::ExitClear => true,
            FuncId::ExitSignal => true,
            FuncId::ExitThrow => true,
            _ => false,
        }
    }
}

/// Presence flags for every entry of the host's function table.
///
/// A real host hands the extension a structure of nullable function
/// pointers; this type records, per entry, whether the pointer is non-null.
#[derive(Clone, Copy, Debug, PartialEq, Eq, Structural)]
pub struct Table {
    /// `intern` is present.
    pub intern: bool,
    /// `funcall` is present.
    pub funcall: bool,
    /// `type_of` is present.
    pub type_of: bool,
    /// `eq` is present.
    pub eq: bool,
    /// `is_not_nil` is present.
    pub is_not_nil: bool,
    /// `make_string` is present.
    pub make_string: bool,
    /// `make_user_ptr` is present.
    pub make_user_ptr: bool,
    /// `get_user_ptr` is present.
    pub get_user_ptr: bool,
    /// `get_user_finalizer` is present.
    pub get_user_finalizer: bool,
    /// `non_local_exit_check` is present.
    pub exit_check: bool,
    /// `non_local_exit_get` is present.
    pub exit_get: bool,
    /// `non_local_exit_clear` is present.
    pub exit_clear: bool,
    /// `non_local_exit_signal` is present.
    pub exit_signal: bool,
    /// `non_local_exit_throw` is present.
    pub exit_throw: bool,
}

impl Table {
    /// Which entries the table offers.
    pub open spec fn spec_has(self, f: FuncId) -> bool {
        match f {
            FuncId::Intern => self.intern,
            FuncId::Funcall => self.funcall,
            FuncId::TypeOf => self.type_of,
            FuncId::Eq => self.eq,
            FuncId::IsNotNil => self.is_not_nil,
            FuncId::MakeString => self.make_string,
            FuncId::MakeUserPtr => self.make_user_ptr,
            FuncId::GetUserPtr => self.get_user_ptr,
            FuncId::GetUserFinalizer => self.get_user_finalizer,
            FuncId::ExitCheck => self.exit_check,
            FuncId::ExitGet => self.exit_get,
            FuncId::ExitClear => self.exit_clear,
            FuncId::ExitSignal => self.exit_signal,
            FuncId::ExitThrow => self.exit_throw,
        }
    }

    /// Executable presence check for one entry.
    pub fn has(&self, f: FuncId) -> (r: bool)
        ensures
            r == self.spec_has(f),
    {
        match f {
            FuncId::Intern => self.intern,
            FuncId::Funcall => self.funcall,
            FuncId::TypeOf => self.type_of,
            FuncId::Eq => self.eq,
            FuncId::IsNotNil => self.is_not_nil,
            FuncId::MakeString => self.make_string,
            FuncId::MakeUserPtr => self.make_user_ptr,
            FuncId::GetUserPtr => self.get_user_ptr,
            FuncId::GetUserFinalizer => self.get_user_finalizer,
            FuncId::ExitCheck => self.exit_check,
            FuncId::ExitGet => self.exit_get,
            FuncId::ExitClear => self.exit_clear,
            FuncId::ExitSignal => self.exit_signal,
            FuncId::ExitThrow => self.exit_throw,
        }
    }

    /// The critical subset is fully present: every function that reads or
    /// writes the pending-exit slot can be called.
    pub open spec fn criticals_present(self) -> bool {
        forall|f: FuncId| f.spec_is_critical() ==> self.spec_has(f)
    }

    /// Executable check that the critical subset is fully present. A host
    /// table failing this check cannot report errors; the caller must treat
    /// that as fatal rather than continue.
    pub fn has_criticals(&self) -> (r: bool)
        ensures
            r == self.criticals_present(),
    {
        let r = self.exit_check && self.exit_get && self.exit_clear && self.exit_signal
            && self.exit_throw;
        proof {
            if r {
                assert forall|f: FuncId| f.spec_is_critical() implies self.spec_has(f) by {
                }
            } else {
                if !self.exit_check {
                    assert(FuncId::ExitCheck.spec_is_critical() && !self.spec_has(FuncId::ExitCheck));
                } else if !self.exit_get {
                    assert(FuncId::ExitGet.spec_is_critical() && !self.spec_has(FuncId::ExitGet));
                } else if !self.exit_clear {
                    assert(FuncId::ExitClear.spec_is_critical() && !self.spec_has(FuncId::ExitClear));
                } else if !self.exit_signal {
                    assert(FuncId::ExitSignal.spec_is_critical() && !self.spec_has(FuncId::ExitSignal));
                } else {
                    assert(FuncId::ExitThrow.spec_is_critical() && !self.spec_has(FuncId::ExitThrow));
                }
            }
        }
        r
    }

    /// A table offering every entry, as a current host does.
    pub fn full() -> (r: Table)
        ensures
            forall|f: FuncId| r.spec_has(f),
            r.criticals_present(),
    {
        let r = Table {
            intern: true,
            funcall: true,
            type_of: true,
            eq: true,
            is_not_nil: true,
            make_string: true,
            make_user_ptr: true,
            get_user_ptr: true,
            get_user_finalizer: true,
            exit_check: true,
            exit_get: true,
            exit_clear: true,
            exit_signal: true,
            exit_throw: true,
        };
        proof {
            assert forall|f: FuncId| r.spec_has(f) by {
            }
        }
        r
    }
}

} // verus!
