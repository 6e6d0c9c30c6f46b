use emacs_bridge::env::init_status;
use emacs_bridge::env::ERROR_SYMBOL;
use emacs_bridge::env::NIL;
use emacs_bridge::env::WRONG_TYPE_SYMBOL;
use emacs_bridge::Env;
use emacs_bridge::Error;
use emacs_bridge::FuncId;
use emacs_bridge::HostOutcome;
use emacs_bridge::PendingExit;
use emacs_bridge::Table;
use emacs_bridge::Value;

fn ok_outcome(ret: usize) -> HostOutcome {
    HostOutcome { ret, exit: PendingExit::NoExit }
}

fn signal_outcome(symbol: usize, data: usize) -> HostOutcome {
    HostOutcome { ret: 0, exit: PendingExit::Signal { symbol, data } }
}

fn throw_outcome(tag: usize, value: usize) -> HostOutcome {
    HostOutcome { ret: 0, exit: PendingExit::Throw { tag, value } }
}

#[test]
fn intern_missing_names_intern() {
    let mut table = Table::full();
    table.intern = false;
    let mut env = Env::new(1, table);
    let r = env.intern("foo", ok_outcome(9));
    assert_eq!(r, Err(Error::MissingFunction(FuncId::Intern)));
    assert_eq!(FuncId::Intern.name(), "intern");
    assert_eq!(env.pending, PendingExit::NoExit);
}

#[test]
fn intern_success_wraps_host_return() {
    let mut env = Env::new(3, Table::full());
    let r = env.intern("foo", ok_outcome(9));
    assert_eq!(r, Ok(Value::new(9, 3)));
    assert_eq!(env.pending, PendingExit::NoExit);
}

#[test]
fn intern_rejects_interior_nul() {
    let mut env = Env::new(1, Table::full());
    let r = env.intern("fo\0o", ok_outcome(9));
    assert_eq!(r, Err(Error::StringConversion));
    assert_eq!(env.pending, PendingExit::NoExit);
}

#[test]
fn primitive_error_is_drained_immediately() {
    let mut env = Env::new(1, Table::full());
    let v = Value::new(4, 1);
    let r = env.type_of(v, signal_outcome(21, 22));
    assert_eq!(r, Err(Error::Signal { symbol: 21, data: 22 }));
    assert_eq!(env.pending, PendingExit::NoExit);
}

#[test]
fn primitive_throw_is_drained_immediately() {
    let mut env = Env::new(1, Table::full());
    let a = Value::new(4, 1);
    let b = Value::new(5, 1);
    let r = env.eq(a, b, throw_outcome(31, 32));
    assert_eq!(r, Err(Error::Throw { tag: 31, value: 32 }));
    assert_eq!(env.pending, PendingExit::NoExit);
}

#[test]
fn eq_and_is_not_nil_read_host_booleans() {
    let mut env = Env::new(1, Table::full());
    let a = Value::new(4, 1);
    let b = Value::new(5, 1);
    assert_eq!(env.eq(a, b, ok_outcome(0)), Ok(false));
    assert_eq!(env.eq(a, b, ok_outcome(7)), Ok(true));
    assert_eq!(env.is_not_nil(a, ok_outcome(0)), Ok(false));
    assert_eq!(env.is_not_nil(a, ok_outcome(1)), Ok(true));
}

#[test]
fn call_message_success_leaves_no_exit() {
    let mut env = Env::new(1, Table::full());
    let text = Value::new(10, 1);
    let args = [text];
    let r = env.call("message", &args, ok_outcome(7), ok_outcome(8));
    assert_eq!(r, Ok(Value::new(8, 1)));
    assert_eq!(env.pending, PendingExit::NoExit);
}

#[test]
fn call_without_funcall_reports_it() {
    let mut table = Table::full();
    table.funcall = false;
    let mut env = Env::new(1, table);
    let args: [Value; 0] = [];
    let r = env.call("message", &args, ok_outcome(7), ok_outcome(8));
    assert_eq!(r, Err(Error::MissingFunction(FuncId::Funcall)));
    assert_eq!(env.pending, PendingExit::NoExit);
}

#[test]
fn call_stops_after_failed_intern() {
    let mut env = Env::new(1, Table::full());
    let args: [Value; 0] = [];
    let r = env.call("message", &args, signal_outcome(21, 22), ok_outcome(8));
    assert_eq!(r, Err(Error::Signal { symbol: 21, data: 22 }));
    assert_eq!(env.pending, PendingExit::NoExit);
}

#[test]
fn list_goes_through_the_call_primitive() {
    let mut env = Env::new(1, Table::full());
    let args = [Value::new(2, 1), Value::new(3, 1)];
    let r = env.list(&args, ok_outcome(5), ok_outcome(6));
    assert_eq!(r, Ok(Value::new(6, 1)));
}

#[test]
fn provide_interns_name_then_calls_provide() {
    let mut env = Env::new(1, Table::full());
    let r = env.provide("mymod", ok_outcome(2), ok_outcome(3), ok_outcome(4));
    assert_eq!(r, Ok(Value::new(4, 1)));
    assert_eq!(env.pending, PendingExit::NoExit);
}

#[test]
fn message_without_make_string_reports_it() {
    let mut table = Table::full();
    table.make_string = false;
    let mut env = Env::new(1, table);
    let r = env.message("hi", ok_outcome(2), ok_outcome(3), ok_outcome(4));
    assert_eq!(r, Err(Error::MissingFunction(FuncId::MakeString)));
}

#[test]
fn message_rejects_interior_nul_before_any_call() {
    let mut env = Env::new(1, Table::full());
    let r = env.message("h\0i", ok_outcome(2), ok_outcome(3), ok_outcome(4));
    assert_eq!(r, Err(Error::StringConversion));
}

#[test]
fn message_success_wraps_host_return() {
    let mut env = Env::new(1, Table::full());
    let r = env.message("hi", ok_outcome(2), ok_outcome(3), ok_outcome(4));
    assert_eq!(r, Ok(Value::new(4, 1)));
}

#[test]
fn callback_failure_sets_pending_and_returns_nil() {
    let mut env = Env::new(1, Table::full());
    let r = env.conclude_callback(Err(Error::Signal { symbol: 40, data: 41 }));
    assert_eq!(r, Value::new(NIL, 1));
    assert_eq!(env.pending, PendingExit::Signal { symbol: 40, data: 41 });
}

#[test]
fn callback_throw_sets_pending_throw() {
    let mut env = Env::new(1, Table::full());
    let r = env.conclude_callback(Err(Error::Throw { tag: 50, value: 51 }));
    assert_eq!(r, Value::new(NIL, 1));
    assert_eq!(env.pending, PendingExit::Throw { tag: 50, value: 51 });
}

#[test]
fn callback_internal_failure_falls_back_to_generic_signal() {
    let mut env = Env::new(1, Table::full());
    let r = env.conclude_callback(Err(Error::TypeMismatch { expected: 1, actual: 2 }));
    assert_eq!(r, Value::new(NIL, 1));
    assert_eq!(env.pending, PendingExit::Signal { symbol: ERROR_SYMBOL, data: NIL });
}

#[test]
fn callback_success_returns_the_value() {
    let mut env = Env::new(1, Table::full());
    let v = Value::new(60, 1);
    let r = env.conclude_callback(Ok(v));
    assert_eq!(r, v);
    assert_eq!(env.pending, PendingExit::NoExit);
}

#[test]
fn init_status_is_zero_on_success_one_on_failure() {
    assert_eq!(init_status(&Ok(Value::new(1, 1))), 0);
    assert_eq!(init_status(&Err(Error::StringConversion)), 1);
}

#[test]
fn text_scan_finds_interior_nul() {
    assert!(emacs_bridge::convert::text_is_clean("plain text"));
    assert!(emacs_bridge::convert::text_is_clean(""));
    assert!(!emacs_bridge::convert::text_is_clean("a\0b"));
    assert!(!emacs_bridge::convert::text_is_clean("\0"));
}

#[test]
fn criticals_checked_before_entering_a_session() {
    let mut table = Table::full();
    assert!(table.has_criticals());
    table.exit_clear = false;
    assert!(!table.has_criticals());
    assert!(table.has(FuncId::Intern));
    assert!(!table.has(FuncId::ExitClear));
    assert!(FuncId::ExitClear.is_critical());
    assert!(!FuncId::Intern.is_critical());
}
