use emacs_bridge::env::WRONG_TYPE_SYMBOL;
use emacs_bridge::transfer::UserPtrStore;
use emacs_bridge::Env;
use emacs_bridge::Error;
use emacs_bridge::FuncId;
use emacs_bridge::PendingExit;
use emacs_bridge::Table;
use emacs_bridge::Transfer;
use emacs_bridge::Value;

const COUNTER_TAG: usize = 700;
const TEXT_TAG: usize = 701;

struct Counter {
    count: u64,
}

impl Transfer for Counter {
    fn tag() -> usize {
        COUNTER_TAG
    }

    fn type_label() -> &'static str {
        "Counter"
    }
}

#[test]
fn transfer_round_trip_of_a_tagged_type() {
    let mut env = Env::new(1, Table::full());
    let mut store: UserPtrStore<Counter> = UserPtrStore::new();
    let h = store.transfer_out(&mut env, Counter::tag(), Counter { count: 5 }).unwrap();
    let got = store.transfer_in(&mut env, h, Counter::tag()).unwrap();
    assert_eq!(got.count, 5);
    assert_eq!(Counter::type_label(), "Counter");
}

#[test]
fn transfer_round_trip_returns_the_boxed_value() {
    let mut env = Env::new(1, Table::full());
    let mut store: UserPtrStore<u64> = UserPtrStore::new();
    let h = store.transfer_out(&mut env, COUNTER_TAG, 41).unwrap();
    let got = store.transfer_in(&mut env, h, COUNTER_TAG).unwrap();
    assert_eq!(*got, 41);
    assert_eq!(env.pending, PendingExit::NoExit);
}

#[test]
fn transfer_round_trip_of_compound_data() {
    let mut env = Env::new(1, Table::full());
    let mut store: UserPtrStore<String> = UserPtrStore::new();
    let h = store.transfer_out(&mut env, TEXT_TAG, String::from("boxed")).unwrap();
    let got = store.transfer_in(&mut env, h, TEXT_TAG).unwrap();
    assert_eq!(got.as_str(), "boxed");
}

#[test]
fn transfer_in_with_mismatched_type_fails_closed() {
    let mut env = Env::new(1, Table::full());
    let mut store: UserPtrStore<u64> = UserPtrStore::new();
    let h = store.transfer_out(&mut env, COUNTER_TAG, 41).unwrap();
    let r = store.transfer_in(&mut env, h, TEXT_TAG);
    assert!(matches!(
        r,
        Err(Error::TypeMismatch { expected: TEXT_TAG, actual: COUNTER_TAG })
    ));
    assert_eq!(env.pending, PendingExit::NoExit);
}

#[test]
fn transfer_in_of_a_foreign_value_drains_the_host_signal() {
    let mut env = Env::new(1, Table::full());
    let store: UserPtrStore<u64> = UserPtrStore::new();
    let stray = Value::new(12, 1);
    let r = store.transfer_in(&mut env, stray, COUNTER_TAG);
    assert!(matches!(
        r,
        Err(Error::Signal { symbol: WRONG_TYPE_SYMBOL, data: 12 })
    ));
    assert_eq!(env.pending, PendingExit::NoExit);
}

#[test]
fn transfer_out_without_make_user_ptr_reports_it() {
    let mut table = Table::full();
    table.make_user_ptr = false;
    let mut env = Env::new(1, table);
    let mut store: UserPtrStore<u64> = UserPtrStore::new();
    let r = store.transfer_out(&mut env, COUNTER_TAG, 41);
    assert_eq!(r, Err(Error::MissingFunction(FuncId::MakeUserPtr)));
}

#[test]
fn transfer_in_without_get_user_ptr_reports_it() {
    let mut table = Table::full();
    table.get_user_ptr = false;
    let mut env = Env::new(1, table);
    let store: UserPtrStore<u64> = UserPtrStore::new();
    let r = store.transfer_in(&mut env, Value::new(0, 1), COUNTER_TAG);
    assert!(matches!(r, Err(Error::MissingFunction(FuncId::GetUserPtr))));
}

#[test]
fn transfer_in_without_get_user_finalizer_reports_it() {
    let mut table = Table::full();
    table.get_user_finalizer = false;
    let mut env = Env::new(1, table);
    let mut store: UserPtrStore<u64> = UserPtrStore::new();
    let h = store.transfer_out(&mut env, COUNTER_TAG, 41).unwrap();
    let r = store.transfer_in(&mut env, h, COUNTER_TAG);
    assert!(matches!(r, Err(Error::MissingFunction(FuncId::GetUserFinalizer))));
}

#[test]
fn aliased_handles_observe_the_same_collector_owned_box() {
    let mut env = Env::new(1, Table::full());
    let mut store: UserPtrStore<u64> = UserPtrStore::new();
    let h1 = store.transfer_out(&mut env, COUNTER_TAG, 7).unwrap();
    store.check_type(&mut env, h1, COUNTER_TAG).unwrap();
    let counter = store.get_mut(h1, COUNTER_TAG);
    *counter += 1;
    let h2 = Value::new(h1.raw, 1);
    let got = store.transfer_in(&mut env, h2, COUNTER_TAG).unwrap();
    assert_eq!(*got, 8);
}

#[test]
fn check_type_fails_on_mismatch_and_passes_on_match() {
    let mut env = Env::new(1, Table::full());
    let mut store: UserPtrStore<u64> = UserPtrStore::new();
    let h = store.transfer_out(&mut env, COUNTER_TAG, 7).unwrap();
    assert!(store.check_type(&mut env, h, COUNTER_TAG).is_ok());
    let r = store.check_type(&mut env, h, TEXT_TAG);
    assert!(matches!(
        r,
        Err(Error::TypeMismatch { expected: TEXT_TAG, actual: COUNTER_TAG })
    ));
}

#[test]
fn handles_index_the_store_in_transfer_order() {
    let mut env = Env::new(1, Table::full());
    let mut store: UserPtrStore<u64> = UserPtrStore::new();
    let h1 = store.transfer_out(&mut env, COUNTER_TAG, 10).unwrap();
    let h2 = store.transfer_out(&mut env, COUNTER_TAG, 20).unwrap();
    assert_eq!(h1.raw, 0);
    assert_eq!(h2.raw, 1);
    assert_eq!(*store.transfer_in(&mut env, h1, COUNTER_TAG).unwrap(), 10);
    assert_eq!(*store.transfer_in(&mut env, h2, COUNTER_TAG).unwrap(), 20);
}
