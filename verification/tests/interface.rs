use injectorpp::interface::call_count::{CallCountMismatch, CallCountVerifier};
use injectorpp::interface::func_ptr::FuncPtr;
use injectorpp::interface::injector::{
    check_will_execute, check_will_return_boolean, ends_in_bool, recover_lock, returns_boolean,
    SignatureError,
};
use std::sync::atomic::{AtomicUsize, Ordering};
use std::sync::{Mutex, PoisonError};

#[test]
fn func_ptr_keeps_address_and_signature() {
    let func = FuncPtr::new(0x1234, "fn() -> bool");
    assert_eq!(func.signature_text(), "fn() -> bool");
    assert_eq!(func.into_internal().as_ptr(), 0x1234);
    assert!(FuncPtr::try_new(0, "fn()").is_none());
    assert_eq!(
        FuncPtr::try_new(8, "fn()").unwrap().into_internal().as_ptr(),
        8
    );
}

#[test]
fn replacement_needs_the_same_signature() {
    let fake = FuncPtr::new(0x1000, "fn(&std::path::Path) -> bool");
    assert_eq!(check_will_execute("fn(&std::path::Path) -> bool", &fake), Ok(()));
    assert_eq!(
        check_will_execute("fn(&std::path::Path) -> u32", &fake),
        Err(SignatureError::Mismatch)
    );
    assert_eq!(
        check_will_execute("fn(&std::path::Path) -> bool ", &fake),
        Err(SignatureError::Mismatch)
    );
    assert_eq!(check_will_execute("", &fake), Err(SignatureError::Mismatch));
    let unchecked = FuncPtr::new(0x1000, "");
    assert_eq!(check_will_execute("", &unchecked), Ok(()));
}

#[test]
fn fixed_boolean_needs_a_function_returning_bool() {
    assert_eq!(check_will_return_boolean("fn() -> bool"), Ok(()));
    assert_eq!(check_will_return_boolean("  fn(i32, &str) -> bool \n"), Ok(()));
    assert_eq!(check_will_return_boolean("-> bool"), Ok(()));
    assert_eq!(
        check_will_return_boolean("fn() -> u32"),
        Err(SignatureError::NotBoolean)
    );
    assert_eq!(
        check_will_return_boolean("fn() -> bool;"),
        Err(SignatureError::NotBoolean)
    );
    assert_eq!(check_will_return_boolean(""), Err(SignatureError::NotBoolean));
    assert_eq!(check_will_return_boolean("bool"), Err(SignatureError::NotBoolean));
    assert!(returns_boolean("fn() -> bool\t"));
    assert!(!returns_boolean("fn() ->bool"));
    assert!(ends_in_bool("fn() -> bool"));
    assert!(!ends_in_bool("fn() -> bool "));
}

static COUNTER: AtomicUsize = AtomicUsize::new(0);

#[test]
fn call_counts_are_judged() {
    let verifier = CallCountVerifier::WithCount { counter: &COUNTER, expected: 2 };
    assert_eq!(verifier.check(2), Ok(()));
    assert_eq!(
        verifier.check(0),
        Err(CallCountMismatch { expected: 2, actual: 0 })
    );
    assert_eq!(
        verifier.check(3),
        Err(CallCountMismatch { expected: 2, actual: 3 })
    );
    assert_eq!(CallCountVerifier::Dummy.check(7), Ok(()));
    assert_eq!(CallCountVerifier::Dummy.verify(), Ok(()));

    COUNTER.store(1, Ordering::SeqCst);
    assert_eq!(
        verifier.verify(),
        Err(CallCountMismatch { expected: 2, actual: 1 })
    );
    COUNTER.fetch_add(1, Ordering::SeqCst);
    assert_eq!(verifier.verify(), Ok(()));
}

#[test]
fn a_poisoned_lock_still_yields_its_guard() {
    assert_eq!(recover_lock(Ok(7)), 7);
    assert_eq!(recover_lock(Err(PoisonError::new(5))), 5);

    let lock = Mutex::new(());
    let guard = recover_lock(lock.lock());
    drop(guard);
    assert!(lock.try_lock().is_ok());
}
