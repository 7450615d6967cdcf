use poe::dispatch::{DispatchError, Origin};
use poe::something::{decide_cause_error, decide_do_something, SomethingError, SomethingEvent, SomethingStore};

#[test]
fn something_store_then_read() {
    let mut s = SomethingStore::new();
    assert_eq!(s.something(), None);
    assert_eq!(s.do_something(Origin::Signed(4), 42), Ok(()));
    assert_eq!(s.something(), Some(42));
    assert_eq!(s.events().clone(), vec![SomethingEvent::SomethingStored(42, 4)]);
}

#[test]
fn something_increment() {
    let mut s = SomethingStore::new();
    assert_eq!(s.cause_error(Origin::Signed(1)), Err(DispatchError::Module(SomethingError::NoneValue)));
    assert_eq!(s.do_something(Origin::Signed(1), 7), Ok(()));
    assert_eq!(s.cause_error(Origin::Signed(2)), Ok(()));
    assert_eq!(s.something(), Some(8));
    assert_eq!(s.do_something(Origin::Signed(1), u32::MAX), Ok(()));
    assert_eq!(s.cause_error(Origin::Signed(2)), Err(DispatchError::Module(SomethingError::StorageOverflow)));
    assert_eq!(s.something(), Some(u32::MAX));
    assert_eq!(s.events().len(), 2);
}

#[test]
fn something_unsigned_refused() {
    let mut s = SomethingStore::new();
    assert_eq!(s.do_something(Origin::Root, 1), Err(DispatchError::BadOrigin));
    assert_eq!(s.do_something(Origin::Unsigned, 1), Err(DispatchError::BadOrigin));
    assert_eq!(s.something(), None);
    assert_eq!(s.cause_error(Origin::Root), Err(DispatchError::BadOrigin));
    assert!(s.events().is_empty());
}

#[test]
fn something_decisions() {
    assert_eq!(decide_do_something(Origin::Signed(9), 3), Ok(SomethingEvent::SomethingStored(3, 9)));
    assert_eq!(decide_cause_error(Origin::Signed(9), Some(3)), Ok(4));
    assert_eq!(decide_cause_error(Origin::Signed(9), None), Err(DispatchError::Module(SomethingError::NoneValue)));
}
