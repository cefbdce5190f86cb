use crossfire_oneshot::handle::{RxOneshot, TxOneshot};
use std::cell::Cell;
use std::marker::PhantomData;
use std::rc::Rc;

// Detect auto traits of concrete types: the inherent const only exists when the bound holds,
// otherwise the trait's default const is used.
struct Check<T: ?Sized>(PhantomData<T>);

trait NotSend {
    const SEND: bool = false;
}
impl<T: ?Sized> NotSend for Check<T> {}
impl<T: ?Sized + Send> Check<T> {
    const SEND: bool = true;
}

trait NotSync {
    const SYNC: bool = false;
}
impl<T: ?Sized> NotSync for Check<T> {}
impl<T: ?Sized + Sync> Check<T> {
    const SYNC: bool = true;
}

#[test]
fn test_oneshot_requires_send_item() {
    assert!(!<Check<TxOneshot<Rc<u8>>>>::SEND);
    assert!(!<Check<TxOneshot<Rc<u8>>>>::SYNC);
    assert!(!<Check<RxOneshot<Rc<u8>>>>::SEND);
    assert!(<Check<TxOneshot<u8>>>::SEND);
    assert!(<Check<TxOneshot<u8>>>::SYNC);
    assert!(<Check<RxOneshot<u8>>>::SEND);
}

#[test]
fn items_need_not_be_shareable() {
    assert!(<Check<TxOneshot<Cell<u8>>>>::SEND);
    assert!(<Check<TxOneshot<Cell<u8>>>>::SYNC);
    assert!(<Check<RxOneshot<Cell<u8>>>>::SEND);
}
