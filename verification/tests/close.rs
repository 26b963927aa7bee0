use metrique::close::{CloseValue, CloseValueRef};
use metrique::value::{HighStorageResolution, WithDimensions};
use std::borrow::Cow;
use std::sync::{Arc, Mutex, OnceLock};
use std::time::{Duration, SystemTime};

#[derive(Clone, Debug)]
struct Closeable;

impl CloseValue for Closeable {
    type Closed = usize;

    fn close(self) -> Self::Closed {
        42
    }
}

impl CloseValue for &'_ Closeable {
    type Closed = usize;

    fn close(self) -> Self::Closed {
        42
    }
}

#[test]
fn close_option() {
    let x = Some(Closeable);
    assert_eq!(x.close(), Some(42));
}

#[test]
fn close_arc() {
    let x = Arc::new(Closeable);
    assert_eq!(x.close(), 42);
}

#[test]
fn close_arc_mutex() {
    let x = Arc::new(Mutex::new(Closeable));
    assert_eq!(x.close(), Some(42));
}

#[test]
fn close_with_dimensions() {
    let v: WithDimensions<Closeable, 1> = WithDimensions::new(Closeable, "foo", "bar");
    let closed = v.close();
    assert_eq!(*closed, 42);
}

#[test]
fn close_once_lock_initialized() {
    let lock = OnceLock::new();
    lock.set(Closeable).unwrap();
    assert_eq!((&lock).close(), Some(42));
}

#[test]
fn close_once_lock_uninitialized() {
    let lock = OnceLock::<Closeable>::new();
    assert_eq!((&lock).close(), None);
}

#[test]
fn plain_values_close_to_themselves() {
    assert_eq!(true.close(), true);
    assert_eq!(7u8.close(), 7u8);
    assert_eq!((&7u64).close(), 7u64);
    assert_eq!("abc".close(), "abc");
    assert_eq!(String::from("abc").close(), "abc");
    assert_eq!(Duration::from_millis(3).close(), Duration::from_millis(3));
    assert_eq!(SystemTime::UNIX_EPOCH.close(), SystemTime::UNIX_EPOCH);
    assert_eq!(Cow::Borrowed("x").close(), "x");
}

#[test]
fn close_none_is_none() {
    assert_eq!(None::<Closeable>.close(), None);
    assert_eq!((&Some(Closeable)).close(), Some(42));
}

#[test]
fn close_by_reference() {
    assert_eq!(Closeable.close_ref(), 42);
    assert_eq!(5u32.close_ref(), 5);
}

#[test]
fn close_mutex_by_reference_and_by_value() {
    let x = Mutex::new(Closeable);
    assert_eq!((&x).close(), Some(42));
    assert_eq!(x.close(), Some(42));
}

#[test]
fn close_mutex_guard() {
    let x = Mutex::new(Closeable);
    let guard = x.lock().unwrap();
    assert_eq!((&guard).close(), 42);
    assert_eq!(guard.close(), 42);
}

#[test]
fn close_once_lock_by_value() {
    let lock = OnceLock::new();
    lock.set(Closeable).unwrap();
    assert_eq!(lock.close(), Some(42));
    assert_eq!(OnceLock::<Closeable>::new().close(), None);
}

#[test]
fn close_force_flag_keeps_the_flag() {
    let v: HighStorageResolution<Closeable> = HighStorageResolution::new(Closeable);
    assert_eq!(*v.close().value(), 42);
}
