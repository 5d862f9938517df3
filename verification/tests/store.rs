use ffi_utils::memory::Store;
use ffi_utils::memory::destroy;
use ffi_utils::memory::destroy_c_char;
use ffi_utils::memory::destroy_raw_uuid;

#[test]
fn transfer_returns_fresh_non_null_handles() {
    let mut store: Store<u32> = Store::new();
    let a = store.transfer(1);
    let b = store.transfer(2);
    assert_ne!(a, 0);
    assert_ne!(b, 0);
    assert_ne!(a, b);
    assert!(store.live(a));
    assert!(store.live(b));
    assert_eq!(store.live_count(), 2);
}

#[test]
fn transfer_release_round_trip_leaves_other_handles_alone() {
    let mut store: Store<u64> = Store::new();
    let kept = store.transfer(11);
    let gone = store.transfer(22);
    let value = store.release(gone);
    assert_eq!(value, 22);
    assert!(!store.live(gone));
    assert!(store.live(kept));
    assert_eq!(*store.get(kept), 11);
    assert_eq!(store.live_count(), 1);
}

#[test]
fn released_handles_are_never_reused() {
    let mut store: Store<u8> = Store::new();
    let first = store.transfer(5);
    let _ = store.release(first);
    let second = store.transfer(6);
    assert_ne!(first, second);
    assert!(!store.live(first));
    assert!(store.live(second));
}

#[test]
fn get_reads_the_transferred_value() {
    let mut store: Store<String> = Store::new();
    let handle = store.transfer(String::from("payload"));
    assert_eq!(store.get(handle).as_str(), "payload");
}

#[test]
fn null_handle_is_never_live() {
    let mut store: Store<u32> = Store::new();
    assert!(!store.live(0));
    let _ = store.transfer(9);
    assert!(!store.live(0));
}

#[test]
fn destroy_releases_the_block() {
    let mut store: Store<u32> = Store::new();
    let obj = store.transfer(10);
    destroy(&mut store, obj);
    assert!(!store.live(obj));
    assert_eq!(store.live_count(), 0);
}

#[test]
fn destroy_raw_uuid_releases_the_block() {
    let mut store: Store<[u8; 16]> = Store::new();
    let obj = store.transfer([7u8; 16]);
    let other = store.transfer([9u8; 16]);
    destroy_raw_uuid(&mut store, obj);
    assert!(!store.live(obj));
    assert!(store.live(other));
    assert_eq!(store.get(other)[0], 9);
    assert_eq!(store.live_count(), 1);
}

#[test]
fn destroy_c_char_releases_the_text() {
    let mut store: Store<String> = Store::new();
    let s = store.transfer(String::from("message"));
    destroy_c_char(&mut store, s);
    assert!(!store.live(s));
    assert_eq!(store.live_count(), 0);
}
