use ffi_utils::result::Arena;
use ffi_utils::result::ErrorCode;
use ffi_utils::result::ExternResult;
use ffi_utils::result::extern_result_destroy;

#[test]
fn success_envelope_has_exactly_one_branch() {
    let mut arena: Arena<u32> = Arena::new();
    let handle = ExternResult::ok(&mut arena, 42);
    let envelope = *arena.results.get(handle);
    assert_ne!(envelope.ok, 0);
    assert_eq!(envelope.err, 0);
}

#[test]
fn failure_envelope_has_exactly_one_branch() {
    let mut arena: Arena<u32> = Arena::new();
    let handle = ExternResult::err(&mut arena, ErrorCode::Other, String::from("oops"));
    let envelope = *arena.results.get(handle);
    assert_eq!(envelope.ok, 0);
    assert_ne!(envelope.err, 0);
}

#[test]
fn empty_success_envelope_has_both_handles_null() {
    let mut arena: Arena<u32> = Arena::new();
    let handle = ExternResult::ok_null(&mut arena);
    let envelope = *arena.results.get(handle);
    assert_eq!(envelope.ok, 0);
    assert_eq!(envelope.err, 0);
}

#[test]
fn optional_none_matches_empty_success() {
    let mut with_optional: Arena<u32> = Arena::new();
    let mut with_empty: Arena<u32> = Arena::new();
    let h1 = ExternResult::ok_optional(&mut with_optional, None);
    let h2 = ExternResult::ok_null(&mut with_empty);
    assert_eq!(h1, h2);
    assert_eq!(*with_optional.results.get(h1), *with_empty.results.get(h2));
    assert_eq!(with_optional.values.live_count(), with_empty.values.live_count());
    assert_eq!(with_optional.results.live_count(), with_empty.results.live_count());
}

#[test]
fn optional_some_matches_plain_success() {
    let mut with_optional: Arena<u32> = Arena::new();
    let mut with_plain: Arena<u32> = Arena::new();
    let h1 = ExternResult::ok_optional(&mut with_optional, Some(7));
    let h2 = ExternResult::ok(&mut with_plain, 7);
    assert_eq!(h1, h2);
    let e1 = *with_optional.results.get(h1);
    let e2 = *with_plain.results.get(h2);
    assert_eq!(e1, e2);
    assert_eq!(
        *with_optional.values.get(e1.ok),
        *with_plain.values.get(e2.ok)
    );
}

#[test]
fn ok_ptr_wraps_an_already_transferred_handle() {
    let mut arena: Arena<u32> = Arena::new();
    let value_handle = arena.values.transfer(99);
    let handle = ExternResult::ok_ptr(&mut arena, value_handle);
    let envelope = *arena.results.get(handle);
    assert_eq!(envelope.ok, value_handle);
    assert_eq!(envelope.err, 0);
    assert_eq!(arena.values.live_count(), 1);
}

#[test]
fn from_ok_matches_plain_success() {
    let mut adapted: Arena<u32> = Arena::new();
    let mut plain: Arena<u32> = Arena::new();
    let h1 = ExternResult::from(&mut adapted, Ok(42));
    let h2 = ExternResult::ok(&mut plain, 42);
    assert_eq!(h1, h2);
    let e1 = *adapted.results.get(h1);
    let e2 = *plain.results.get(h2);
    assert_eq!(e1, e2);
    assert_eq!(*adapted.values.get(e1.ok), 42);
}

#[test]
fn from_err_matches_failure_with_code_other() {
    let mut adapted: Arena<u32> = Arena::new();
    let mut plain: Arena<u32> = Arena::new();
    let h1 = ExternResult::from(&mut adapted, Err(String::from("boom")));
    let h2 = ExternResult::err(&mut plain, ErrorCode::Other, String::from("boom"));
    assert_eq!(h1, h2);
    let e1 = *adapted.results.get(h1);
    let e2 = *plain.results.get(h2);
    assert_eq!(e1, e2);
    let d1 = *adapted.errors.get(e1.err);
    let d2 = *plain.errors.get(e2.err);
    assert_eq!(d1, d2);
    assert_eq!(d1.code, ErrorCode::Other);
    assert_eq!(adapted.texts.get(d1.message).as_str(), "boom");
}

#[test]
fn authentication_error_scenario() {
    let mut arena: Arena<u32> = Arena::new();
    let handle = ExternResult::err(
        &mut arena,
        ErrorCode::AuthenticationError,
        String::from("invalid token"),
    );
    let envelope = *arena.results.get(handle);
    assert_eq!(envelope.ok, 0);
    assert_ne!(envelope.err, 0);
    let descriptor = *arena.errors.get(envelope.err);
    assert_eq!(descriptor.code, ErrorCode::AuthenticationError);
    assert_ne!(descriptor.message, 0);
    assert_eq!(arena.texts.get(descriptor.message).as_str(), "invalid token");
}

#[test]
fn success_forty_two_scenario() {
    let mut arena: Arena<u32> = Arena::new();
    let handle = ExternResult::from(&mut arena, Ok(42));
    let envelope = *arena.results.get(handle);
    assert_ne!(envelope.ok, 0);
    assert_eq!(*arena.values.get(envelope.ok), 42);
}

#[test]
fn destroying_a_success_envelope_releases_the_value() {
    let mut arena: Arena<u32> = Arena::new();
    let handle = ExternResult::ok(&mut arena, 42);
    let envelope = *arena.results.get(handle);
    extern_result_destroy(&mut arena, handle);
    assert!(!arena.results.live(handle));
    assert!(!arena.values.live(envelope.ok));
    assert_eq!(arena.values.live_count(), 0);
    assert_eq!(arena.results.live_count(), 0);
}

#[test]
fn destroying_a_failure_envelope_releases_descriptor_and_message() {
    let mut arena: Arena<u32> = Arena::new();
    let handle = ExternResult::err(&mut arena, ErrorCode::Other, String::from("gone"));
    let envelope = *arena.results.get(handle);
    let descriptor = *arena.errors.get(envelope.err);
    assert_eq!(arena.texts.live_count(), 1);
    assert_eq!(arena.errors.live_count(), 1);
    extern_result_destroy(&mut arena, handle);
    assert!(!arena.results.live(handle));
    assert!(!arena.errors.live(envelope.err));
    assert!(!arena.texts.live(descriptor.message));
    assert_eq!(arena.results.live_count(), 0);
    assert_eq!(arena.errors.live_count(), 0);
    assert_eq!(arena.texts.live_count(), 0);
}

#[test]
fn destroying_an_empty_envelope_releases_only_the_envelope() {
    let mut arena: Arena<u32> = Arena::new();
    let handle = ExternResult::ok_null(&mut arena);
    extern_result_destroy(&mut arena, handle);
    assert!(!arena.results.live(handle));
    assert_eq!(arena.results.live_count(), 0);
    assert_eq!(arena.values.live_count(), 0);
}

#[test]
fn destroying_one_envelope_leaves_another_untouched() {
    let mut arena: Arena<u32> = Arena::new();
    let kept = ExternResult::ok(&mut arena, 1);
    let gone = ExternResult::err(&mut arena, ErrorCode::Other, String::from("bye"));
    extern_result_destroy(&mut arena, gone);
    assert!(!arena.results.live(gone));
    assert!(arena.results.live(kept));
    let envelope = *arena.results.get(kept);
    assert_eq!(*arena.values.get(envelope.ok), 1);
    assert_eq!(arena.results.live_count(), 1);
    assert_eq!(arena.values.live_count(), 1);
    assert_eq!(arena.errors.live_count(), 0);
    assert_eq!(arena.texts.live_count(), 0);
}
