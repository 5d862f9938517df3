//! The outcome envelope.
//!
//! Every boundary-crossing operation ends by converting its native outcome
//! into one [`ExternResult`]: a flat two-field record of which exactly one
//! field — the success handle or the error handle — is non-null, except for
//! the empty success shape, which leaves both null. The error handle
//! addresses an [`ExternError`]: a stable numeric code and a handle to an
//! owned message text. An [`Arena`] gathers the stores that own everything
//! an envelope can reference, so that construction and transitive release
//! can be stated and checked against one model of the boundary heap.

use crate::memory::Store;
use crate::memory::lemma_release_accounting;
use crate::memory::lemma_store_view_bounded;
use crate::memory::lemma_transfer_accounting;
use crate::memory::release_post;
use vstd::prelude::*;

verus! {

/// The closed, append-only enumeration of error codes a foreign caller can
/// rely on. Callers treat unrecognized values as `Other`.
#[derive(Clone, Copy, Debug, PartialEq, Eq, Structural)]
pub enum ErrorCode {
    Other,
    AuthenticationError,
}

/// An error descriptor: an error code and a handle to an owned,
/// human-readable message text, or the null handle for no message.
///
/// The descriptor is owned by whoever holds the enclosing envelope and is
/// released by releasing the envelope, which also releases the message.
#[derive(Clone, Copy, Debug, PartialEq, Eq, Structural)]
pub struct ExternError {
    pub code: ErrorCode,
    pub message: usize,
}

/// An outcome envelope: a success handle and an error handle, of which at
/// most one is ever non-null. A success with no natural result value leaves
/// both fields null.
#[derive(Clone, Copy, Debug, PartialEq, Eq, Structural)]
pub struct ExternResult {
    pub ok: usize,
    pub err: usize,
}

/// The boundary heap an envelope's ownership graph lives in: the success
/// values of type `T`, the error descriptors, the message texts, and the
/// envelopes themselves, each owned by its own store.
pub struct Arena<T> {
    pub values: Store<T>,
    pub errors: Store<ExternError>,
    pub texts: Store<String>,
    pub results: Store<ExternResult>,
}

/// The envelope shape of a success carrying a value: the success handle set,
/// the error handle null.
pub open spec fn success_shape(value_handle: usize) -> ExternResult {
    ExternResult { ok: value_handle, err: 0 }
}

/// The envelope shape of a success with no value: both handles null.
pub open spec fn empty_shape() -> ExternResult {
    ExternResult { ok: 0, err: 0 }
}

/// The envelope shape of a failure: the success handle null, the error
/// handle set.
pub open spec fn error_shape(error_handle: usize) -> ExternResult {
    ExternResult { ok: 0, err: error_handle }
}

/// The envelope invariant every constructor maintains: never are both
/// branches populated.
pub open spec fn well_formed(envelope: ExternResult) -> bool {
    envelope.ok == 0 || envelope.err == 0
}

/// The stronger shape of every envelope that carries an outcome: exactly one
/// branch populated, never both and never neither. Only the empty success
/// shape lies outside it.
pub open spec fn one_branch(envelope: ExternResult) -> bool {
    (envelope.ok == 0) != (envelope.err == 0)
}

/// What constructing a success envelope from a value does to the arena: the
/// value goes into a fresh slot, a fresh envelope wraps that slot's handle,
/// and the error and text stores are untouched.
pub open spec fn ok_post<T>(pre: Arena<T>, post: Arena<T>, handle: usize, value: T) -> bool {
    let value_handle = (pre.values@.len() + 1) as usize;
    &&& handle == pre.results@.len() + 1
    &&& post.values@ == pre.values@.push(Some(value))
    &&& post.results@ == pre.results@.push(Some(success_shape(value_handle)))
    &&& post.errors == pre.errors
    &&& post.texts == pre.texts
}

/// What wrapping an already-transferred value handle does to the arena: a
/// fresh envelope carries the given handle; no store but the envelope store
/// changes.
pub open spec fn ok_ptr_post<T>(
    pre: Arena<T>,
    post: Arena<T>,
    handle: usize,
    value_handle: usize,
) -> bool {
    &&& handle == pre.results@.len() + 1
    &&& post.results@ == pre.results@.push(Some(success_shape(value_handle)))
    &&& post.values == pre.values
    &&& post.errors == pre.errors
    &&& post.texts == pre.texts
}

/// What constructing an empty success envelope does to the arena: a fresh
/// envelope with both handles null; nothing else changes.
pub open spec fn ok_null_post<T>(pre: Arena<T>, post: Arena<T>, handle: usize) -> bool {
    &&& handle == pre.results@.len() + 1
    &&& post.results@ == pre.results@.push(Some(empty_shape()))
    &&& post.values == pre.values
    &&& post.errors == pre.errors
    &&& post.texts == pre.texts
}

/// What constructing from an optional value does: a present value builds the
/// same arena a plain success would, an absent one the same arena an empty
/// success would.
pub open spec fn ok_optional_post<T>(
    pre: Arena<T>,
    post: Arena<T>,
    handle: usize,
    value: Option<T>,
) -> bool {
    match value {
        Some(v) => ok_post(pre, post, handle, v),
        None => ok_null_post(pre, post, handle),
    }
}

/// What constructing a failure envelope does to the arena: the message text
/// goes into a fresh text slot, a fresh descriptor carries the code and that
/// slot's handle, a fresh envelope carries the descriptor's handle, and the
/// value store is untouched.
pub open spec fn err_post<T>(
    pre: Arena<T>,
    post: Arena<T>,
    handle: usize,
    code: ErrorCode,
    msg: String,
) -> bool {
    let message_handle = (pre.texts@.len() + 1) as usize;
    let error_handle = (pre.errors@.len() + 1) as usize;
    &&& handle == pre.results@.len() + 1
    &&& post.texts@ == pre.texts@.push(Some(msg))
    &&& post.errors@ == pre.errors@.push(
        Some(ExternError { code, message: message_handle }),
    )
    &&& post.results@ == pre.results@.push(Some(error_shape(error_handle)))
    &&& post.values == pre.values
}

/// What the generic adapter from a native result does: the success branch
/// builds what a plain success would, the failure branch what a failure with
/// the fallback code `Other` and the error's description would.
pub open spec fn from_post<T>(
    pre: Arena<T>,
    post: Arena<T>,
    handle: usize,
    result: Result<T, String>,
) -> bool {
    match result {
        Ok(value) => ok_post(pre, post, handle, value),
        Err(msg) => err_post(pre, post, handle, ErrorCode::Other, msg),
    }
}

impl<T> Arena<T> {
    /// A boundary heap with nothing transferred yet.
    pub fn new() -> (arena: Arena<T>)
        ensures
            arena.values@ == Seq::<Option<T>>::empty(),
            arena.errors@ == Seq::<Option<ExternError>>::empty(),
            arena.texts@ == Seq::<Option<String>>::empty(),
            arena.results@ == Seq::<Option<ExternResult>>::empty(),
            arena.values.n_live() == 0,
            arena.errors.n_live() == 0,
            arena.texts.n_live() == 0,
            arena.results.n_live() == 0,
    {
        Arena {
            values: Store::new(),
            errors: Store::new(),
            texts: Store::new(),
            results: Store::new(),
        }
    }
}

impl ExternResult {
    /// Wraps a native success value: transfers it to the heap and returns a
    /// fresh envelope whose success handle owns it. The envelope carries
    /// exactly one populated branch.
    pub fn ok<T>(arena: &mut Arena<T>, result: T) -> (handle: usize)
        ensures
            ok_post(*old(arena), *final(arena), handle, result),
            final(arena).results.is_live(handle),
            final(arena).results.value_at(handle) == success_shape(
                ((old(arena).values@.len() + 1) as usize),
            ),
            one_branch(final(arena).results.value_at(handle)),
            final(arena).values.is_live(final(arena).results.value_at(handle).ok),
            final(arena).values.value_at(final(arena).results.value_at(handle).ok) == result,
            final(arena).values.n_live() == old(arena).values.n_live() + 1,
            final(arena).results.n_live() == old(arena).results.n_live() + 1,
    {
        let value_handle = arena.values.transfer(result);
        Self::ok_ptr(arena, value_handle)
    }

    /// Wraps a value handle the caller already produced by a transfer,
    /// avoiding a second transfer. The envelope takes over ownership of the
    /// handle and carries exactly one populated branch.
    pub fn ok_ptr<T>(arena: &mut Arena<T>, result: usize) -> (handle: usize)
        requires
            old(arena).values.is_live(result),
        ensures
            ok_ptr_post(*old(arena), *final(arena), handle, result),
            final(arena).results.is_live(handle),
            final(arena).results.value_at(handle) == success_shape(result),
            one_branch(final(arena).results.value_at(handle)),
            final(arena).results.n_live() == old(arena).results.n_live() + 1,
    {
        arena.results.transfer(ExternResult { ok: result, err: 0 })
    }

    /// Builds the envelope of a success whose natural result is no value:
    /// both handles null. Distinct from wrapping an absent optional value
    /// only in intent; the produced envelope is the same.
    pub fn ok_null<T>(arena: &mut Arena<T>) -> (handle: usize)
        ensures
            ok_null_post(*old(arena), *final(arena), handle),
            final(arena).results.is_live(handle),
            final(arena).results.value_at(handle) == empty_shape(),
            well_formed(final(arena).results.value_at(handle)),
            final(arena).results.n_live() == old(arena).results.n_live() + 1,
    {
        arena.results.transfer(ExternResult { ok: 0, err: 0 })
    }

    /// Wraps an optional value: a present value as a plain success, an
    /// absent one as the empty success shape.
    pub fn ok_optional<T>(arena: &mut Arena<T>, result: Option<T>) -> (handle: usize)
        ensures
            ok_optional_post(*old(arena), *final(arena), handle, result),
            final(arena).results.is_live(handle),
            well_formed(final(arena).results.value_at(handle)),
            final(arena).results.n_live() == old(arena).results.n_live() + 1,
            final(arena).values.n_live() == old(arena).values.n_live() + (if result is Some {
                1nat
            } else {
                0nat
            }),
    {
        match result {
            Some(v) => Self::ok(arena, v),
            None => Self::ok_null(arena),
        }
    }

    /// Builds a failure envelope: allocates the owned message text, the
    /// descriptor carrying `code` and the message handle, and the envelope
    /// whose error handle owns the descriptor. The envelope carries exactly
    /// one populated branch.
    pub fn err<T>(arena: &mut Arena<T>, code: ErrorCode, msg: String) -> (handle: usize)
        ensures
            err_post(*old(arena), *final(arena), handle, code, msg),
            final(arena).results.is_live(handle),
            one_branch(final(arena).results.value_at(handle)),
            final(arena).errors.is_live(final(arena).results.value_at(handle).err),
            final(arena).errors.value_at(final(arena).results.value_at(handle).err).code == code,
            final(arena).texts.is_live(
                final(arena).errors.value_at(final(arena).results.value_at(handle).err).message,
            ),
            final(arena).texts.value_at(
                final(arena).errors.value_at(final(arena).results.value_at(handle).err).message,
            ) == msg,
            final(arena).texts.n_live() == old(arena).texts.n_live() + 1,
            final(arena).errors.n_live() == old(arena).errors.n_live() + 1,
            final(arena).results.n_live() == old(arena).results.n_live() + 1,
    {
        let message = arena.texts.transfer(msg);
        let error_handle = arena.errors.transfer(ExternError { code, message });
        arena.results.transfer(ExternResult { ok: 0, err: error_handle })
    }

    /// The one recommended conversion at the end of a boundary-crossing
    /// call: a native `Ok` becomes a plain success envelope, a native `Err`
    /// a failure envelope with the fallback code `Other` and the error's
    /// textual description as its message.
    pub fn from<T>(arena: &mut Arena<T>, result: Result<T, String>) -> (handle: usize)
        ensures
            from_post(*old(arena), *final(arena), handle, result),
            final(arena).results.is_live(handle),
            one_branch(final(arena).results.value_at(handle)),
            final(arena).results.n_live() == old(arena).results.n_live() + 1,
    {
        match result {
            Ok(value) => Self::ok(arena, value),
            Err(e) => Self::err(arena, ErrorCode::Other, e),
        }
    }
}

/// An envelope handle on which the destructor may be called: the handle is
/// live, the envelope is well formed, and whatever branch it owns — the
/// success value, or the error descriptor and its message text — is live too.
/// Every constructor leaves its envelope in this state.
pub open spec fn releasable<T>(arena: Arena<T>, result: usize) -> bool {
    let envelope = arena.results.value_at(result);
    let descriptor = arena.errors.value_at(envelope.err);
    &&& arena.results.is_live(result)
    &&& well_formed(envelope)
    &&& envelope.ok != 0 ==> arena.values.is_live(envelope.ok)
    &&& envelope.err != 0 ==> arena.errors.is_live(envelope.err)
    &&& envelope.err != 0 && descriptor.message != 0 ==> arena.texts.is_live(descriptor.message)
}

/// What destroying an envelope does to the arena: the envelope's own slot is
/// released; the success value is released exactly when the success branch
/// was populated; the descriptor, and its message text if it had one, are
/// released exactly when the error branch was populated. Every untouched
/// store keeps its exact state.
pub open spec fn extern_result_destroy_post<T>(
    pre: Arena<T>,
    post: Arena<T>,
    result: usize,
) -> bool {
    let envelope = pre.results.value_at(result);
    let descriptor = pre.errors.value_at(envelope.err);
    &&& release_post(pre.results, post.results, result)
    &&& if envelope.ok != 0 {
        release_post(pre.values, post.values, envelope.ok)
    } else {
        post.values == pre.values
    }
    &&& if envelope.err != 0 {
        release_post(pre.errors, post.errors, envelope.err)
    } else {
        post.errors == pre.errors
    }
    &&& if envelope.err != 0 && descriptor.message != 0 {
        release_post(pre.texts, post.texts, descriptor.message)
    } else {
        post.texts == pre.texts
    }
}

/// The destructor of an outcome envelope: releases whichever branch is
/// populated — the success value through its own release path, or the
/// message text and then the error descriptor — and finally the envelope's
/// own storage. Must be called exactly once per envelope handle; a released
/// handle is live no longer, so a second call is ruled out.
pub fn extern_result_destroy<T>(arena: &mut Arena<T>, result: usize)
    requires
        releasable(*old(arena), result),
    ensures
        extern_result_destroy_post(*old(arena), *final(arena), result),
        !final(arena).results.is_live(result),
        old(arena).results.value_at(result).ok != 0 ==> !final(arena).values.is_live(
            old(arena).results.value_at(result).ok,
        ),
        old(arena).results.value_at(result).err != 0 ==> !final(arena).errors.is_live(
            old(arena).results.value_at(result).err,
        ),
        old(arena).results.value_at(result).err != 0 && old(arena).errors.value_at(
            old(arena).results.value_at(result).err,
        ).message != 0 ==> !final(arena).texts.is_live(
            old(arena).errors.value_at(old(arena).results.value_at(result).err).message,
        ),
        final(arena).results.n_live() + 1 == old(arena).results.n_live(),
        final(arena).values.n_live() + (if old(arena).results.value_at(result).ok != 0 {
            1nat
        } else {
            0nat
        }) == old(arena).values.n_live(),
        final(arena).errors.n_live() + (if old(arena).results.value_at(result).err != 0 {
            1nat
        } else {
            0nat
        }) == old(arena).errors.n_live(),
        final(arena).texts.n_live() + (if old(arena).results.value_at(result).err != 0 && old(
            arena,
        ).errors.value_at(old(arena).results.value_at(result).err).message != 0 {
            1nat
        } else {
            0nat
        }) == old(arena).texts.n_live(),
{
    let envelope = *arena.results.get(result);
    if envelope.ok != 0 {
        let _ = arena.values.release(envelope.ok);
    }
    if envelope.err != 0 {
        let descriptor = arena.errors.release(envelope.err);
        if descriptor.message != 0 {
            let _ = arena.texts.release(descriptor.message);
        }
    }
    let _ = arena.results.release(result);
}

/// Law: a success envelope leaves the arena ready for its own destruction —
/// the destructor's precondition holds of the fresh handle.
pub proof fn lemma_success_envelope_releasable<T>(
    pre: Arena<T>,
    post: Arena<T>,
    handle: usize,
    value: T,
)
    requires
        ok_post(pre, post, handle, value),
    ensures
        releasable(post, handle),
{
    lemma_store_view_bounded(post.values);
}

/// Law: a failure envelope leaves the arena ready for its own destruction —
/// the destructor's precondition holds of the fresh handle.
pub proof fn lemma_failure_envelope_releasable<T>(
    pre: Arena<T>,
    post: Arena<T>,
    handle: usize,
    code: ErrorCode,
    msg: String,
)
    requires
        err_post(pre, post, handle, code, msg),
    ensures
        releasable(post, handle),
{
    lemma_store_view_bounded(post.errors);
    lemma_store_view_bounded(post.texts);
}

/// Law: an absent optional value and an empty success build observationally
/// identical envelopes from the same arena — the same handle comes back and
/// every store holds exactly the same slots.
pub proof fn lemma_optional_none_is_empty<T>(
    pre: Arena<T>,
    post1: Arena<T>,
    handle1: usize,
    post2: Arena<T>,
    handle2: usize,
)
    requires
        ok_optional_post(pre, post1, handle1, None::<T>),
        ok_null_post(pre, post2, handle2),
    ensures
        handle1 == handle2,
        post1.values@ == post2.values@,
        post1.errors@ == post2.errors@,
        post1.texts@ == post2.texts@,
        post1.results@ == post2.results@,
{
}

/// Law: a present optional value builds, from the same arena, exactly the
/// envelope a plain success would — the same handle and the same stores.
pub proof fn lemma_optional_some_is_success<T>(
    pre: Arena<T>,
    post1: Arena<T>,
    handle1: usize,
    post2: Arena<T>,
    handle2: usize,
    value: T,
)
    requires
        ok_optional_post(pre, post1, handle1, Some(value)),
        ok_post(pre, post2, handle2, value),
    ensures
        handle1 == handle2,
        post1.values@ == post2.values@,
        post1.errors@ == post2.errors@,
        post1.texts@ == post2.texts@,
        post1.results@ == post2.results@,
{
}

/// Law: adapting a native `Ok` is exactly the plain success construction.
pub proof fn lemma_from_ok_is_success<T>(pre: Arena<T>, post: Arena<T>, handle: usize, value: T)
    requires
        from_post(pre, post, handle, Ok(value)),
    ensures
        ok_post(pre, post, handle, value),
{
}

/// Law: adapting a native `Err` is exactly the failure construction with the
/// fallback code `Other` and the error's description as the message.
pub proof fn lemma_from_err_is_failure<T>(pre: Arena<T>, post: Arena<T>, handle: usize, msg: String)
    requires
        from_post(pre, post, handle, Err(msg)),
    ensures
        err_post(pre, post, handle, ErrorCode::Other, msg),
{
}

/// Law: building a failure envelope and then destroying it releases the
/// envelope, the descriptor and the message text with no leak — every
/// allocation count returns to what it was — and no double free or
/// collateral damage: every handle that was live before is live afterwards
/// with its exact value, and the value store is never touched at all.
pub proof fn lemma_failure_release_accounting<T>(
    pre: Arena<T>,
    mid: Arena<T>,
    post: Arena<T>,
    handle: usize,
    code: ErrorCode,
    msg: String,
)
    requires
        err_post(pre, mid, handle, code, msg),
        extern_result_destroy_post(mid, post, handle),
    ensures
        post.values == pre.values,
        post.results.n_live() == pre.results.n_live(),
        post.errors.n_live() == pre.errors.n_live(),
        post.texts.n_live() == pre.texts.n_live(),
        forall|h: usize|
            pre.results.is_live(h) ==> post.results.is_live(h) && post.results.value_at(h)
                == pre.results.value_at(h),
        forall|h: usize|
            pre.errors.is_live(h) ==> post.errors.is_live(h) && post.errors.value_at(h)
                == pre.errors.value_at(h),
        forall|h: usize|
            pre.texts.is_live(h) ==> post.texts.is_live(h) && post.texts.value_at(h)
                == pre.texts.value_at(h),
{
    lemma_store_view_bounded(mid.errors);
    lemma_store_view_bounded(mid.texts);
    let message_handle = (pre.texts@.len() + 1) as usize;
    let error_handle = (pre.errors@.len() + 1) as usize;
    lemma_transfer_accounting(pre.texts, mid.texts, message_handle, msg);
    lemma_transfer_accounting(
        pre.errors,
        mid.errors,
        error_handle,
        ExternError { code, message: message_handle },
    );
    lemma_transfer_accounting(
        pre.results,
        mid.results,
        handle,
        error_shape(error_handle),
    );
    lemma_release_accounting(mid.texts, post.texts, message_handle);
    lemma_release_accounting(mid.errors, post.errors, error_handle);
    lemma_release_accounting(mid.results, post.results, handle);
}

} // verus!
