//! Owned handles to native resources and the translation of native call
//! results into error values.
//!
//! A handle remembers whether releasing the native allocation is its
//! responsibility and whether that release decision has already been taken.
//! The native release function cannot be called from verified code, and a
//! destructor could not surface a failing status anyway, so the decision is
//! an explicit step: `NativeHandle::close` marks the handle released and
//! says whether the caller must now invoke the native release function. It
//! says so at most once per handle, however often the release path runs.

use vstd::prelude::*;

use crate::errors::ImageError;

verus! {

/// A handle to one native resource: the raw pointer value (non-null when
/// valid) and the ownership bookkeeping around it.
pub struct NativeHandle {
    raw: u64,
    owned: bool,
    released: bool,
}

impl NativeHandle {
    /// The raw native pointer value this handle stands for.
    pub closed spec fn raw_id(self) -> u64 {
        self.raw
    }

    /// Whether releasing the native resource is this handle's
    /// responsibility.
    pub closed spec fn is_owned(self) -> bool {
        self.owned
    }

    /// Whether the release decision has already been taken.
    pub closed spec fn is_released(self) -> bool {
        self.released
    }

    /// A handle is valid while it stands for a non-null native pointer.
    pub open spec fn valid(self) -> bool {
        self.raw_id() != 0
    }

    /// Whether the native release call still has to fire for this handle.
    pub open spec fn must_release(self) -> bool {
        self.is_owned() && !self.is_released()
    }

    /// What one run of the release path does to a handle: it keeps the
    /// pointer and the ownership flag, marks the handle released, and fires
    /// the native release exactly when the handle was an owned one whose
    /// release decision was still pending.
    pub open spec fn close_step(pre: Self, post: Self, fired: bool) -> bool {
        &&& post.raw_id() == pre.raw_id()
        &&& post.is_owned() == pre.is_owned()
        &&& post.is_released()
        &&& fired == pre.must_release()
    }

    /// A handle whose native resource this layer must release once.
    pub(crate) fn new_owned(raw: u64) -> (h: Self)
        requires
            raw != 0,
        ensures
            h.raw_id() == raw,
            h.is_owned(),
            !h.is_released(),
    {
        NativeHandle { raw, owned: true, released: false }
    }

    /// A non-owning view of a native resource held elsewhere: closing it
    /// never fires the native release.
    pub fn new_borrowed(raw: u64) -> (h: Self)
        requires
            raw != 0,
        ensures
            h.raw_id() == raw,
            !h.is_owned(),
            !h.is_released(),
    {
        NativeHandle { raw, owned: false, released: false }
    }

    /// The raw pointer value, for handing back to native calls.
    pub fn raw(&self) -> (r: u64)
        ensures
            r == self.raw_id(),
    {
        self.raw
    }

    /// Whether this handle owns its native resource.
    pub fn owned(&self) -> (r: bool)
        ensures
            r == self.is_owned(),
    {
        self.owned
    }

    /// Whether the release decision has already been taken.
    pub fn released(&self) -> (r: bool)
        ensures
            r == self.is_released(),
    {
        self.released
    }

    /// Takes the release decision: marks the handle released and returns
    /// whether the caller must now invoke the native release function.
    /// Whatever failure status that native call may then report has to be
    /// handled by the caller; this step itself cannot fail.
    pub fn close(&mut self) -> (fire: bool)
        ensures
            Self::close_step(*old(self), *final(self), fire),
    {
        let fire = self.owned && !self.released;
        self.released = true;
        fire
    }
}

/// Ownership uniqueness law: however many times the release path runs on a
/// handle, the native release fires at most once. Two successive release
/// steps can never both fire, so no chain of them fires twice.
pub proof fn lemma_release_at_most_once(
    h0: NativeHandle,
    h1: NativeHandle,
    h2: NativeHandle,
    fired1: bool,
    fired2: bool,
)
    requires
        NativeHandle::close_step(h0, h1, fired1),
        NativeHandle::close_step(h1, h2, fired2),
    ensures
        !(fired1 && fired2),
{
}

/// An owned native image surface, produced by a loader.
pub struct Surface {
    pub handle: NativeHandle,
}

impl Surface {
    /// Translates the result of a native surface-load call. A null handle
    /// means the load failed: the answer is a load error carrying
    /// `last_error`, the native last-error text read right after the call.
    /// A non-null handle becomes a newly owned, not yet released surface.
    pub fn from_load_result(raw: u64, last_error: String) -> (r: Result<Surface, ImageError>)
        ensures
            raw == 0 ==> r == Err::<Surface, ImageError>(ImageError::LoadError(last_error)),
            raw != 0 ==> {
                &&& r is Ok
                &&& r->Ok_0.handle.valid()
                &&& r->Ok_0.handle.raw_id() == raw
                &&& r->Ok_0.handle.is_owned()
                &&& !r->Ok_0.handle.is_released()
            },
    {
        if raw == 0 {
            Err(ImageError::LoadError(last_error))
        } else {
            Ok(Surface { handle: NativeHandle::new_owned(raw) })
        }
    }
}

/// An owned native texture, produced by a texture loader against a borrowed
/// rendering context. It must not outlive the context it was created from.
pub struct Texture {
    pub handle: NativeHandle,
}

impl Texture {
    /// Translates the result of a native texture-load call, exactly as
    /// `Surface::from_load_result` does for surfaces.
    pub fn from_load_result(raw: u64, last_error: String) -> (r: Result<Texture, ImageError>)
        ensures
            raw == 0 ==> r == Err::<Texture, ImageError>(ImageError::LoadError(last_error)),
            raw != 0 ==> {
                &&& r is Ok
                &&& r->Ok_0.handle.valid()
                &&& r->Ok_0.handle.raw_id() == raw
                &&& r->Ok_0.handle.is_owned()
                &&& !r->Ok_0.handle.is_released()
            },
    {
        if raw == 0 {
            Err(ImageError::LoadError(last_error))
        } else {
            Ok(Texture { handle: NativeHandle::new_owned(raw) })
        }
    }
}

/// Translates the status code of a native save call: zero is success,
/// anything else is a save error carrying `last_error`, the native
/// last-error text read right after the call.
pub fn save_result(status: i32, last_error: String) -> (r: Result<(), ImageError>)
    ensures
        status == 0 ==> r == Ok::<(), ImageError>(()),
        status != 0 ==> r == Err::<(), ImageError>(ImageError::SaveError(last_error)),
{
    if status == 0 {
        Ok(())
    } else {
        Err(ImageError::SaveError(last_error))
    }
}

} // verus!
