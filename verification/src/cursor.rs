//! Cursor grab negotiation: attempting a desired grab mode against the
//! platform and degrading gracefully when the platform does not support it.
//!
//! Not every platform implements both grab styles, and for most interactive
//! purposes a confined and a locked grab are acceptable substitutes for one
//! another; so a rejected confined grab is retried as locked, and a rejected
//! locked grab is retried as confined. A release is never retried. When both
//! the primary and the fallback attempt fail, the primary error is surfaced.

use vstd::prelude::*;

use crate::backend::{CursorGrabMode, PlatformCall, PlatformCaps, PlatformError, WindowBackend};

verus! {

/// The substitute grab mode attempted when the requested one is rejected:
/// confined and locked stand in for each other; a release has no substitute.
pub open spec fn grab_fallback(mode: CursorGrabMode) -> Option<CursorGrabMode> {
    match mode {
        CursorGrabMode::Free => Option::None,
        CursorGrabMode::Confined => Option::Some(CursorGrabMode::Locked),
        CursorGrabMode::Locked => Option::Some(CursorGrabMode::Confined),
    }
}

/// The grab calls `attempt_grab` issues on a platform with the given
/// capabilities: the requested mode, then the fallback mode exactly when the
/// requested one is rejected and a fallback exists.
pub open spec fn attempt_grab_calls(
    caps: PlatformCaps,
    id: u64,
    mode: CursorGrabMode,
) -> Seq<PlatformCall> {
    if caps.supports_grab(mode) {
        seq![PlatformCall::SetCursorGrab(id, mode)]
    } else {
        match grab_fallback(mode) {
            Option::Some(fallback) => seq![
                PlatformCall::SetCursorGrab(id, mode),
                PlatformCall::SetCursorGrab(id, fallback),
            ],
            Option::None => seq![PlatformCall::SetCursorGrab(id, mode)],
        }
    }
}

/// The outcome of `attempt_grab` on a platform with the given capabilities:
/// success when the requested mode or its fallback is supported, else the
/// error of the originally requested mode.
pub open spec fn attempt_grab_result(caps: PlatformCaps, mode: CursorGrabMode) -> Result<
    (),
    PlatformError,
> {
    if caps.supports_grab(mode) {
        Result::Ok(())
    } else {
        match grab_fallback(mode) {
            Option::Some(fallback) => if caps.supports_grab(fallback) {
                Result::Ok(())
            } else {
                Result::Err(caps.grab_error(mode))
            },
            Option::None => Result::Err(caps.grab_error(mode)),
        }
    }
}

/// Attempts the given cursor grab mode on the window `id`.
///
/// `Free` requests release of any grab, with no retry. `Confined` is retried
/// as `Locked` when the platform rejects it, and `Locked` as `Confined`.
/// When both the requested and the substitute mode are rejected, the error
/// of the originally requested mode is returned.
pub fn attempt_grab<B: WindowBackend>(
    backend: &mut B,
    id: u64,
    grab_mode: CursorGrabMode,
) -> (r: Result<(), PlatformError>)
    ensures
        final(backend).caps() == old(backend).caps(),
        final(backend).issued_ids() == old(backend).issued_ids(),
        final(backend).log() == old(backend).log() + attempt_grab_calls(
            old(backend).caps(),
            id,
            grab_mode,
        ),
        r == attempt_grab_result(old(backend).caps(), grab_mode),
{
    let first = backend.set_cursor_grab(id, grab_mode);
    match first {
        Ok(()) => {
            proof {
                assert(final(backend).log() =~= old(backend).log() + attempt_grab_calls(
                    old(backend).caps(),
                    id,
                    grab_mode,
                ));
            }
            Ok(())
        },
        Err(first_error) => {
            let fallback = match grab_mode {
                CursorGrabMode::Free => None,
                CursorGrabMode::Confined => Some(CursorGrabMode::Locked),
                CursorGrabMode::Locked => Some(CursorGrabMode::Confined),
            };
            let r = match fallback {
                Some(fallback_mode) => match backend.set_cursor_grab(id, fallback_mode) {
                    Ok(()) => Ok(()),
                    Err(_) => Err(first_error),
                },
                None => Err(first_error),
            };
            proof {
                assert(final(backend).log() =~= old(backend).log() + attempt_grab_calls(
                    old(backend).caps(),
                    id,
                    grab_mode,
                ));
            }
            r
        },
    }
}

/// A rejected confined grab degrades to a locked one: on a platform that
/// rejects confined grabs but supports locked grabs, attempting a confined
/// grab succeeds, and the platform receives the confined request followed by
/// a locked request.
pub proof fn lemma_confined_falls_back_to_locked(caps: PlatformCaps, id: u64)
    requires
        !caps.supports_confined,
        caps.supports_locked,
    ensures
        attempt_grab_result(caps, CursorGrabMode::Confined) is Ok,
        attempt_grab_calls(caps, id, CursorGrabMode::Confined) == seq![
            PlatformCall::SetCursorGrab(id, CursorGrabMode::Confined),
            PlatformCall::SetCursorGrab(id, CursorGrabMode::Locked),
        ],
{
}

/// When both grab styles are rejected, the error of the originally requested
/// mode is surfaced: on a platform that rejects both confined and locked
/// grabs, attempting a confined grab fails with the platform's error for the
/// confined request, after both requests were attempted.
pub proof fn lemma_grab_double_failure(caps: PlatformCaps, id: u64)
    requires
        !caps.supports_confined,
        !caps.supports_locked,
    ensures
        attempt_grab_result(caps, CursorGrabMode::Confined) == Result::<(), PlatformError>::Err(
            caps.confined_error,
        ),
        attempt_grab_calls(caps, id, CursorGrabMode::Confined) == seq![
            PlatformCall::SetCursorGrab(id, CursorGrabMode::Confined),
            PlatformCall::SetCursorGrab(id, CursorGrabMode::Locked),
        ],
{
}

} // verus!
