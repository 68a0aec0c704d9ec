//! The platform windowing capability: the calls the library issues to the
//! native windowing layer, stated as a trait with contracts, and a scripted
//! in-process stub of it for exercising the library without a real platform.

use vstd::prelude::*;

use crate::monitor::{MonitorInfo, VideoMode};
use crate::position::PhysicalPosition;

verus! {

/// An error reported by the native windowing layer.
#[derive(Clone, Copy, PartialEq, Eq, Debug)]
pub enum PlatformError {
    /// The platform does not implement the requested feature.
    NotSupported,
    /// The platform ignored the request.
    Ignored,
    /// An operating-system error with a platform-specific code.
    Os(u64),
}

/// A cursor grab mode, as the platform understands it.
#[derive(Clone, Copy, PartialEq, Eq, Debug)]
pub enum CursorGrabMode {
    /// Release any grab: the cursor moves freely.
    Free,
    /// Confine the cursor to the window bounds.
    Confined,
    /// Lock the cursor in place, reporting relative motion only.
    Locked,
}

/// The fullscreen presentation requested for a new window.
#[derive(Clone, Copy, PartialEq, Eq, Debug)]
pub enum FullscreenRequest {
    /// Borderless fullscreen on the given monitor, or on the platform's
    /// default monitor when none is given.
    Borderless(Option<MonitorInfo>),
    /// Exclusive fullscreen: switch the given monitor to the given mode.
    Exclusive(MonitorInfo, VideoMode),
}

/// The surface size requested for a new window.
#[derive(Clone, Copy, PartialEq, Eq, Debug)]
pub enum SurfaceSize {
    /// A size in logical units, scaled by the platform.
    Logical(u32, u32),
    /// A size in physical pixels, fixed by an explicit scale factor override.
    Physical(u32, u32),
}

/// The resolved attributes handed to the platform when creating a window.
#[derive(Clone, Copy, PartialEq, Eq, Debug)]
pub struct WindowAttributes {
    /// The fullscreen presentation, or none for a windowed surface.
    pub fullscreen: Option<FullscreenRequest>,
    /// The initial outer position, or none for window-manager placement.
    pub position: Option<PhysicalPosition>,
    /// The initial surface size, or none for the platform default.
    pub surface_size: Option<SurfaceSize>,
}

/// One call issued to the platform, as recorded by a backend.
#[derive(Clone, Copy, PartialEq, Eq, Debug)]
pub enum PlatformCall {
    /// A window creation request with the given attributes.
    CreateWindow(WindowAttributes),
    /// A window visibility change on the given window.
    SetWindowVisible(u64, bool),
    /// A cursor grab request on the given window.
    SetCursorGrab(u64, CursorGrabMode),
    /// A cursor visibility change on the given window.
    SetCursorVisible(u64, bool),
    /// A cursor hit-test change on the given window.
    SetCursorHittest(u64, bool),
}

/// A platform's fixed capabilities: which requests it accepts, and the error
/// it reports for each request it rejects.
#[derive(Clone, Copy, PartialEq, Eq, Debug)]
pub struct PlatformCaps {
    /// Whether window creation succeeds.
    pub accepts_windows: bool,
    /// The error reported when window creation fails.
    pub creation_error: PlatformError,
    /// Whether releasing a cursor grab succeeds.
    pub supports_free: bool,
    /// Whether a confined cursor grab succeeds.
    pub supports_confined: bool,
    /// Whether a locked cursor grab succeeds.
    pub supports_locked: bool,
    /// The error reported when releasing a grab fails.
    pub free_error: PlatformError,
    /// The error reported when a confined grab fails.
    pub confined_error: PlatformError,
    /// The error reported when a locked grab fails.
    pub locked_error: PlatformError,
    /// Whether changing cursor hit-testing succeeds.
    pub supports_hittest: bool,
    /// The error reported when changing cursor hit-testing fails.
    pub hittest_error: PlatformError,
}

impl PlatformCaps {
    /// Whether the platform supports the given grab mode.
    pub open spec fn supports_grab(self, mode: CursorGrabMode) -> bool {
        match mode {
            CursorGrabMode::Free => self.supports_free,
            CursorGrabMode::Confined => self.supports_confined,
            CursorGrabMode::Locked => self.supports_locked,
        }
    }

    /// The error the platform reports for the given grab mode.
    pub open spec fn grab_error(self, mode: CursorGrabMode) -> PlatformError {
        match mode {
            CursorGrabMode::Free => self.free_error,
            CursorGrabMode::Confined => self.confined_error,
            CursorGrabMode::Locked => self.locked_error,
        }
    }

    /// A platform that accepts every request.
    pub fn permissive() -> (r: PlatformCaps)
        ensures
            r.accepts_windows,
            forall|mode: CursorGrabMode| r.supports_grab(mode),
            r.supports_hittest,
    {
        PlatformCaps {
            accepts_windows: true,
            creation_error: PlatformError::Ignored,
            supports_free: true,
            supports_confined: true,
            supports_locked: true,
            free_error: PlatformError::Ignored,
            confined_error: PlatformError::Ignored,
            locked_error: PlatformError::Ignored,
            supports_hittest: true,
            hittest_error: PlatformError::Ignored,
        }
    }
}

/// The native windowing layer, seen from the library: it creates windows and
/// applies per-window cursor state.
///
/// The abstract state is the set of window identifiers the backend has issued
/// (each one fresh), the backend's fixed capabilities, and the log of every
/// call issued to it, in order. Every operation appends exactly its own call
/// to the log, leaves the capabilities unchanged, and succeeds exactly when
/// the capabilities say so.
pub trait WindowBackend: Sized {
    /// The window identifiers issued so far; each new window gets a fresh one.
    spec fn issued_ids(&self) -> Set<u64>;

    /// The backend's fixed capabilities.
    spec fn caps(&self) -> PlatformCaps;

    /// Every call issued to the platform, in order.
    spec fn log(&self) -> Seq<PlatformCall>;

    /// Requests a new window with the given attributes, returning a fresh
    /// window identifier on success.
    fn create_window(&mut self, attrs: WindowAttributes) -> (r: Result<u64, PlatformError>)
        ensures
            final(self).caps() == old(self).caps(),
            final(self).log() == old(self).log().push(PlatformCall::CreateWindow(attrs)),
            r matches Ok(id) ==> {
                &&& old(self).caps().accepts_windows
                &&& !old(self).issued_ids().contains(id)
                &&& final(self).issued_ids() == old(self).issued_ids().insert(id)
            },
            r matches Err(e) ==> {
                &&& !old(self).caps().accepts_windows
                &&& e == old(self).caps().creation_error
                &&& final(self).issued_ids() == old(self).issued_ids()
            },
    ;

    /// Shows or hides a window; visibility changes never fail.
    fn set_window_visible(&mut self, id: u64, visible: bool)
        ensures
            final(self).caps() == old(self).caps(),
            final(self).issued_ids() == old(self).issued_ids(),
            final(self).log() == old(self).log().push(
                PlatformCall::SetWindowVisible(id, visible),
            ),
    ;

    /// Requests the given cursor grab mode on a window.
    fn set_cursor_grab(&mut self, id: u64, mode: CursorGrabMode) -> (r: Result<(), PlatformError>)
        ensures
            final(self).caps() == old(self).caps(),
            final(self).issued_ids() == old(self).issued_ids(),
            final(self).log() == old(self).log().push(PlatformCall::SetCursorGrab(id, mode)),
            r is Ok <==> old(self).caps().supports_grab(mode),
            r matches Err(e) ==> e == old(self).caps().grab_error(mode),
    ;

    /// Sets cursor visibility on a window; visibility changes never fail.
    fn set_cursor_visible(&mut self, id: u64, visible: bool)
        ensures
            final(self).caps() == old(self).caps(),
            final(self).issued_ids() == old(self).issued_ids(),
            final(self).log() == old(self).log().push(PlatformCall::SetCursorVisible(id, visible)),
    ;

    /// Requests that cursor hit-testing be enabled or disabled on a window.
    fn set_cursor_hittest(&mut self, id: u64, hittest: bool) -> (r: Result<(), PlatformError>)
        ensures
            final(self).caps() == old(self).caps(),
            final(self).issued_ids() == old(self).issued_ids(),
            final(self).log() == old(self).log().push(PlatformCall::SetCursorHittest(id, hittest)),
            r is Ok <==> old(self).caps().supports_hittest,
            r matches Err(e) ==> e == old(self).caps().hittest_error,
    ;
}

/// A scripted platform: it answers every request from its fixed
/// capabilities, issues window identifiers in order, and records every call.
pub struct PlatformStub {
    capabilities: PlatformCaps,
    issued: Vec<u64>,
    calls: Vec<PlatformCall>,
}

impl PlatformStub {
    /// A stub platform with the given capabilities and an empty history.
    pub fn new(capabilities: PlatformCaps) -> (r: PlatformStub)
        ensures
            r.caps() == capabilities,
            r.issued_ids() == Set::<u64>::empty(),
            r.log() == Seq::<PlatformCall>::empty(),
    {
        let stub = PlatformStub { capabilities, issued: Vec::new(), calls: Vec::new() };
        proof {
            assert(stub.issued_ids() =~= Set::<u64>::empty());
        }
        stub
    }

    /// The calls issued so far, in order.
    pub fn calls(&self) -> (r: &Vec<PlatformCall>)
        ensures
            r@ == self.log(),
    {
        &self.calls
    }
}

impl WindowBackend for PlatformStub {
    closed spec fn issued_ids(&self) -> Set<u64> {
        Set::new(|j: u64| (j as int) < self.issued@.len())
    }

    closed spec fn caps(&self) -> PlatformCaps {
        self.capabilities
    }

    closed spec fn log(&self) -> Seq<PlatformCall> {
        self.calls@
    }

    fn create_window(&mut self, attrs: WindowAttributes) -> (r: Result<u64, PlatformError>) {
        self.calls.push(PlatformCall::CreateWindow(attrs));
        if self.capabilities.accepts_windows {
            let id = self.issued.len() as u64;
            self.issued.push(id);
            proof {
                assert(final(self).issued_ids() =~= old(self).issued_ids().insert(id));
            }
            Ok(id)
        } else {
            Err(self.capabilities.creation_error)
        }
    }

    fn set_window_visible(&mut self, id: u64, visible: bool) {
        self.calls.push(PlatformCall::SetWindowVisible(id, visible));
    }

    fn set_cursor_grab(&mut self, id: u64, mode: CursorGrabMode) -> (r: Result<
        (),
        PlatformError,
    >) {
        self.calls.push(PlatformCall::SetCursorGrab(id, mode));
        let supported = match mode {
            CursorGrabMode::Free => self.capabilities.supports_free,
            CursorGrabMode::Confined => self.capabilities.supports_confined,
            CursorGrabMode::Locked => self.capabilities.supports_locked,
        };
        if supported {
            Ok(())
        } else {
            let err = match mode {
                CursorGrabMode::Free => self.capabilities.free_error,
                CursorGrabMode::Confined => self.capabilities.confined_error,
                CursorGrabMode::Locked => self.capabilities.locked_error,
            };
            Err(err)
        }
    }

    fn set_cursor_visible(&mut self, id: u64, visible: bool) {
        self.calls.push(PlatformCall::SetCursorVisible(id, visible));
    }

    fn set_cursor_hittest(&mut self, id: u64, hittest: bool) -> (r: Result<(), PlatformError>) {
        self.calls.push(PlatformCall::SetCursorHittest(id, hittest));
        if self.capabilities.supports_hittest {
            Ok(())
        } else {
            Err(self.capabilities.hittest_error)
        }
    }
}

} // verus!
