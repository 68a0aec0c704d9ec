//! The window registry: it owns the platform window handles, keeps the
//! bidirectional mapping between window entities and platform window
//! identifiers, and resolves a declarative window configuration into the
//! attributes of the platform creation request.

use vstd::prelude::*;

use std::collections::HashMap;

use crate::backend::{
    CursorGrabMode, FullscreenRequest, PlatformCall, PlatformCaps, PlatformError, SurfaceSize,
    WindowAttributes, WindowBackend,
};
use crate::cursor::{attempt_grab, attempt_grab_calls};
use crate::monitor::{
    get_selected_videomode, opt_ref_view, select_monitor, select_monitor_spec,
    selected_videomode_spec, Monitor, MonitorDirectory, MonitorSelection, VideoModeSelection,
};
use crate::position::{
    to_physical, to_physical_spec, window_position_spec, winit_window_position, WindowPosition,
    WindowResolution,
};

verus! {

broadcast use vstd::std_specs::hash::group_hash_axioms;

/// A declarative window mode.
#[derive(Clone, Copy, PartialEq, Eq, Debug)]
pub enum WindowMode {
    /// A windowed surface, placed by the window's placement policy.
    Windowed,
    /// Borderless fullscreen on the selected monitor.
    BorderlessFullscreen(MonitorSelection),
    /// Exclusive fullscreen on the selected monitor with the selected video
    /// mode.
    Fullscreen(MonitorSelection, VideoModeSelection),
}

/// The per-window configuration consumed by window creation.
#[derive(Clone, Copy, PartialEq, Eq, Debug)]
pub struct Window {
    pub mode: WindowMode,
    pub position: WindowPosition,
    pub resolution: WindowResolution,
    /// Whether the window is shown as soon as it is created.
    pub visible: bool,
}

/// The cursor policy applied to a freshly created window.
#[derive(Clone, Copy, PartialEq, Eq, Debug)]
pub struct CursorOptions {
    /// The grab mode to apply; `Free` is not applied at creation, because
    /// requesting "no grab" spuriously fails on some platforms.
    pub grab_mode: CursorGrabMode,
    /// Whether the cursor is visible over the window.
    pub visible: bool,
    /// Whether the cursor hit-tests against the window; only disabling is
    /// applied at creation, because enabling (the default) fails on
    /// platforms that support nothing else.
    pub hit_test: bool,
}

/// An owned platform window handle: the stable identifier the platform
/// issued for it, together with the attributes it was created with.
#[derive(Clone, Copy, PartialEq, Eq, Debug)]
pub struct WindowWrapper {
    /// The platform's stable identifier for this window.
    pub id: u64,
    /// The attributes the platform creation request carried.
    pub attributes: WindowAttributes,
}

/// Why window creation failed.
#[derive(Clone, Copy, PartialEq, Eq, Debug)]
pub enum CreateWindowError {
    /// The entity is already registered. Duplicate registration is rejected;
    /// the existing window is kept untouched.
    AlreadyRegistered,
    /// The platform refused the creation request.
    PlatformRejected(PlatformError),
    /// The platform returned an identifier that is already registered; the
    /// new handle is discarded and the registry is left untouched.
    DuplicateWindowId,
}

/// The attributes resolved from a window configuration, stated over plain
/// values.
///
/// Fullscreen resolution degrades asymmetrically, on purpose: an exclusive
/// fullscreen request whose monitor cannot be resolved falls back to
/// borderless fullscreen on no particular monitor, while one whose video
/// mode cannot be matched falls back to plain windowed attributes.
pub open spec fn planned_attributes_spec(
    window: Window,
    monitors: MonitorDirectory,
    primary: Option<Monitor>,
) -> WindowAttributes {
    match window.mode {
        WindowMode::BorderlessFullscreen(selection) => WindowAttributes {
            fullscreen: Option::Some(
                FullscreenRequest::Borderless(
                    match select_monitor_spec(monitors, primary, Option::None, selection) {
                        Option::Some(m) => Option::Some(m.info),
                        Option::None => Option::None,
                    },
                ),
            ),
            position: Option::None,
            surface_size: Option::None,
        },
        WindowMode::Fullscreen(selection, video_selection) => match select_monitor_spec(
            monitors,
            primary,
            Option::None,
            selection,
        ) {
            Option::Some(m) => match selected_videomode_spec(m, video_selection) {
                Option::Some(mode) => WindowAttributes {
                    fullscreen: Option::Some(FullscreenRequest::Exclusive(m.info, mode)),
                    position: Option::None,
                    surface_size: Option::None,
                },
                Option::None => WindowAttributes {
                    fullscreen: Option::None,
                    position: Option::None,
                    surface_size: Option::None,
                },
            },
            Option::None => WindowAttributes {
                fullscreen: Option::Some(FullscreenRequest::Borderless(Option::None)),
                position: Option::None,
                surface_size: Option::None,
            },
        },
        WindowMode::Windowed => WindowAttributes {
            fullscreen: Option::None,
            position: window_position_spec(
                window.position,
                window.resolution,
                monitors,
                primary,
                Option::None,
            ),
            surface_size: Option::Some(
                match window.resolution.scale_factor_override_millis {
                    Option::Some(s) => SurfaceSize::Physical(
                        to_physical_spec(window.resolution.logical_width, s),
                        to_physical_spec(window.resolution.logical_height, s),
                    ),
                    Option::None => SurfaceSize::Logical(
                        window.resolution.logical_width,
                        window.resolution.logical_height,
                    ),
                },
            ),
        },
    }
}

/// Resolves a window configuration into the attributes of the platform
/// creation request.
///
/// For fullscreen modes the monitor selection is resolved against the
/// primary monitor only (no current monitor exists during creation). For
/// windowed mode the placement policy is resolved to a position, and the
/// logical size is passed through, scaled by the explicit override factor
/// when one is present.
pub fn plan_window_attributes(
    window: &Window,
    monitors: &MonitorDirectory,
    primary_monitor: Option<&Monitor>,
) -> (r: WindowAttributes)
    ensures
        r == planned_attributes_spec(*window, *monitors, opt_ref_view(primary_monitor)),
{
    match window.mode {
        WindowMode::BorderlessFullscreen(selection) => {
            let selected = select_monitor(monitors, primary_monitor, None, &selection);
            let info = match selected {
                Some(m) => Some(m.info),
                None => None,
            };
            WindowAttributes {
                fullscreen: Some(FullscreenRequest::Borderless(info)),
                position: None,
                surface_size: None,
            }
        },
        WindowMode::Fullscreen(selection, video_selection) => {
            match select_monitor(monitors, primary_monitor, None, &selection) {
                Some(m) => match get_selected_videomode(m, &video_selection) {
                    Some(mode) => WindowAttributes {
                        fullscreen: Some(FullscreenRequest::Exclusive(m.info, mode)),
                        position: None,
                        surface_size: None,
                    },
                    None => WindowAttributes {
                        fullscreen: None,
                        position: None,
                        surface_size: None,
                    },
                },
                None => WindowAttributes {
                    fullscreen: Some(FullscreenRequest::Borderless(None)),
                    position: None,
                    surface_size: None,
                },
            }
        },
        WindowMode::Windowed => {
            let position = winit_window_position(
                &window.position,
                &window.resolution,
                monitors,
                primary_monitor,
                None,
            );
            let surface_size = match window.resolution.scale_factor_override_millis {
                Some(s) => SurfaceSize::Physical(
                    to_physical(window.resolution.logical_width, s),
                    to_physical(window.resolution.logical_height, s),
                ),
                None => SurfaceSize::Logical(
                    window.resolution.logical_width,
                    window.resolution.logical_height,
                ),
            };
            WindowAttributes { fullscreen: None, position, surface_size: Some(surface_size) }
        },
    }
}

/// The cursor calls issued after a successful creation of window `id`: the
/// grab negotiation (skipped for `Free`), then the cursor visibility change,
/// then the hit-test change (only when disabling).
pub open spec fn cursor_call_log(
    caps: PlatformCaps,
    id: u64,
    cursor: CursorOptions,
) -> Seq<PlatformCall> {
    let grab = match cursor.grab_mode {
        CursorGrabMode::Free => Seq::<PlatformCall>::empty(),
        _ => attempt_grab_calls(caps, id, cursor.grab_mode),
    };
    let hittest = if !cursor.hit_test {
        seq![PlatformCall::SetCursorHittest(id, false)]
    } else {
        Seq::<PlatformCall>::empty()
    };
    grab + seq![PlatformCall::SetCursorVisible(id, cursor.visible)] + hittest
}

/// A registry mapping window entities to the platform windows created for
/// them.
///
/// The three maps stay mutually consistent (see [`WinitWindows::wf`]); every
/// operation requires and preserves that invariant. The registry belongs to
/// the thread that owns the platform event loop and is driven sequentially
/// from it.
#[derive(Debug)]
pub struct WinitWindows {
    /// Owns the platform windows, keyed by platform window identifier.
    pub windows: HashMap<u64, WindowWrapper>,
    /// Maps window entities to platform window identifiers.
    pub entity_to_winit: HashMap<u64, u64>,
    /// Maps platform window identifiers back to window entities.
    pub winit_to_entity: HashMap<u64, u64>,
}

impl WinitWindows {
    /// The registry's invariant: `entity_to_winit` and `winit_to_entity` are
    /// exact mutual inverses, and `windows` holds exactly the identifiers
    /// they mention, each handle stored under its own identifier.
    pub open spec fn wf(self) -> bool {
        &&& forall|e: u64|
            self.entity_to_winit@.contains_key(e) ==> {
                &&& self.winit_to_entity@.contains_key(#[trigger] self.entity_to_winit@[e])
                &&& self.winit_to_entity@[self.entity_to_winit@[e]] == e
            }
        &&& forall|id: u64|
            #[trigger] self.winit_to_entity@.contains_key(id) ==> {
                &&& self.entity_to_winit@.contains_key(self.winit_to_entity@[id])
                &&& self.entity_to_winit@[self.winit_to_entity@[id]] == id
            }
        &&& self.windows@.dom() == self.winit_to_entity@.dom()
        &&& forall|id: u64|
            #[trigger] self.windows@.contains_key(id) ==> self.windows@[id].id == id
    }

    /// An empty registry.
    pub fn new() -> (r: WinitWindows)
        ensures
            r.wf(),
            r.windows@ == Map::<u64, WindowWrapper>::empty(),
            r.entity_to_winit@ == Map::<u64, u64>::empty(),
            r.winit_to_entity@ == Map::<u64, u64>::empty(),
    {
        let r = WinitWindows {
            windows: HashMap::new(),
            entity_to_winit: HashMap::new(),
            winit_to_entity: HashMap::new(),
        };
        proof {
            assert(r.windows@.dom() =~= r.winit_to_entity@.dom());
        }
        r
    }

    /// Creates a platform window for `entity` and records it.
    ///
    /// The window configuration is resolved to platform attributes (see
    /// [`planned_attributes_spec`]), the creation request is issued, the
    /// window's visibility is applied, the cursor policy is applied (grab
    /// failures are tolerated, creation still succeeds), and the new handle
    /// is recorded in all three maps. On any
    /// failure no map is touched. An already registered entity is rejected,
    /// keeping the existing window: this registry's policy for duplicate
    /// registration.
    pub fn create_window<B: WindowBackend>(
        &mut self,
        event_loop: &mut B,
        entity: u64,
        window: &Window,
        cursor_options: &CursorOptions,
        monitors: &MonitorDirectory,
        primary_monitor: Option<&Monitor>,
    ) -> (r: Result<WindowWrapper, CreateWindowError>)
        requires
            old(self).wf(),
        ensures
            final(self).wf(),
            final(event_loop).caps() == old(event_loop).caps(),
            r == Result::<WindowWrapper, CreateWindowError>::Err(
                CreateWindowError::AlreadyRegistered,
            ) <==> old(self).entity_to_winit@.contains_key(entity),
            r is Err ==> {
                &&& final(self).windows@ == old(self).windows@
                &&& final(self).entity_to_winit@ == old(self).entity_to_winit@
                &&& final(self).winit_to_entity@ == old(self).winit_to_entity@
            },
            r == Result::<WindowWrapper, CreateWindowError>::Err(
                CreateWindowError::AlreadyRegistered,
            ) ==> {
                &&& final(event_loop).log() == old(event_loop).log()
                &&& final(event_loop).issued_ids() == old(event_loop).issued_ids()
            },
            r matches Err(CreateWindowError::PlatformRejected(e)) ==> {
                &&& !old(event_loop).caps().accepts_windows
                &&& e == old(event_loop).caps().creation_error
                &&& final(event_loop).log() == old(event_loop).log().push(
                    PlatformCall::CreateWindow(
                        planned_attributes_spec(
                            *window,
                            *monitors,
                            opt_ref_view(primary_monitor),
                        ),
                    ),
                )
                &&& final(event_loop).issued_ids() == old(event_loop).issued_ids()
            },
            !old(self).entity_to_winit@.contains_key(entity) && !old(
                event_loop,
            ).caps().accepts_windows ==> r == Result::<WindowWrapper, CreateWindowError>::Err(
                CreateWindowError::PlatformRejected(old(event_loop).caps().creation_error),
            ),
            r == Result::<WindowWrapper, CreateWindowError>::Err(
                CreateWindowError::DuplicateWindowId,
            ) ==> {
                &&& !old(self).entity_to_winit@.contains_key(entity)
                &&& old(event_loop).caps().accepts_windows
                &&& final(event_loop).log() == old(event_loop).log().push(
                    PlatformCall::CreateWindow(
                        planned_attributes_spec(
                            *window,
                            *monitors,
                            opt_ref_view(primary_monitor),
                        ),
                    ),
                )
            },
            r matches Ok(w) ==> {
                &&& !old(self).entity_to_winit@.contains_key(entity)
                &&& old(event_loop).caps().accepts_windows
                &&& w.attributes == planned_attributes_spec(
                    *window,
                    *monitors,
                    opt_ref_view(primary_monitor),
                )
                &&& !old(self).windows@.contains_key(w.id)
                &&& !old(event_loop).issued_ids().contains(w.id)
                &&& final(event_loop).issued_ids() == old(event_loop).issued_ids().insert(w.id)
                &&& final(self).windows@ == old(self).windows@.insert(w.id, w)
                &&& final(self).entity_to_winit@ == old(self).entity_to_winit@.insert(entity, w.id)
                &&& final(self).winit_to_entity@ == old(self).winit_to_entity@.insert(w.id, entity)
                &&& final(event_loop).log() == old(event_loop).log().push(
                    PlatformCall::CreateWindow(w.attributes),
                ).push(PlatformCall::SetWindowVisible(w.id, window.visible)) + cursor_call_log(
                    old(event_loop).caps(),
                    w.id,
                    *cursor_options,
                )
            },
            (!old(self).entity_to_winit@.contains_key(entity)
                && old(event_loop).caps().accepts_windows
                && old(self).windows@.dom().subset_of(old(event_loop).issued_ids()))
                ==> (r is Ok),
    {
        if self.entity_to_winit.contains_key(&entity) {
            return Err(CreateWindowError::AlreadyRegistered);
        }

        let attrs = plan_window_attributes(window, monitors, primary_monitor);

        let id = match event_loop.create_window(attrs) {
            Ok(id) => id,
            Err(e) => {
                return Err(CreateWindowError::PlatformRejected(e));
            },
        };

        if self.windows.contains_key(&id) {
            return Err(CreateWindowError::DuplicateWindowId);
        }

        event_loop.set_window_visible(id, window.visible);

        // Grabbing "no grab" at creation can spuriously fail on some
        // platforms, so it is skipped; a failure of the other modes is
        // tolerated, window creation still succeeds.
        match cursor_options.grab_mode {
            CursorGrabMode::Free => {},
            _ => {
                let _ = attempt_grab(event_loop, id, cursor_options.grab_mode);
            },
        }

        event_loop.set_cursor_visible(id, cursor_options.visible);

        // Enabling hit-testing is the platform default and is never
        // requested explicitly, so that creation does not fail on platforms
        // that only support the default.
        if !cursor_options.hit_test {
            let _ = event_loop.set_cursor_hittest(id, false);
        }

        let wrapper = WindowWrapper { id, attributes: attrs };
        self.entity_to_winit.insert(entity, id);
        self.winit_to_entity.insert(id, entity);
        self.windows.insert(id, wrapper);

        proof {
            assert(final(self).windows@.dom() =~= final(self).winit_to_entity@.dom());
            assert(final(event_loop).log() =~= old(event_loop).log().push(
                PlatformCall::CreateWindow(wrapper.attributes),
            ).push(PlatformCall::SetWindowVisible(wrapper.id, window.visible)) + cursor_call_log(
                old(event_loop).caps(),
                wrapper.id,
                *cursor_options,
            ));
        }

        Ok(wrapper)
    }

    /// Returns the platform window recorded for `entity`, if any.
    pub fn get_window(&self, entity: u64) -> (r: Option<&WindowWrapper>)
        requires
            self.wf(),
        ensures
            match r {
                Option::Some(w) => {
                    &&& self.entity_to_winit@.contains_key(entity)
                    &&& *w == self.windows@[self.entity_to_winit@[entity]]
                },
                Option::None => !self.entity_to_winit@.contains_key(entity),
            },
    {
        let id = match self.entity_to_winit.get(&entity) {
            Some(id) => *id,
            None => {
                return None;
            },
        };
        self.windows.get(&id)
    }

    /// Returns the entity whose window carries the platform identifier
    /// `winit_id`, if any.
    pub fn get_window_entity(&self, winit_id: u64) -> (r: Option<u64>)
        ensures
            r == if self.winit_to_entity@.contains_key(winit_id) {
                Option::Some(self.winit_to_entity@[winit_id])
            } else {
                Option::<u64>::None
            },
    {
        match self.winit_to_entity.get(&winit_id) {
            Some(e) => Some(*e),
            None => None,
        }
    }

    /// Removes the window recorded for `entity` from all three maps and
    /// returns ownership of its handle for disposal.
    ///
    /// Removing an unregistered entity is a no-op that returns nothing and
    /// leaves every map unchanged.
    pub fn remove_window(&mut self, entity: u64) -> (r: Option<WindowWrapper>)
        requires
            old(self).wf(),
        ensures
            final(self).wf(),
            !old(self).entity_to_winit@.contains_key(entity) ==> {
                &&& (r is None)
                &&& final(self).windows@ == old(self).windows@
                &&& final(self).entity_to_winit@ == old(self).entity_to_winit@
                &&& final(self).winit_to_entity@ == old(self).winit_to_entity@
            },
            old(self).entity_to_winit@.contains_key(entity) ==> {
                let id = old(self).entity_to_winit@[entity];
                &&& r == Option::Some(old(self).windows@[id])
                &&& final(self).windows@ == old(self).windows@.remove(id)
                &&& final(self).entity_to_winit@ == old(self).entity_to_winit@.remove(entity)
                &&& final(self).winit_to_entity@ == old(self).winit_to_entity@.remove(id)
            },
    {
        let winit_id = match self.entity_to_winit.remove(&entity) {
            Some(id) => id,
            None => {
                return None;
            },
        };
        self.winit_to_entity.remove(&winit_id);
        let removed = self.windows.remove(&winit_id);
        proof {
            assert(final(self).windows@.dom() =~= final(self).winit_to_entity@.dom());
        }
        removed
    }
}

} // verus!
