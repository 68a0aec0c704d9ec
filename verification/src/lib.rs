//! Window-backend integration layer: the mapping between logical window
//! entities and platform window handles, and the resolution of declarative
//! window configuration (fullscreen mode, monitor choice, placement, cursor
//! behaviour) into concrete platform requests.
//!
//! The platform itself stands behind the [`backend::WindowBackend`] trait;
//! the registry, the monitor and video-mode resolution, the placement
//! computation and the cursor-grab negotiation are stated and verified
//! against it.

pub mod asset_paths;
pub mod backend;
pub mod cursor;
pub mod monitor;
pub mod position;
pub mod registry;
