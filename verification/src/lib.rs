//! The core of the Orbit launcher: the plugin registry and its lifecycle,
//! the reading of plugin manifests, the popup, the licence check, and what
//! the host decides while a plugin's script owns the screen.
//!
//! The library holds state and decides. It touches neither the disk nor the
//! window: the host lists directories, moves and removes them, runs scripts
//! and draws, and tells the library how each of these went.
//!
//! Manifests are tokenised by `quick_xml`; what the library claims of it is
//! stated in [`xml`].

pub mod drm;
pub mod jumpscare;
pub mod logo;
pub mod lua_bindings;
pub mod lua_popup;
pub mod plugin_manager;
pub mod popup;
pub mod session;
pub mod text;
pub mod update;
pub mod xml;

pub use crate::drm::keyid;
pub use crate::update::update_plugins;
