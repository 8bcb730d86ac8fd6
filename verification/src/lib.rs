//! Client-side bookkeeping for a Wayland overlay: which globals are bound,
//! at what version, which seats exist, how the setup phase turns into the
//! running phase, and the geometry of shared-memory pixel buffers.
//!
//! The protocol objects themselves (proxies, surfaces, the connection) are
//! opaque to this crate: they are handed in through the associated types of
//! [`state::Handles`] and only stored and handed back.

pub mod global;
pub mod geometry;
pub mod registry;
pub mod state;
pub mod init_app_state;
