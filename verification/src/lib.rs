//! Command-translation layer for a keyboard controller daemon.
//!
//! The crate turns one user command (list devices, bind to one, change its
//! LED or layer state, release it) into a single validated request against
//! the external controller daemon, and renders the daemon's answer as the
//! lines the user sees. The daemon itself (discovery, session state,
//! firmware I/O) is an external collaborator and is not implemented here.

pub mod codec;
pub mod model;
pub mod resolver;
pub mod text;
