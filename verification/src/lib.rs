//! Verified core of a gamescope desktop-portal backend.
//!
//! The library holds the logic of the backend: bookkeeping of open
//! screen-capture sessions, the decisions of the two stream-node discovery
//! strategies, and the composition of screenshot file names, paths and
//! file URLs.  The surrounding process (broker transport, sockets, child
//! processes, filesystem watches) lives outside and hands this library
//! plain values.

pub mod ascii;
pub mod discovery;
pub mod error;
pub mod registry;
pub mod screencast;
pub mod screenshot;
