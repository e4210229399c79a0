//! Native backend shell of a desktop email-viewer application.
//!
//! The library holds the backend's decision logic: which file paths count as
//! openable message files, the queue of paths discovered before the UI is
//! ready, the base64 decoding step of the open-with-system operation, and the
//! per-platform command used to open a file with the default viewer. The
//! process wiring around it (window management, event loop, file and process
//! I/O) lives outside the library.

pub mod launch;
pub mod opener;
pub mod paths;
pub mod pending;
