//! Resolution and managed installation of the `ty` language-server binary.
//!
//! The library holds the decision logic of a small editor extension: which
//! executable to launch (explicit configuration, a copy on the search path,
//! or a managed download), how the release asset for the current platform is
//! named, where the managed binary lives on disk, and which stale entries the
//! working directory sheds after a fresh install. All filesystem and network
//! effects are answered by the host; the functions here are pure and take the
//! host's answers as arguments.

pub mod install;
pub mod platform;
pub mod release;
pub mod resolve;
