//! Registry-backed package installation pipeline.
//!
//! The library holds the decision logic of a release package manager:
//! resolving a package name across prioritized registries, classifying
//! release-service responses, selecting a release and an asset, accounting
//! download progress, dispatching on archive kinds, and keeping path
//! registration idempotent. All file, network and process I/O lives outside
//! the library; callers drive the state machines here and perform the
//! actions they request.

pub mod archive;
pub mod config;
pub mod download;
pub mod errors;
pub mod install;
pub mod package;
pub mod pathreg;
pub mod platform;
pub mod releases;
pub mod resolve;
pub mod select;
pub mod text;
