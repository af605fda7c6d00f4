//! Update-reconciliation engine for a set of versioned binary assets.
//!
//! Given a manifest of expected file contents, an updater brings an
//! installation directory into agreement with it: files that are missing are
//! downloaded, stale files are patched with a binary delta where the manifest
//! has one for them and downloaded in full where it has none, and nothing is
//! kept whose content hash is not the one that the manifest names.
//!
//! The library holds the parts of such an updater that decide and compute.
//! Every function is verified against a contract stated over mathematical
//! models of its data. Reading files and talking to the network is left to the
//! program around the library, which hands over plain values and is told what
//! to do next.
//!
//! - [`hash`]: content digests, their hexadecimal form, and the hasher.
//! - [`patch`]: the decoder for binary deltas.
//! - [`encoding`]: what a correctly built delta is, and the proof that the
//!   decoder rebuilds the target from it.
//! - [`json`] and [`manifest`]: the manifest document and its typed entries.
//! - [`update`]: the decision about each file, the plan of a whole run, and
//!   the order in which a run handles its entries and ends.
//! - [`download`]: the verdict on each attempt to fetch an asset, and the
//!   retry policy, also for what the file system refuses.
//! - [`error`] and [`text`]: the error taxonomy, exit codes and messages.
//! - [`shell`]: rules of the command shell and of the login dialogue.

pub mod download;
pub mod encoding;
pub mod error;
pub mod hash;
pub mod json;
pub mod manifest;
pub mod patch;
pub mod shell;
pub mod text;
pub mod update;
