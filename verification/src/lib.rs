//! Navigation and transfer orchestration for a terminal client of a remote,
//! hierarchical file store.
//!
//! The crate holds the decisions of such a client as verified functions on
//! plain values: how listings are ordered, how keys move the interaction
//! between its modes, how transfers report progress and end, and in which
//! order a local directory tree is realised remotely. Reading keys, talking
//! to the remote store and touching the file system are left to the caller,
//! which performs the commands these functions return and hands back what
//! happened.
//!
//! - [`nav`] is the state of the interaction, [`keys`] what each key does
//!   to it, and [`status`] the line that tells the user where things stand.
//! - [`listing`] and [`picker`] build the rows of the remote and of the
//!   local browser, sorted as [`sorting`] defines.
//! - [`progress`] holds the records that the workers of transfers fill.
//! - [`download`] and [`download_run`] decide on a download step by step;
//!   [`plan`] and [`upload`] do so for the upload of a directory tree.
//! - [`text`] holds what is needed of strings.

pub mod download;
pub mod download_run;
pub mod keys;
pub mod listing;
pub mod nav;
pub mod picker;
pub mod plan;
pub mod progress;
pub mod sorting;
pub mod status;
pub mod text;
pub mod upload;
