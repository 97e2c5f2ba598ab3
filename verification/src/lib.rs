//! Deduplicated, resumable fetching of high-resolution book covers.
//!
//! Given the policy id of a collection, a run validates it against the
//! directory of known collections, walks the collection's assets in chunks,
//! and for each asset that is held and not yet on disk resolves, fetches and
//! stores its cover, never the same content twice and never more files than
//! it was allowed.
//!
//! The crate decides; its caller performs. Every network request and every
//! file operation is an [`protocol::Action`] that the run asks for, and what
//! came of it is an [`protocol::Event`] that the caller reports to
//! [`orchestrator::Orchestrator::step`].
//!
//! * [`settings`]: what a run is asked to do, read from a command line.
//! * [`decimal`]: the decimal integers of quantities and arguments.
//! * [`directory`]: the known collections.
//! * [`metadata`]: where an asset's metadata names its cover.
//! * [`digest`]: the digest by which content on disk is remembered.
//! * [`retry`]: the retry policy of the content fetcher.
//! * [`protocol`]: actions, events and notices.
//! * [`model`]: the run as a state machine over mathematical values.
//! * [`orchestrator`]: the run itself, which follows the state machine.
//! * [`laws`]: what holds of every state that a run reaches.
//! * [`world`], [`tally`]: whole runs among services and files, and what
//!   they come to.

pub mod decimal;
pub mod digest;
pub mod directory;
pub mod error;
pub mod laws;
pub mod metadata;
pub mod model;
pub mod orchestrator;
pub mod protocol;
pub mod retry;
pub mod settings;
pub mod tally;
pub mod world;
