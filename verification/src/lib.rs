//! The heart of an audio tagger: it decides what a file is and where it
//! belongs.
//!
//! A file is identified by its fingerprint or, failing that, by a search for
//! its title. Among the candidate recordings and their releases the best pair
//! is chosen by a weighted score, its metadata is collected, and the path of
//! the file in the library is derived from it. A queue hands the files out one
//! at a time and gives each failed scan one more try.
//!
//! Nothing here touches a file or a network. Whoever runs the tagger reads,
//! asks and writes as `job::scan::step` tells it to, and hands the outcome
//! back. Tags are those of `lofty`; what the library relies on about them,
//! and about the few other things it calls, stands in `trusted`.
//!
//! - `job::score` scores releases and chooses the best; `job::rank` holds
//!   the exact scores and their order.
//! - `job::utils` collects the metadata and derives the path.
//! - `job::scan` plans one scan, step by step.
//! - `job::scan_job` and `job::fix_job` decide what follows from a result.
//! - `job` keeps the queue and lets one task run at a time.
//! - `api` holds the answers of the services and the addresses of the
//!   requests, and spaces the requests to the catalog.
//! - `interface` holds the metadata record, reads it from the tag of a file
//!   and writes it into one, and holds the records of the log.
//! - `fraction`, `natural` and `text` are the arithmetic and the strings
//!   underneath.
//! - `trusted` holds the calls into other crates, with contracts that are
//!   taken on trust.

pub mod api;
pub mod config;
pub mod error;
pub mod fraction;
pub mod interface;
pub mod job;
pub mod natural;
pub mod text;
pub mod trusted;
