//! The rules of a service that converts legacy network configuration with a
//! converter that runs in a container, and hands each result out once.
//!
//! The library decides and the caller acts: nothing here touches a file, a
//! process, a socket or the clock. A request passes through it in steps, and
//! between two steps the caller does what the last step asked for.
//!
//! - `files` classifies submitted files and packs the converter's output.
//! - `migration` lays out a run of the converter and settles its outcome.
//! - `db_util` holds the ledger of the results that wait to be fetched.
//! - `document` writes a result as a JSON document.
//! - `routes` turns requests into batches and results into answers.
//! - `reply` is what the service answers.
//! - `text` compares and joins strings by their characters.
//! - `laws` states what holds of these together.

pub mod db_util;
pub mod document;
pub mod files;
pub mod laws;
pub mod migration;
pub mod reply;
pub mod routes;
pub mod text;
