//! The decisions of a multi-hop Lightning payment run on a local regtest
//! network, where Alice pays Carol through Bob.
//!
//! - `text`: character-level helpers (comparison, decimal rendering and
//!   parsing of integers, trimming) with exact specifications.
//! - `json`: JSON replies as plain values, and their accessors.
//! - `node`: the three nodes and the addresses of their REST interfaces.
//! - `requests`: the command lines and REST calls the run sends.
//! - `replies`: what the run reads from the replies.
//! - `poll`: the bounded waits, as a machine the caller drives.
//! - `report`: the record of the payment and the text it is saved as.
//! - `run`: the whole run as a machine: from its state and what the last
//!   action gave, the next state and action.
//! - `error`: the failures the run reports.

pub mod error;
pub mod json;
pub mod node;
pub mod poll;
pub mod replies;
pub mod report;
pub mod requests;
pub mod run;
pub mod text;
