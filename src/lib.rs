//! Journaling companion library: the ledger publishing adapter (entry model,
//! schema normalizer, transport helpers and outcome policy) and the small
//! pure helpers of the weather, time and chat collaborators.

pub mod assistant;
pub mod clock;
pub mod decode;
pub mod entry;
pub mod json;
pub mod ledger;
pub mod notes;
pub mod publish;
pub mod stats;
pub mod transport;
pub mod validation;
pub mod weather;
