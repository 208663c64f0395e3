//! Transfer-event indexing core: token identifiers, ledger words, URI
//! probing, metadata normalization, collection reconciliation and the
//! per-event processing state machine.
use vstd::prelude::*;

pub mod collection;
pub mod decimal;
pub mod felt;
pub mod files;
pub mod flow;
pub mod hex;
pub mod metadata;
pub mod token_id;
pub mod transfer;
pub mod uri;

verus! {

} // verus!
