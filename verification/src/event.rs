use vstd::prelude::*;

verus! {

/// What a commit notification did to a record.
#[derive(Clone, Copy, PartialEq, Eq, Structural, Debug)]
pub enum Operation {
    Create,
    Update,
    Delete,
}

/// One commit notification from the firehose, immutable once received:
/// the author's identifier, the record collection, the operation, the raw
/// JSON payload and content-addressed hash when present, and the
/// monotonically increasing sequence number.
pub struct Event {
    pub did: String,
    pub collection: String,
    pub operation: Operation,
    pub record: Option<String>,
    pub cid: Option<String>,
    pub seq: u64,
}

} // verus!
