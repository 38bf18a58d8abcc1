use vstd::prelude::*;

verus! {

/// The block an operation runs in: its height and its time in nanoseconds.
#[derive(Clone, Copy, Debug, PartialEq, Eq, Structural)]
pub struct BlockInfo {
    pub height: u64,
    pub time_nanos: u64,
}

/// When an allowance stops being spendable.
#[derive(Clone, Copy, Debug, PartialEq, Eq, Structural)]
pub enum Expiration {
    /// Expired once the block height reaches this value.
    AtHeight(u64),
    /// Expired once the block time (nanoseconds) reaches this value.
    AtTime(u64),
    Never,
}

impl Expiration {
    pub open spec fn spec_is_expired(self, block: BlockInfo) -> bool {
        match self {
            Expiration::AtHeight(h) => block.height >= h,
            Expiration::AtTime(t) => block.time_nanos >= t,
            Expiration::Never => false,
        }
    }

    pub fn is_expired(&self, block: &BlockInfo) -> (r: bool)
        ensures
            r == self.spec_is_expired(*block),
    {
        match self {
            Expiration::AtHeight(h) => block.height >= *h,
            Expiration::AtTime(t) => block.time_nanos >= *t,
            Expiration::Never => false,
        }
    }
}

} // verus!
