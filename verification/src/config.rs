use vstd::prelude::*;

verus! {

/// The singleton administrative record, written once at bootstrap and read
/// thereafter.
#[derive(Clone, Copy, Debug, PartialEq, Eq, Structural)]
pub struct Config {
    pub admin: u64,
    /// Allocator marker for the record's address; not business data.
    pub bump: u8,
}

} // verus!
