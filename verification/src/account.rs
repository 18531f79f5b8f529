use vstd::prelude::*;

verus! {

/// Opaque identifier for a participant, supplied by the execution context.
/// The core never interprets its internal structure; it is only compared
/// for equality and used as a map key.
#[derive(Clone, Copy, PartialEq, Eq, Hash, Debug, Structural)]
pub struct AccountId(pub u64);

} // verus!
