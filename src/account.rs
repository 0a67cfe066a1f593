//! Account identifiers of the host network, as `near_sdk` defines them.
use vstd::prelude::*;

verus! {

/// An account identifier: a string that `near_sdk` validated when the value
/// was built. The library carries it through and never looks inside.
#[verifier::external_type_specification]
#[verifier::external_body]
pub struct ExAccountId(near_sdk::AccountId);

/// Relies on the `Clone` that `near_sdk::AccountId` derives over its one
/// field, a `Box<str>`: the copy holds the same text, so it is the same
/// identifier.
pub assume_specification[ <near_sdk::AccountId as Clone>::clone ](
    a: &near_sdk::AccountId,
) -> (r: near_sdk::AccountId)
    ensures
        r == *a,
;

} // verus!
