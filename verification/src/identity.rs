//! Identities and labels of the ledger host, carried through the library
//! without looking inside them.

use vstd::prelude::*;

verus! {

/// An account or contract identity of the ledger host. The library stores and
/// hands on such values and never reads what one holds.
#[verifier::external_type_specification]
#[verifier::external_body]
pub struct ExAddress(soroban_sdk::Address);

/// A text value of the ledger host, used here as a program's identifier.
#[verifier::external_type_specification]
#[verifier::external_body]
pub struct ExLabel(soroban_sdk::String);

/// Calls `soroban_sdk::Address::clone`, which copies the handle: the result
/// is the same identity.
#[verifier::external_body]
pub(crate) fn clone_address(address: &soroban_sdk::Address) -> (copy: soroban_sdk::Address)
    ensures
        copy == *address,
{
    address.clone()
}

/// Calls `soroban_sdk::String::clone`, which copies the handle: the result is
/// the same text.
#[verifier::external_body]
pub(crate) fn clone_label(label: &soroban_sdk::String) -> (copy: soroban_sdk::String)
    ensures
        copy == *label,
{
    label.clone()
}

} // verus!
