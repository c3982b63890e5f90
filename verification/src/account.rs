//! Account identifiers and the host's rule for their syntax.

use vstd::prelude::*;

verus! {

/// Whether the text `id` is a syntactically valid account identifier, as
/// `near_sdk::env::is_valid_account_id` decides it on the text's UTF-8 bytes.
pub uninterp spec fn account_id_valid(id: Seq<char>) -> bool;

/// Asks `near_sdk::env::is_valid_account_id` whether `id` is a valid account
/// identifier.
///
/// Trusted: the answer depends on the bytes of `id` alone, so it is given
/// the name [`account_id_valid`]; nothing else is claimed of it.
#[verifier::external_body]
pub(crate) fn is_valid_account_id(id: &String) -> (valid: bool)
    ensures
        valid == account_id_valid(id@),
{
    near_sdk::env::is_valid_account_id(id.as_bytes())
}

} // verus!
