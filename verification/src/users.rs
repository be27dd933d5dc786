//! The users client's request building and response reading.

use vstd::prelude::*;
use crate::types::Account;
use crate::wire;

verus! {

/// Reads an accounts response, keeping every account in order.
pub fn accounts_from_response(response: wire::GetAccountsResponse) -> (r: Vec<Account>)
    ensures
        r@.len() == response.accounts@.len(),
        forall|i: int|
            0 <= i < response.accounts@.len() ==> (#[trigger] r@[i])@ == response.accounts@[i],
{
    let ghost orig = response.accounts@;
    let mut r: Vec<Account> = Vec::new();
    for x in it: response.accounts.into_iter()
        invariant
            it.seq() == orig,
            r@.len() == it.index(),
            forall|i: int| 0 <= i < r@.len() ==> (#[trigger] r@[i])@ == it.seq()[i],
    {
        r.push(Account::from(x));
    }
    r
}

/// Builds the wire message that asks for one account's margin attributes.
pub fn margin_attributes_request(account_id: String) -> (r: wire::GetMarginAttributesRequest)
    ensures
        r.account_id == account_id,
{
    wire::GetMarginAttributesRequest { account_id }
}

} // verus!
