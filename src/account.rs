use vstd::prelude::*;

use crate::address::Address;

verus! {

/// What a request shows of one referenced storage slot: its identity, its declared owner,
/// whether it co-signed the request, and its bytes.
#[derive(Clone, Debug)]
pub struct AccountView {
    pub key: Address,
    pub owner: Address,
    pub is_signer: bool,
    pub data: Vec<u8>,
}

} // verus!
