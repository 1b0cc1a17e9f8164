use vstd::prelude::*;

use crate::identity::Identity;

verus! {

/// The snapshot of one referenced account that a request runs against: its
/// identity, whether its holder co-signed the request (the host runtime
/// attaches this flag after verifying the signature), and its stored bytes.
#[derive(Clone, Debug)]
pub struct Account {
    pub key: Identity,
    pub is_signer: bool,
    pub data: Vec<u8>,
}

} // verus!
