use vstd::prelude::*;

use vstd::slice::slice_to_vec;

verus! {

/// Identity and key for client authentication by pre-shared key.
#[derive(Clone, PartialEq, Eq, Debug)]
pub struct PskIdentity(pub Vec<u8>, pub Vec<u8>);

impl PskIdentity {
    pub fn new(identity: &[u8], key: &[u8]) -> (r: PskIdentity)
        ensures
            r.0@ == identity@,
            r.1@ == key@,
    {
        PskIdentity(slice_to_vec(identity), slice_to_vec(key))
    }
}

/// The identities a connector can present.
#[derive(Clone, PartialEq, Eq, Debug)]
pub enum ConnectorIdentity {
    Psk(PskIdentity),
}

} // verus!
