use vstd::prelude::*;

use crate::udp_dtls::protocol::Protocol;

verus! {

/// Which protocol versions a context must refuse to honour a minimum and
/// maximum version choice.
#[derive(Debug, Copy, Clone, PartialEq, Eq, Structural)]
pub struct ProtocolOptions {
    pub no_dtlsv1: bool,
    pub no_dtlsv1_2: bool,
}

/// The version-pinning decision: the oldest version is refused exactly
/// when the minimum is the newer version, and the newest refused exactly
/// when the maximum is the older one. Applying the flags to the transport
/// context is the transport layer's work.
pub fn try_set_supported_protocols(min: Option<Protocol>, max: Option<Protocol>) -> (r:
    ProtocolOptions)
    ensures
        r.no_dtlsv1 == (min == Some(Protocol::Dtlsv12)),
        r.no_dtlsv1_2 == (max == Some(Protocol::Dtlsv10)),
{
    ProtocolOptions {
        no_dtlsv1: match min {
            Some(Protocol::Dtlsv12) => true,
            _ => false,
        },
        no_dtlsv1_2: match max {
            Some(Protocol::Dtlsv10) => true,
            _ => false,
        },
    }
}

} // verus!
