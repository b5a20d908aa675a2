use vstd::prelude::*;

use crate::udp_dtls::dtls_connection_builder::DtlsConnectorBuilder;
use crate::udp_dtls::openssl::ProtocolOptions;
use crate::udp_dtls::openssl::try_set_supported_protocols;
use crate::udp_dtls::protocol::Protocol;

verus! {

/// A connector to a datagram endpoint secured with DTLS, as this library
/// models it: the settings a handshake would be run with. The handshake
/// itself runs through the transport stack outside the library.
#[derive(Clone, PartialEq, Eq, Debug)]
pub struct DtlsConnector {
    pub settings: DtlsConnectorBuilder,
}

impl DtlsConnector {
    /// A new connector with the given settings.
    pub fn new(builder: DtlsConnectorBuilder) -> (r: DtlsConnector)
        ensures
            r.settings == builder,
    {
        DtlsConnector { settings: builder }
    }

    /// A builder holding the default settings: no identity, the oldest
    /// supported version as the minimum, name indication on, verification
    /// on, no extra ciphers.
    pub fn builder() -> (r: DtlsConnectorBuilder)
        ensures
            r.identity is None,
            r.min_protocol == Some(Protocol::Dtlsv10),
            r.max_protocol is None,
            r.use_sni,
            !r.accept_invalid_certs,
            !r.accept_invalid_hostnames,
            r.cipher_list@ == Seq::<String>::empty(),
    {
        let ciphers: Vec<String> = Vec::new();
        proof {
            assert(ciphers@ =~= Seq::<String>::empty());
        }
        DtlsConnectorBuilder {
            identity: None,
            min_protocol: Some(Protocol::Dtlsv10),
            max_protocol: None,
            use_sni: true,
            accept_invalid_certs: false,
            accept_invalid_hostnames: false,
            cipher_list: ciphers,
        }
    }

    /// The version-pinning flags the settings ask of a transport context.
    pub fn protocol_options(&self) -> (r: ProtocolOptions)
        ensures
            r.no_dtlsv1 == (self.settings.min_protocol == Some(Protocol::Dtlsv12)),
            r.no_dtlsv1_2 == (self.settings.max_protocol == Some(Protocol::Dtlsv10)),
    {
        try_set_supported_protocols(self.settings.min_protocol, self.settings.max_protocol)
    }
}

} // verus!
