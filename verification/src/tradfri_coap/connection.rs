use vstd::prelude::*;

use crate::udp_dtls::ConnectorIdentity;
use crate::udp_dtls::DtlsConnector;
use crate::udp_dtls::PskIdentity;
use crate::udp_dtls::Protocol;

verus! {

/// The connector settings a gateway session is opened with: certificate
/// and hostname verification off (the gateway authenticates by pre-shared
/// key, not by certificate), no server name indication, exactly the
/// `PSK-AES128-CCM8` cipher, the given identity/key pair, and both version
/// bounds pinned to DTLS 1.2. Running the handshake with these settings is
/// the transport layer's work.
pub fn connection_settings(identity: &[u8], key: &[u8]) -> (r: DtlsConnector)
    ensures
        r.settings.identity matches Some(ConnectorIdentity::Psk(p)) && p.0@ == identity@ && p.1@
            == key@,
        r.settings.min_protocol == Some(Protocol::Dtlsv12),
        r.settings.max_protocol == Some(Protocol::Dtlsv12),
        !r.settings.use_sni,
        r.settings.accept_invalid_certs,
        r.settings.accept_invalid_hostnames,
        r.settings.cipher_list@.len() == 1,
        r.settings.cipher_list@[0]@ == "PSK-AES128-CCM8"@,
{
    DtlsConnector::builder()
        .danger_accept_invalid_certs(true)
        .danger_accept_invalid_hostnames(true)
        .use_sni(false)
        .add_cipher("PSK-AES128-CCM8")
        .identity(ConnectorIdentity::Psk(PskIdentity::new(identity, key)))
        .min_protocol_version(Some(Protocol::Dtlsv12))
        .max_protocol_version(Some(Protocol::Dtlsv12))
        .build()
}

} // verus!
