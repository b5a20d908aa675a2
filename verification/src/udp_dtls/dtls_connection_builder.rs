use vstd::prelude::*;

use crate::udp_dtls::identity::ConnectorIdentity;
use crate::udp_dtls::protocol::Protocol;

verus! {

/// The settings a connector is built with: the client identity, the
/// protocol version bounds, name indication and verification choices, and
/// the allowed ciphers. Applying them to a transport context is the
/// transport layer's work.
#[derive(Clone, PartialEq, Eq, Debug)]
pub struct DtlsConnectorBuilder {
    pub identity: Option<ConnectorIdentity>,
    pub min_protocol: Option<Protocol>,
    pub max_protocol: Option<Protocol>,
    pub use_sni: bool,
    pub accept_invalid_certs: bool,
    pub accept_invalid_hostnames: bool,
    pub cipher_list: Vec<String>,
}

impl DtlsConnectorBuilder {
    /// Sets the identity to be used for client authentication.
    pub fn identity(self, identity: ConnectorIdentity) -> (r: DtlsConnectorBuilder)
        ensures
            r == (DtlsConnectorBuilder { identity: Some(identity), ..self }),
    {
        DtlsConnectorBuilder { identity: Some(identity), ..self }
    }

    /// Sets the minimum supported protocol version; `None` allows the
    /// oldest the implementation supports.
    pub fn min_protocol_version(self, protocol: Option<Protocol>) -> (r: DtlsConnectorBuilder)
        ensures
            r == (DtlsConnectorBuilder { min_protocol: protocol, ..self }),
    {
        DtlsConnectorBuilder { min_protocol: protocol, ..self }
    }

    /// Sets the maximum supported protocol version; `None` allows the
    /// newest the implementation supports.
    pub fn max_protocol_version(self, protocol: Option<Protocol>) -> (r: DtlsConnectorBuilder)
        ensures
            r == (DtlsConnectorBuilder { max_protocol: protocol, ..self }),
    {
        DtlsConnectorBuilder { max_protocol: protocol, ..self }
    }

    /// Controls certificate validation; trusting invalid certificates is a
    /// last resort.
    pub fn danger_accept_invalid_certs(self, accept_invalid_certs: bool) -> (r:
        DtlsConnectorBuilder)
        ensures
            r == (DtlsConnectorBuilder { accept_invalid_certs: accept_invalid_certs, ..self }),
    {
        DtlsConnectorBuilder { accept_invalid_certs, ..self }
    }

    /// Controls the use of Server Name Indication.
    pub fn use_sni(self, use_sni: bool) -> (r: DtlsConnectorBuilder)
        ensures
            r == (DtlsConnectorBuilder { use_sni: use_sni, ..self }),
    {
        DtlsConnectorBuilder { use_sni, ..self }
    }

    /// Controls hostname verification; trusting invalid hostnames is a
    /// last resort.
    pub fn danger_accept_invalid_hostnames(self, accept_invalid_hostnames: bool) -> (r:
        DtlsConnectorBuilder)
        ensures
            r == (DtlsConnectorBuilder {
                accept_invalid_hostnames: accept_invalid_hostnames,
                ..self
            }),
    {
        DtlsConnectorBuilder { accept_invalid_hostnames, ..self }
    }

    /// Adds a cipher name to the list of allowed ciphers.
    pub fn add_cipher(self, cipher: &str) -> (r: DtlsConnectorBuilder)
        ensures
            r.identity == self.identity,
            r.min_protocol == self.min_protocol,
            r.max_protocol == self.max_protocol,
            r.use_sni == self.use_sni,
            r.accept_invalid_certs == self.accept_invalid_certs,
            r.accept_invalid_hostnames == self.accept_invalid_hostnames,
            r.cipher_list@.len() == self.cipher_list@.len() + 1,
            r.cipher_list@.last()@ == cipher@,
            forall|i: int|
                0 <= i < self.cipher_list@.len() ==> r.cipher_list@[i] == self.cipher_list@[i],
    {
        let mut list = self.cipher_list;
        list.push(String::from_str(cipher));
        DtlsConnectorBuilder { cipher_list: list, ..self }
    }

    /// Creates a connector carrying these settings.
    pub fn build(self) -> (r: crate::udp_dtls::dtls_connector::DtlsConnector)
        ensures
            r.settings == self,
    {
        crate::udp_dtls::dtls_connector::DtlsConnector { settings: self }
    }
}

} // verus!
