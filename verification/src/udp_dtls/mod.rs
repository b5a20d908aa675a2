pub mod dtls_connection_builder;
pub mod dtls_connector;
mod error;
mod identity;
mod openssl;
mod protocol;

pub use dtls_connection_builder::DtlsConnectorBuilder;
pub use dtls_connector::DtlsConnector;
pub use error::Error;
pub use error::HandshakeError;
pub use error::SrtpProfileError;
pub use identity::ConnectorIdentity;
pub use identity::PskIdentity;
pub use openssl::ProtocolOptions;
pub use openssl::try_set_supported_protocols;
pub use protocol::Protocol;
