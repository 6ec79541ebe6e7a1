//! The dquic side: a connector that carries an established dquic connection
//! to the HTTP/3 layer, and the settings of the client used to reach a test
//! server.
use vstd::prelude::*;
use std::sync::Arc;

verus! {

#[verifier::external_type_specification]
#[verifier::external_body]
pub struct ExUri(hyper::Uri);

#[verifier::external_type_specification]
#[verifier::external_body]
pub struct ExDquicConnection(dquic::prelude::Connection);

/// What a dquic connector holds.
pub struct H3DquicConnectorView {
    pub uri: hyper::Uri,
    pub server_name: Seq<char>,
    pub connection: dquic::prelude::Connection,
}

/// Connector for dquic based HTTP/3 connections: it carries an established
/// dquic connection, the URI it reaches and the TLS server name.
pub struct H3DquicConnector {
    uri: hyper::Uri,
    server_name: String,
    connection: Arc<dquic::prelude::Connection>,
}

impl View for H3DquicConnector {
    type V = H3DquicConnectorView;

    closed spec fn view(&self) -> H3DquicConnectorView {
        H3DquicConnectorView {
            uri: self.uri,
            server_name: self.server_name@,
            connection: *self.connection,
        }
    }
}

impl H3DquicConnector {
    /// A connector from an existing QUIC connection.
    pub fn new(uri: hyper::Uri, server_name: String, connection: Arc<dquic::prelude::Connection>) -> (r: H3DquicConnector)
        ensures
            r@.uri == uri,
            r@.server_name == server_name@,
            r@.connection == *connection,
    {
        H3DquicConnector { uri, server_name, connection }
    }

    /// The URI this connector is configured for.
    pub fn uri(&self) -> (r: &hyper::Uri)
        ensures
            *r == self@.uri,
    {
        &self.uri
    }

    /// The TLS server name.
    pub fn server_name(&self) -> (r: &str)
        ensures
            r@ == self@.server_name,
    {
        self.server_name.as_str()
    }

    /// The dquic connection.
    pub fn connection(&self) -> (r: &Arc<dquic::prelude::Connection>)
        ensures
            **r == self@.connection,
    {
        &self.connection
    }

    /// The parts of the connector: URI, server name and connection.
    pub fn into_parts(self) -> (r: (hyper::Uri, String, Arc<dquic::prelude::Connection>))
        ensures
            r.0 == self@.uri,
            r.1@ == self@.server_name,
            *r.2 == self@.connection,
    {
        (self.uri, self.server_name, self.connection)
    }
}

/// The ALPN identifier of HTTP/3: the bytes of `h3`.
pub fn h3_alpn() -> (r: Vec<u8>)
    ensures
        r@ == seq![104u8, 51u8],
{
    let mut v: Vec<u8> = Vec::new();
    v.push(104u8);
    v.push(51u8);
    v
}

/// The protocol identifiers a test client offers: HTTP/3 alone.
pub fn test_client_alpns() -> (r: Vec<Vec<u8>>)
    ensures
        r@.len() == 1,
        r@[0]@ == seq![104u8, 51u8],
{
    let mut v: Vec<Vec<u8>> = Vec::new();
    v.push(h3_alpn());
    v
}

/// How the server's certificate is treated.
#[derive(Clone, Copy, Debug, PartialEq, Eq, Structural)]
pub enum ServerCertificates {
    /// Every certificate is accepted unchecked.
    AcceptAny,
}

/// What the client offers to authenticate itself.
#[derive(Clone, Copy, Debug, PartialEq, Eq, Structural)]
pub enum ClientAuthentication {
    /// No client certificate.
    Anonymous,
}

/// What a dquic client is built with.
#[derive(Debug)]
pub struct DquicClientSettings {
    /// How the server's certificate is treated.
    pub server_certificates: ServerCertificates,
    /// What the client offers to authenticate itself.
    pub client_authentication: ClientAuthentication,
    /// The ALPN identifiers offered in the handshake, in order.
    pub alpns: Vec<Vec<u8>>,
}

/// The settings of the dquic client used in tests: it accepts any server
/// certificate, offers no client certificate and negotiates HTTP/3 alone.
/// Building the client sets up network interfaces, which is left to the
/// caller.
pub fn make_test_dquic_client() -> (r: DquicClientSettings)
    ensures
        r.server_certificates == ServerCertificates::AcceptAny,
        r.client_authentication == ClientAuthentication::Anonymous,
        r.alpns@.len() == 1,
        r.alpns@[0]@ == seq![104u8, 51u8],
{
    DquicClientSettings {
        server_certificates: ServerCertificates::AcceptAny,
        client_authentication: ClientAuthentication::Anonymous,
        alpns: test_client_alpns(),
    }
}

} // verus!
