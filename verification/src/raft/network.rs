//! The client side of the Raft transport: which scheme reaches a peer, and
//! which files secure the connection.
use crate::raft::config::{TlsConfig, TlsMode};
use crate::text::text;
use vstd::prelude::*;

verus! {

/// Makes the clients that reach the other nodes, over TLS or not.
#[derive(Clone, Copy, Debug, PartialEq, Eq, Structural)]
pub struct GrpcNetworkFactory {
    pub use_tls: bool,
}

impl Default for GrpcNetworkFactory {
    /// Plain connections.
    fn default() -> (f: Self)
        ensures
            !f.use_tls,
    {
        GrpcNetworkFactory { use_tls: false }
    }
}

impl GrpcNetworkFactory {
    /// Plain connections.
    pub fn new() -> (f: Self)
        ensures
            !f.use_tls,
    {
        GrpcNetworkFactory { use_tls: false }
    }

    /// Connections over TLS when `use_tls`.
    pub fn with_tls(use_tls: bool) -> (f: Self)
        ensures
            f.use_tls == use_tls,
    {
        GrpcNetworkFactory { use_tls }
    }
}

/// The endpoint of a peer at `addr`: `https://` and the address over TLS,
/// `http://` and the address otherwise.
pub fn client_endpoint(addr: &str, tls_enabled: bool) -> (r: String)
    ensures
        r@ == (if tls_enabled {
            "https://"@
        } else {
            "http://"@
        }) + addr@,
{
    let scheme = if tls_enabled {
        "https"
    } else {
        "http"
    };
    let r = text(scheme).concat("://").concat(addr);
    proof {
        reveal_strlit("https");
        reveal_strlit("http");
        reveal_strlit("://");
        reveal_strlit("https://");
        reveal_strlit("http://");
        assert(r@ =~= (if tls_enabled {
            "https://"@
        } else {
            "http://"@
        }) + addr@);
    }
    r
}

/// The files a client reads to secure a connection: the CA certificate
/// to check the peer with, if configured, and under mutual TLS the
/// certificate and key it presents.
#[derive(Debug)]
pub struct ClientTlsFiles<'a> {
    pub ca_cert: Option<&'a String>,
    pub identity: Option<(&'a String, &'a String)>,
}

/// The files that secure a client's connections, decided once the CA
/// certificate, where one is configured, has been read: `ca_read_error` is
/// the error text of that read where it failed. A failed read is reported
/// first. Mutual TLS then needs both a certificate and a key; the
/// certificate is asked for first.
pub fn client_tls_files<'a>(tls: &'a TlsConfig, ca_read_error: Option<&str>) -> (r: Result<
    ClientTlsFiles<'a>,
    String,
>)
    ensures
        ca_read_failed(tls, ca_read_error) ==> (r matches Err(e) && e@ == "Failed to read CA cert: "@
            + ca_read_error->Some_0@),
        !ca_read_failed(tls, ca_read_error) && tls.mode == TlsMode::Mtls && tls.cert is None ==> (r matches Err(e) && e@
            == "mTLS requires cert path"@),
        !ca_read_failed(tls, ca_read_error) && tls.mode == TlsMode::Mtls && tls.cert is Some && tls.key is None ==> (r matches Err(e) && e@
            == "mTLS requires key path"@),
        !ca_read_failed(tls, ca_read_error) && tls.mode == TlsMode::Mtls && tls.cert is Some && tls.key is Some ==> (r matches Ok(f) && f.ca_cert
            == tls_ca(tls) && f.identity == Some((tls_cert(tls), tls_key(tls)))),
        !ca_read_failed(tls, ca_read_error) && tls.mode != TlsMode::Mtls ==> (r matches Ok(f) && f.ca_cert == tls_ca(tls) && f.identity is None),
{
    let ca_cert = tls.ca_cert.as_ref();
    if ca_cert.is_some() {
        if let Some(e) = ca_read_error {
            let r = text("Failed to read CA cert: ").concat(e);
            return Err(r);
        }
    }
    if tls.is_mtls() {
        let cert = match tls.cert.as_ref() {
            Some(c) => c,
            None => {
                return Err(text("mTLS requires cert path"));
            },
        };
        let key = match tls.key.as_ref() {
            Some(k) => k,
            None => {
                return Err(text("mTLS requires key path"));
            },
        };
        Ok(ClientTlsFiles { ca_cert, identity: Some((cert, key)) })
    } else {
        Ok(ClientTlsFiles { ca_cert, identity: None })
    }
}

/// A CA certificate is configured and reading it failed.
pub open spec fn ca_read_failed(tls: &TlsConfig, ca_read_error: Option<&str>) -> bool {
    tls.ca_cert is Some && ca_read_error is Some
}

/// The configured CA certificate.
pub open spec fn tls_ca(tls: &TlsConfig) -> Option<&String> {
    match tls.ca_cert {
        Some(p) => Some(&p),
        None => None,
    }
}

/// The configured certificate.
pub open spec fn tls_cert(tls: &TlsConfig) -> &String {
    &tls.cert->Some_0
}

/// The configured key.
pub open spec fn tls_key(tls: &TlsConfig) -> &String {
    &tls.key->Some_0
}

/// The files a server reads to secure its endpoint: the certificate and
/// key it presents, and under mutual TLS the CA certificate it checks
/// clients with, if configured.
#[derive(Debug)]
pub struct ServerTlsFiles<'a> {
    pub cert: &'a String,
    pub key: &'a String,
    pub client_ca: Option<&'a String>,
}

/// The files that secure a server's endpoint. A certificate and a key
/// are needed, the certificate asked for first; the CA certificate is
/// used under mutual TLS only.
pub fn server_tls_files<'a>(tls: &'a TlsConfig) -> (r: Result<ServerTlsFiles<'a>, String>)
    ensures
        tls.cert is None ==> (r matches Err(e) && e@ == "TLS requires cert path"@),
        tls.cert is Some && tls.key is None ==> (r matches Err(e) && e@
            == "TLS requires key path"@),
        tls.cert is Some && tls.key is Some ==> (r matches Ok(f) && f.cert == tls_cert(tls)
            && f.key == tls_key(tls) && f.client_ca == if tls.mode == TlsMode::Mtls {
            tls_ca(tls)
        } else {
            None
        }),
{
    let cert = match tls.cert.as_ref() {
        Some(c) => c,
        None => {
            return Err(text("TLS requires cert path"));
        },
    };
    let key = match tls.key.as_ref() {
        Some(k) => k,
        None => {
            return Err(text("TLS requires key path"));
        },
    };
    let client_ca = if tls.is_mtls() {
        tls.ca_cert.as_ref()
    } else {
        None
    };
    Ok(ServerTlsFiles { cert, key, client_ca })
}

} // verus!
