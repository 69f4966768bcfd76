//! The connection acceptor of one worker.
//!
//! The worker's TLS configuration is built before anything listens.  After
//! that every accept attempt is looked at by itself: a socket becomes a
//! connection of its own, and a failed attempt is passed over, so that no
//! single failure ends the accept loop.

use crate::config::config_error;
use crate::config::create_tls_config;
use crate::config::material_of;
use crate::config::Material;
use crate::config::ConfigError;
use crate::config::TlsConfig;
use crate::session::Connection;
use crate::session::ConnectionView;
use crate::session::SessionError;
use vstd::prelude::*;

verus! {

/// The acceptor of one worker, with the TLS configuration that all its
/// connections share.
pub struct Acceptor {
    tls: TlsConfig,
}

/// What becomes of one accept attempt.
pub enum Admission {
    /// Serve the socket in a task of its own, with this connection.
    Serve(Connection),
    /// Nothing to serve: note the failure and accept again.
    Skip,
}

impl Admission {
    /// What becomes of an accepted socket, by what came of setting up its
    /// connection: with a connection it is served, without one it is skipped.
    pub fn of(opened: Result<Connection, SessionError>) -> (admission: Admission)
        ensures
            match opened {
                Ok(connection) => admission == Admission::Serve(connection),
                Err(_) => admission is Skip,
            },
    {
        match opened {
            Ok(connection) => Admission::Serve(connection),
            Err(_) => Admission::Skip,
        }
    }
}

impl Acceptor {
    /// The key material that the acceptor's configuration was built from.
    pub closed spec fn material(&self) -> Material {
        self.tls.material()
    }

    /// Makes the acceptor of a worker from the PEM text of its certificate
    /// chain and private key.  Without a usable configuration there is no
    /// acceptor, and so nothing to bind a socket for.  The configuration is
    /// built from all the certificates of the text, in order, and from its
    /// first private key.
    pub fn new(pem: &[u8]) -> (r: Result<Acceptor, ConfigError>)
        ensures
            match r {
                Ok(acceptor) => config_error(pem@) is None && material_of(pem@) == Some(
                    acceptor.material(),
                ),
                Err(e) => config_error(pem@) == Some(e),
            },
            pem@.len() == 0 ==> config_error(pem@) == Some(ConfigError::NoCertificate),
    {
        match create_tls_config(pem) {
            Ok(tls) => Ok(Acceptor { tls }),
            Err(e) => Err(e),
        }
    }

    /// Looks at one accept attempt; `accepted` says whether it gave a socket.
    /// A failed attempt is skipped, and no TLS session is opened for it.  A
    /// socket is served by a connection of its own, which begins in the
    /// handshake with nothing read, collected or sent.
    pub fn on_accept(&self, accepted: bool) -> (admission: Admission)
        ensures
            admission is Serve <==> accepted,
            admission matches Admission::Serve(connection) ==> {
                &&& connection@ == ConnectionView::fresh()
                &&& connection@.wf()
            },
    {
        if !accepted {
            return Admission::Skip;
        }
        Admission::of(Connection::new(&self.tls))
    }
}

} // verus!
