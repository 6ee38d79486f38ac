//! The access-control collaborator consulted by the responder.
use vstd::prelude::*;
use crate::crypto::CryptoOptions;
use crate::packet::{RejectReason, SocketAddr};

verus! {

/// What an access-control decision grants: optionally, crypto settings that
/// override the local ones for this peer. They can be taken once.
#[derive(Debug)]
pub struct AcceptParameters {
    crypto: Option<CryptoOptions>,
}

impl AcceptParameters {
    /// The crypto override not yet taken.
    pub closed spec fn spec_crypto(&self) -> Option<CryptoOptions> {
        self.crypto
    }

    /// Parameters with no crypto override.
    pub fn new() -> (r: AcceptParameters)
        ensures
            r.spec_crypto() is None,
    {
        AcceptParameters { crypto: None }
    }

    /// Sets the crypto override.
    pub fn set_crypto_options(&mut self, options: CryptoOptions)
        ensures
            final(self).spec_crypto() == Some(options),
    {
        self.crypto = Some(options);
    }

    /// Takes the crypto override, leaving none behind.
    pub fn take_crypto_options(&mut self) -> (r: Option<CryptoOptions>)
        ensures
            r == old(self).spec_crypto(),
            final(self).spec_crypto() is None,
    {
        self.crypto.take()
    }
}

/// Decides whether a peer may connect, by its stream identifier and address.
pub trait StreamAcceptor {
    fn accept(&mut self, streamid: Option<&str>, ip: SocketAddr) -> Result<
        AcceptParameters,
        RejectReason,
    >;
}

/// An acceptor that lets every peer in, with no crypto override.
pub struct AllowAllStreamAcceptor;

impl StreamAcceptor for AllowAllStreamAcceptor {
    fn accept(&mut self, _streamid: Option<&str>, _ip: SocketAddr) -> Result<
        AcceptParameters,
        RejectReason,
    > {
        Ok(AcceptParameters::new())
    }
}

} // verus!
