//! The key-exchange sub-protocol as the handshake sees it: a narrow interface
//! to the cipher primitives, and the manager that owns a connection's key.
use vstd::prelude::*;
use crate::packet::{CoreRejectReason, RejectReason, SrtKeyMessage};
use crate::settings::ConnectionReject;

verus! {

/// Crypto configuration of one side: key size in bytes and the passphrase the
/// wrapping key is derived from.
#[derive(Debug, PartialEq, Eq)]
pub struct CryptoOptions {
    pub size: u8,
    pub passphrase: String,
}

impl Clone for CryptoOptions {
    fn clone(&self) -> (r: Self)
        ensures
            r == *self,
    {
        CryptoOptions { size: self.size, passphrase: self.passphrase.clone() }
    }
}

/// The symmetric cipher and key-derivation primitives. The handshake only
/// sequences the exchange; it never looks at key bytes.
pub trait KeyWrap {
    /// A fresh random byte, for drawing keys.
    fn random_byte(&mut self) -> u8;

    /// Wraps `key` under the key derived from the options' passphrase.
    fn wrap_key(&mut self, options: &CryptoOptions, key: &Vec<u8>) -> SrtKeyMessage;

    /// Unwraps the key carried by `km`, or says why it cannot be unwrapped.
    fn unwrap_key(&mut self, options: &CryptoOptions, km: &SrtKeyMessage) -> Result<
        Vec<u8>,
        RejectReason,
    >;
}

/// The live key material of one connection.
#[derive(Debug)]
pub struct CryptoManager {
    options: CryptoOptions,
    key: Vec<u8>,
    km: SrtKeyMessage,
}

impl CryptoManager {
    /// The crypto configuration this manager was made with.
    pub closed spec fn spec_options(&self) -> CryptoOptions {
        self.options
    }

    /// The key-exchange message that carries this manager's key.
    pub closed spec fn spec_km(&self) -> SrtKeyMessage {
        self.km
    }

    /// The plain key bytes.
    pub closed spec fn spec_key(&self) -> Seq<u8> {
        self.key@
    }

    /// A manager for a key of `options.size` random bytes drawn from `keys`,
    /// wrapped for sending.
    pub fn new_random<W: KeyWrap>(options: CryptoOptions, keys: &mut W) -> (r: CryptoManager)
        ensures
            r.spec_options() == options,
            r.spec_key().len() == options.size as int,
    {
        let mut key: Vec<u8> = Vec::new();
        let mut i: u8 = 0;
        while i < options.size
            invariant
                i <= options.size,
                key@.len() == i as int,
            decreases options.size - i,
        {
            key.push(keys.random_byte());
            i = i + 1;
        }
        let km = keys.wrap_key(&options, &key);
        CryptoManager { options, key, km }
    }

    /// The manager for an inbound key-exchange request, given what unwrapping
    /// it gave: the unwrap's own rejection, a rejection for a key of the wrong
    /// size, or a manager holding the key and the request.
    pub fn from_unwrapped(
        options: CryptoOptions,
        km: &SrtKeyMessage,
        unwrapped: Result<Vec<u8>, RejectReason>,
    ) -> (r: Result<CryptoManager, ConnectionReject>)
        ensures
            match unwrapped {
                Err(rr) => r == Err::<CryptoManager, _>(ConnectionReject::Rejecting(rr)),
                Ok(key) => if key@.len() != options.size as int {
                    r == Err::<CryptoManager, _>(
                        ConnectionReject::Rejecting(RejectReason::Core(CoreRejectReason::BadSecret)),
                    )
                } else {
                    r is Ok && r->Ok_0.spec_options() == options && r->Ok_0.spec_key() == key@
                        && r->Ok_0.spec_km().same_as(*km)
                },
            },
    {
        match unwrapped {
            Err(rr) => Err(ConnectionReject::Rejecting(rr)),
            Ok(key) => {
                if key.len() != options.size as usize {
                    Err(ConnectionReject::Rejecting(RejectReason::Core(CoreRejectReason::BadSecret)))
                } else {
                    Ok(CryptoManager { options, key, km: km.duplicate() })
                }
            },
        }
    }

    /// The manager for an inbound key-exchange request, unwrapped by `keys`.
    pub fn new_from_kmreq<W: KeyWrap>(
        options: CryptoOptions,
        km: &SrtKeyMessage,
        keys: &mut W,
    ) -> (r: Result<CryptoManager, ConnectionReject>)
        ensures
            match r {
                Ok(cm) => cm.spec_options() == options && cm.spec_km().same_as(*km)
                    && cm.spec_key().len() == options.size as int,
                Err(e) => e is Rejecting,
            },
    {
        let unwrapped = keys.unwrap_key(&options, km);
        CryptoManager::from_unwrapped(options, km, unwrapped)
    }

    /// The key size in bytes.
    pub fn key_length(&self) -> (r: u8)
        ensures
            r == self.spec_options().size,
    {
        self.options.size
    }

    /// The key-exchange message that hands this manager's key to the peer.
    pub fn generate_km(&self) -> (r: SrtKeyMessage)
        ensures
            r.same_as(self.spec_km()),
    {
        self.km.duplicate()
    }
}

} // verus!
