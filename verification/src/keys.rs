//! Secret keys of secp256k1, the public keys they determine, and private keys
//! tagged with the network they are meant for.

use vstd::prelude::*;

verus! {

/// The network on which a key or an address is meant to be used.
#[derive(Clone, Copy, Debug, PartialEq, Eq, Structural)]
pub enum Network {
    /// The main Bitcoin network.
    Bitcoin,
    /// The public test network.
    Testnet,
    /// The signed test network.
    Signet,
    /// A local regression-test network.
    Regtest,
}

/// The number that `bytes` writes in base 256, most significant byte first.
pub open spec fn be_value(bytes: Seq<u8>) -> nat
    decreases bytes.len(),
{
    if bytes.len() == 0 {
        0
    } else {
        be_value(bytes.drop_last()) * 256 + bytes.last() as nat
    }
}

/// The order of the group of points of secp256k1.
pub open spec fn curve_order() -> nat {
    0xFFFFFFFF_FFFFFFFF_FFFFFFFF_FFFFFFFE_BAAEDCE6_AF48A03B_BFD25E8C_D0364141nat
}

/// Whether `bytes` is a secret key: 32 bytes that write a number from 1 to
/// the curve order less one.
pub open spec fn is_valid_secret(bytes: Seq<u8>) -> bool {
    bytes.len() == 32 && 0 < be_value(bytes) < curve_order()
}

/// The compressed encoding of the public key that belongs to the secret key
/// `secret`, as `secp256k1` computes it.
pub uninterp spec fn public_key_encoding(secret: Seq<u8>) -> Seq<u8>;

/// Whether `bytes` is the compressed encoding of the public key of some secret key.
pub open spec fn is_public_key(bytes: Seq<u8>) -> bool {
    exists|secret: Seq<u8>| is_valid_secret(secret) && #[trigger] public_key_encoding(secret) == bytes
}

/// Calls `secp256k1::SecretKey::new` on the operating system's random source
/// and takes the key's bytes. That function draws 32 bytes again and again
/// until `secp256k1_ec_seckey_verify` accepts them, so whatever it returns is
/// a secret key; nothing more is known of the bytes. It panics if the
/// operating system cannot supply random bytes.
#[verifier::external_body]
fn draw_secret() -> (bytes: [u8; 32])
    ensures
        is_valid_secret(bytes@),
{
    secp256k1::SecretKey::new(&mut rand::rngs::OsRng).secret_bytes()
}

/// Calls `secp256k1::SecretKey::from_slice` and reports whether it accepted
/// the bytes. For 32 bytes it accepts exactly what `secp256k1_ec_seckey_verify`
/// accepts: a number, most significant byte first, that is not zero and is
/// less than the curve order.
#[verifier::external_body]
fn accepts_secret(bytes: &[u8; 32]) -> (accepted: bool)
    ensures
        accepted == is_valid_secret(bytes@),
{
    secp256k1::SecretKey::from_slice(bytes).is_ok()
}

/// Calls `secp256k1::SecretKey::public_key` on the secret key with these bytes,
/// in a fresh context, and `secp256k1::PublicKey::serialize` on the result: the
/// 33 bytes of the compressed public key. The context is blinded with random
/// bytes, which changes how the point is computed and not which point comes
/// out, so the result is a function of the secret key alone; it is only named
/// here. The bytes must be a secret key: `from_slice` refuses any others.
#[verifier::external_body]
fn compute_public_key(secret: &[u8; 32]) -> (encoded: [u8; 33])
    requires
        is_valid_secret(secret@),
    ensures
        encoded@ == public_key_encoding(secret@),
{
    let key = secp256k1::SecretKey::from_slice(secret).unwrap();
    key.public_key(&secp256k1::Secp256k1::new()).serialize()
}

/// A secret key of secp256k1: 32 bytes that `is_valid_secret` accepts.
#[derive(Clone, Copy)]
pub struct SecretKey {
    bytes: [u8; 32],
}

impl View for SecretKey {
    type V = Seq<u8>;

    closed spec fn view(&self) -> Seq<u8> {
        self.bytes@
    }
}

impl SecretKey {
    #[verifier::type_invariant]
    spec fn well_formed(&self) -> bool {
        is_valid_secret(self.bytes@)
    }

    /// A new secret key from the operating system's random source.
    pub fn new() -> (key: SecretKey)
        ensures
            is_valid_secret(key@),
    {
        SecretKey { bytes: draw_secret() }
    }

    /// The secret key with these bytes, if they are one.
    pub fn from_bytes(bytes: [u8; 32]) -> (key: Option<SecretKey>)
        ensures
            match key {
                Some(key) => is_valid_secret(bytes@) && key@ == bytes@,
                None => !is_valid_secret(bytes@),
            },
    {
        if accepts_secret(&bytes) {
            Some(SecretKey { bytes })
        } else {
            None
        }
    }

    /// The bytes of the key.
    pub fn secret_bytes(&self) -> (bytes: [u8; 32])
        ensures
            bytes@ == self@,
            is_valid_secret(bytes@),
    {
        proof {
            use_type_invariant(self);
        }
        self.bytes
    }

    /// The public key that belongs to this secret key.
    pub fn public_key(&self) -> (public_key: PublicKey)
        ensures
            public_key@ == public_key_encoding(self@),
    {
        proof {
            use_type_invariant(self);
        }
        PublicKey { bytes: compute_public_key(&self.bytes) }
    }
}

/// A public key of secp256k1 in its compressed encoding.
#[derive(Clone, Copy)]
pub struct PublicKey {
    bytes: [u8; 33],
}

impl View for PublicKey {
    type V = Seq<u8>;

    closed spec fn view(&self) -> Seq<u8> {
        self.bytes@
    }
}

impl PublicKey {
    #[verifier::type_invariant]
    spec fn well_formed(&self) -> bool {
        is_public_key(self.bytes@)
    }

    /// The 33 bytes of the compressed encoding.
    pub fn serialize(&self) -> (bytes: [u8; 33])
        ensures
            bytes@ == self@,
            is_public_key(bytes@),
    {
        proof {
            use_type_invariant(self);
        }
        self.bytes
    }
}

/// A private key: a secret key together with the network it is meant for.
/// Its public key is always taken in compressed form.
#[derive(Clone, Copy)]
pub struct PrivateKey {
    /// The network on which the key is to be used.
    pub network: Network,
    /// The secret key itself.
    pub inner: SecretKey,
}

impl PrivateKey {
    /// The private key made of `key` and `network`.
    pub fn new(key: SecretKey, network: Network) -> (private_key: PrivateKey)
        ensures
            private_key == (PrivateKey { network, inner: key }),
    {
        PrivateKey { network, inner: key }
    }

    /// The public key that belongs to this private key.
    pub fn public_key(&self) -> (public_key: PublicKey)
        ensures
            public_key@ == public_key_encoding(self.inner@),
    {
        self.inner.public_key()
    }
}

/// A new private key for the main Bitcoin network, drawn from the operating
/// system's random source.
pub fn generate_private_key() -> (private_key: PrivateKey)
    ensures
        private_key.network == Network::Bitcoin,
        is_valid_secret(private_key.inner@),
{
    let secret_key = SecretKey::new();
    PrivateKey::new(secret_key, Network::Bitcoin)
}

} // verus!
