//! Pay-to-public-key-hash addresses.

use vstd::prelude::*;
use crate::keys::{is_public_key, public_key_encoding, Network, PrivateKey, PublicKey};

verus! {

/// The text of the pay-to-public-key-hash address of the public key with the
/// compressed encoding `public_key` on `network`, as `bitcoin` writes it.
pub uninterp spec fn p2pkh_encoding(public_key: Seq<u8>, network: Network) -> Seq<char>;

/// Whether `address` is the text of the pay-to-public-key-hash address of
/// `public_key` on `network`.
pub open spec fn pays_to(address: Seq<char>, public_key: Seq<u8>, network: Network) -> bool {
    address == p2pkh_encoding(public_key, network)
}

/// The text of the address that belongs to the secret key `secret` on `network`.
pub open spec fn address_of(secret: Seq<u8>, network: Network) -> Seq<char> {
    p2pkh_encoding(public_key_encoding(secret), network)
}

/// Parses the compressed public key with `bitcoin::PublicKey::from_slice`,
/// calls `bitcoin::Address::p2pkh` on it and the network, and writes the
/// address out with its `Display`. The text is a function of the key's bytes
/// and the network alone and is only named here. The bytes must be those of a
/// public key: the parser refuses any others.
#[verifier::external_body]
fn encode_p2pkh(public_key: &[u8; 33], network: Network) -> (text: String)
    requires
        is_public_key(public_key@),
    ensures
        text@ == p2pkh_encoding(public_key@, network),
{
    let key = bitcoin::PublicKey::from_slice(public_key).unwrap();
    let network = match network {
        Network::Bitcoin => bitcoin::Network::Bitcoin,
        Network::Testnet => bitcoin::Network::Testnet,
        Network::Signet => bitcoin::Network::Signet,
        Network::Regtest => bitcoin::Network::Regtest,
    };
    bitcoin::Address::p2pkh(&key, network).to_string()
}

/// A Bitcoin address, held as the text that is shared with others.
#[derive(Debug)]
pub struct Address {
    text: String,
}

impl View for Address {
    type V = Seq<char>;

    closed spec fn view(&self) -> Seq<char> {
        self.text@
    }
}

impl Clone for Address {
    fn clone(&self) -> (copy: Address)
        ensures
            copy@ == self@,
    {
        Address { text: self.text.clone() }
    }
}

impl Address {
    /// The pay-to-public-key-hash address of `public_key` on `network`.
    pub fn p2pkh(public_key: &PublicKey, network: Network) -> (address: Address)
        ensures
            address@ == p2pkh_encoding(public_key@, network),
    {
        let bytes = public_key.serialize();
        Address { text: encode_p2pkh(&bytes, network) }
    }

    /// The address as text.
    pub fn as_str(&self) -> (text: &str)
        ensures
            text@ == self@,
    {
        self.text.as_str()
    }

    /// Whether this is the pay-to-public-key-hash address of `public_key` on
    /// `network`.
    pub fn is_p2pkh_of(&self, public_key: &PublicKey, network: Network) -> (related: bool)
        ensures
            related == pays_to(self@, public_key@, network),
    {
        let expected = Address::p2pkh(public_key, network);
        self.text == expected.text
    }
}

/// The address that belongs to `private_key`: the pay-to-public-key-hash
/// address of its public key, on the key's own network.
pub fn get_address_from_private_key(private_key: &PrivateKey) -> (address: Address)
    ensures
        address@ == address_of(private_key.inner@, private_key.network),
{
    let public_key = private_key.public_key();
    Address::p2pkh(&public_key, private_key.network)
}

/// Deriving the address of one private key twice gives the same text both
/// times.
pub proof fn lemma_derivation_is_deterministic(
    private_key: PrivateKey,
    first: Address,
    second: Address,
)
    requires
        first@ == address_of(private_key.inner@, private_key.network),
        second@ == address_of(private_key.inner@, private_key.network),
    ensures
        first@ == second@,
{
}

/// The address derived from a private key pays to the public key derived
/// from the same private key.
pub proof fn lemma_address_pays_to_own_public_key(
    private_key: PrivateKey,
    public_key: PublicKey,
    address: Address,
)
    requires
        public_key@ == public_key_encoding(private_key.inner@),
        address@ == address_of(private_key.inner@, private_key.network),
    ensures
        pays_to(address@, public_key@, private_key.network),
{
}

} // verus!
