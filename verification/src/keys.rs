//! The parameters of the secret handshake that `easy_ssb` performs: the
//! client's long-term keys from the ssb keyfile, fresh ephemeral keys, the
//! main ssb network, and the local server, which is known by the client's own
//! public key.
//!
//! The network key of the main ssb network and the ephemeral x25519 key pairs
//! are taken from ssb-crypto.
use vstd::prelude::*;

verus! {

/// The error of reading the ssb keyfile, carried through unchanged.
#[verifier::external_type_specification]
#[verifier::external_body]
pub struct ExKeyFileError(ssb_keyfile::KeyFileError);

/// The long-term (ed25519) key pair of the client, as the keyfile holds it.
#[derive(Debug, Clone, Copy)]
pub struct LongTermKeys {
    /// The public half, which identifies the client.
    pub public: [u8; 32],
    /// The secret half.
    pub secret: [u8; 32],
}

/// An ephemeral (curve25519) key pair, used for a single handshake.
#[derive(Debug, Clone, Copy)]
pub struct EphemeralKeys {
    /// The public half.
    pub public: [u8; 32],
    /// The secret half.
    pub secret: [u8; 32],
}

/// Everything the client hands to the secret handshake besides the transport.
#[derive(Debug, Clone, Copy)]
pub struct HandshakeConfig {
    /// The identifier of the ssb network that both peers take part in.
    pub network_identifier: [u8; 32],
    /// The client's long-term public key.
    pub client_public: [u8; 32],
    /// The client's long-term secret key.
    pub client_secret: [u8; 32],
    /// The public half of the client's ephemeral key pair.
    pub ephemeral_public: [u8; 32],
    /// The secret half of the client's ephemeral key pair.
    pub ephemeral_secret: [u8; 32],
    /// The long-term public key of the server the client connects to.
    pub server_public: [u8; 32],
}

/// The identifier (the secret-handshake network key) of the main ssb network.
pub open spec fn main_net_identifier_spec() -> Seq<u8> {
    seq![
        0xd4u8, 0xa1u8, 0xcbu8, 0x88u8, 0xa6u8, 0x6fu8, 0x02u8, 0xf8u8,
        0xdbu8, 0x63u8, 0x5cu8, 0xe2u8, 0x64u8, 0x41u8, 0xccu8, 0x5du8,
        0xacu8, 0x1bu8, 0x08u8, 0x42u8, 0x0cu8, 0xeau8, 0xacu8, 0x23u8,
        0x08u8, 0x39u8, 0xb7u8, 0x55u8, 0x84u8, 0x5au8, 0x9fu8, 0xfbu8,
    ]
}

/// A configuration for a handshake with `keys` as the client's long-term
/// keys, on the main ssb network, with the local server, which shares the
/// client's identity.
pub open spec fn is_local_main_net_config(cfg: HandshakeConfig, keys: LongTermKeys) -> bool {
    &&& cfg.network_identifier@ == main_net_identifier_spec()
    &&& cfg.client_public == keys.public
    &&& cfg.client_secret == keys.secret
    &&& cfg.server_public == keys.public
}

/// The public x25519 key of the curve25519 secret key `secret` (the
/// secret's multiple of the base point, in Montgomery form).
pub uninterp spec fn x25519_public_key(secret: Seq<u8>) -> Seq<u8>;

/// The configuration of `is_local_main_net_config` with `ephemeral` as the
/// client's ephemeral keys.
pub open spec fn is_main_net_config_for(cfg: HandshakeConfig, keys: LongTermKeys, ephemeral: EphemeralKeys) -> bool {
    &&& is_local_main_net_config(cfg, keys)
    &&& cfg.ephemeral_public == ephemeral.public
    &&& cfg.ephemeral_secret == ephemeral.secret
}

/// `ssb_crypto::NetworkKey::SSB_MAIN_NET`, the network key of the main ssb
/// network; the contract states the 32 bytes of that key that this returns.
#[verifier::external_body]
fn main_net_identifier() -> (id: [u8; 32])
    ensures
        id@ == main_net_identifier_spec(),
{
    ssb_crypto::NetworkKey::SSB_MAIN_NET.0
}

/// `ssb_crypto::ephemeral::generate_ephemeral_keypair`, which draws a fresh
/// curve25519 key pair from the operating system's random number generator.
/// Which secret is drawn depends on chance and is left unsaid; what holds of
/// every pair is stated: the public key is the x25519 public key of the
/// secret.
#[verifier::external_body]
fn generate_ephemeral_keys() -> (keys: EphemeralKeys)
    ensures
        keys.public@ == x25519_public_key(keys.secret@),
{
    let (public, secret) = ssb_crypto::ephemeral::generate_ephemeral_keypair();
    EphemeralKeys { public: public.0, secret: secret.0 }
}

/// The handshake configuration for the given long-term and ephemeral keys:
/// the main ssb network, and as the server the local one, whose public key is
/// the client's own.
pub fn handshake_config(keys: LongTermKeys, ephemeral: EphemeralKeys) -> (cfg: HandshakeConfig)
    ensures
        is_main_net_config_for(cfg, keys, ephemeral),
{
    let network_identifier = main_net_identifier();
    HandshakeConfig {
        network_identifier,
        client_public: keys.public,
        client_secret: keys.secret,
        ephemeral_public: ephemeral.public,
        ephemeral_secret: ephemeral.secret,
        server_public: keys.public,
    }
}

/// Prepares the handshake of `easy_ssb` from what reading the keyfile gave:
/// an error of the keyfile is returned unchanged; otherwise fresh ephemeral
/// keys are drawn and the configuration is that of `handshake_config` for
/// them, on the main ssb network with the local server: its ephemeral public
/// key is the x25519 public key of its ephemeral secret.
pub fn easy_ssb_config(keys: Result<LongTermKeys, ssb_keyfile::KeyFileError>) -> (res: Result<HandshakeConfig, ssb_keyfile::KeyFileError>)
    ensures
        keys is Err ==> res is Err && res->Err_0 == keys->Err_0,
        keys is Ok ==> res is Ok && is_local_main_net_config(res->Ok_0, keys->Ok_0),
        keys is Ok ==> res->Ok_0.ephemeral_public@ == x25519_public_key(res->Ok_0.ephemeral_secret@),
{
    match keys {
        Err(e) => Err(e),
        Ok(k) => {
            let ephemeral = generate_ephemeral_keys();
            Ok(handshake_config(k, ephemeral))
        },
    }
}

} // verus!
