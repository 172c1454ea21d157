//! Key material: a BIP39 mnemonic phrase and the BIP32 master key of its
//! seed, the descriptor
//! type chosen for a new wallet, and the RGB form of an account's
//! derivation descriptor.

use vstd::prelude::*;
use crate::text::{hex_of, hex_lower, replaced, replace_all, same_text};
use bitcoin::secp256k1::Secp256k1;
use bitcoin::util::bip32::{ExtendedPrivKey, ExtendedPubKey};
use rand::RngCore;

verus! {

/// Length in bytes of the random entropy a new mnemonic phrase is made from
/// (256 bits: a 24-word phrase).
pub const ENTROPY_LEN: usize = 32;

/// Length in bytes of a serialized BIP32 extended key.
pub const EXTENDED_KEY_LEN: usize = 78;

/// The English BIP39 mnemonic phrase that `bip39::Mnemonic::from_entropy`
/// makes from some entropy, as its display writes it (words separated by
/// single spaces), or `None` where the entropy has a length BIP39 refuses.
pub uninterp spec fn bip39_phrase(entropy: Seq<u8>) -> Option<Seq<char>>;

/// The 64-byte seed `bip39::Mnemonic::to_seed_normalized` derives, with an
/// empty passphrase, from the phrase that `bip39::Mnemonic::parse_normalized`
/// reads; `None` where the phrase does not parse.
pub uninterp spec fn bip39_seed(phrase: Seq<char>) -> Option<Seq<u8>>;

/// The serialized (78-byte) BIP32 master private key that
/// `bitcoin::util::bip32::ExtendedPrivKey::new_master` makes from a seed, for
/// mainnet (`mainnet`) or for the test networks (whose serialization is the
/// same for testnet, signet and regtest), or `None` where that call fails.
pub uninterp spec fn bip32_master_key(mainnet: bool, seed: Seq<u8>) -> Option<Seq<u8>>;

/// The serialized extended public key that
/// `bitcoin::util::bip32::ExtendedPubKey::from_priv` derives from a serialized
/// extended private key, or `None` where the private key does not decode.
pub uninterp spec fn bip32_public_key(xprv: Seq<u8>) -> Option<Seq<u8>>;

/// The 4-byte fingerprint that
/// `bitcoin::util::bip32::ExtendedPrivKey::fingerprint` gives for a serialized
/// extended private key, or `None` where the key does not decode.
pub uninterp spec fn bip32_fingerprint(xprv: Seq<u8>) -> Option<Seq<u8>>;

/// The Base58Check text of a byte string, as
/// `bitcoin::util::base58::check_encode_slice` writes it.
pub uninterp spec fn base58check(data: Seq<u8>) -> Seq<char>;

/// The view of an optional byte vector.
pub open spec fn bytes_view(o: Option<Vec<u8>>) -> Option<Seq<u8>> {
    match o {
        Some(v) => Some(v@),
        None => None,
    }
}

/// The view of an optional string.
pub open spec fn text_view(o: Option<String>) -> Option<Seq<char>> {
    match o {
        Some(v) => Some(v@),
        None => None,
    }
}

/// The first four bytes of a serialized extended private key of mainnet
/// (`mainnet`) or of the test networks.
pub open spec fn private_version(mainnet: bool) -> Seq<u8> {
    if mainnet {
        seq![0x04u8, 0x88u8, 0xADu8, 0xE4u8]
    } else {
        seq![0x04u8, 0x35u8, 0x83u8, 0x94u8]
    }
}

/// The first four bytes of a serialized extended public key of mainnet
/// (`mainnet`) or of the test networks.
pub open spec fn public_version(mainnet: bool) -> Seq<u8> {
    if mainnet {
        seq![0x04u8, 0x88u8, 0xB2u8, 0x1Eu8]
    } else {
        seq![0x04u8, 0x35u8, 0x87u8, 0xCFu8]
    }
}

/// Whether BIP39 accepts entropy of `n` bytes: a multiple of 4 bytes from
/// 16 to 32 bytes.
pub open spec fn bip39_entropy_len_ok(n: nat) -> bool {
    n % 4 == 0 && 16 <= n <= 32
}

/// Calls `bip39::Mnemonic::from_entropy` and displays the phrase. Trusted:
/// the result is `bip39_phrase(entropy)`, and a phrase comes back exactly for
/// the entropy lengths `from_entropy` accepts.
#[verifier::external_body]
fn mnemonic_phrase(entropy: &[u8]) -> (r: Option<String>)
    ensures
        text_view(r) == bip39_phrase(entropy@),
        r is Some <==> bip39_entropy_len_ok(entropy@.len()),
{
    match bip39::Mnemonic::from_entropy(entropy) {
        Ok(m) => Some(m.to_string()),
        Err(_) => None,
    }
}

/// Parses a phrase (`bip39::Mnemonic::parse_normalized`) and derives its seed
/// with an empty passphrase (`bip39::Mnemonic::to_seed_normalized`). Trusted:
/// the result is `bip39_seed(phrase)` and is 64 bytes long when present.
#[verifier::external_body]
fn mnemonic_seed(phrase: &str) -> (r: Option<Vec<u8>>)
    ensures
        bytes_view(r) == bip39_seed(phrase@),
        r matches Some(s) ==> s@.len() == 64,
{
    match bip39::Mnemonic::parse_normalized(phrase) {
        Ok(m) => Some(m.to_seed_normalized("").to_vec()),
        Err(_) => None,
    }
}

/// Calls `ExtendedPrivKey::new_master` for `Network::Bitcoin` (`mainnet`) or
/// `Network::Testnet` and serializes the key with `ExtendedPrivKey::encode`.
/// Trusted: the result is `bip32_master_key(mainnet, seed)`; a key that comes
/// back is 78 bytes long, starts with the version bytes of its network and
/// has depth 0 (as `encode` writes a master key). Nothing is stated of the key
/// bytes themselves (HMAC-SHA512).
#[verifier::external_body]
fn new_master_key(mainnet: bool, seed: &[u8]) -> (r: Option<Vec<u8>>)
    ensures
        bytes_view(r) == bip32_master_key(mainnet, seed@),
        r matches Some(k) ==> k@.len() == EXTENDED_KEY_LEN && k@.take(4) == private_version(mainnet)
            && k@[4] == 0,
{
    let network = if mainnet { bitcoin::Network::Bitcoin } else { bitcoin::Network::Testnet };
    match ExtendedPrivKey::new_master(network, seed) {
        Ok(k) => Some(k.encode().to_vec()),
        Err(_) => None,
    }
}

/// Decodes a serialized extended private key (`ExtendedPrivKey::decode`),
/// derives its public key with `ExtendedPubKey::from_priv` and serializes it
/// (`ExtendedPubKey::encode`). Trusted: the result is `bip32_public_key(xprv)`;
/// when present, the private key was 78 bytes long, the public key is 78
/// bytes long, is of the private key's network (its version bytes follow the
/// private key's) and has the private key's depth.
#[verifier::external_body]
fn public_key_of(xprv: &[u8]) -> (r: Option<Vec<u8>>)
    ensures
        bytes_view(r) == bip32_public_key(xprv@),
        r matches Some(k) ==> xprv@.len() == EXTENDED_KEY_LEN && k@.len() == EXTENDED_KEY_LEN
            && k@[4] == xprv@[4] && (xprv@.take(4) == private_version(true) ==> k@.take(4)
            == public_version(true)) && (xprv@.take(4) == private_version(false) ==> k@.take(4)
            == public_version(false)),
{
    match ExtendedPrivKey::decode(xprv) {
        Ok(k) => Some(ExtendedPubKey::from_priv(&Secp256k1::new(), &k).encode().to_vec()),
        Err(_) => None,
    }
}

/// Decodes a serialized extended private key (`ExtendedPrivKey::decode`) and
/// takes its fingerprint (`ExtendedPrivKey::fingerprint`). Trusted: the result
/// is `bip32_fingerprint(xprv)` and is 4 bytes long when present.
#[verifier::external_body]
fn fingerprint_of(xprv: &[u8]) -> (r: Option<Vec<u8>>)
    ensures
        bytes_view(r) == bip32_fingerprint(xprv@),
        r matches Some(f) ==> f@.len() == 4,
{
    match ExtendedPrivKey::decode(xprv) {
        Ok(k) => Some(k.fingerprint(&Secp256k1::new())[..].to_vec()),
        Err(_) => None,
    }
}

/// Base58Check text of `data` (`bitcoin::util::base58::check_encode_slice`,
/// which is also how the extended keys display themselves). Trusted: the
/// result is `base58check(data)`.
#[verifier::external_body]
fn base58check_text(data: &[u8]) -> (r: String)
    ensures
        r@ == base58check(data@),
{
    bitcoin::util::base58::check_encode_slice(data)
}

/// `len` bytes from the thread-local random number generator
/// (`rand::thread_rng().fill_bytes`). Trusted: the result has `len` bytes;
/// nothing is stated of their values.
#[verifier::external_body]
fn random_bytes(len: usize) -> (r: Vec<u8>)
    ensures
        r@.len() == len,
{
    let mut r = vec![0u8; len];
    rand::thread_rng().fill_bytes(&mut r);
    r
}

/// The three texts shown for a master key.
pub struct MasterKeys {
    /// Base58Check text of the extended private key.
    pub xprv: String,
    /// Base58Check text of the extended public key.
    pub xpub: String,
    /// Lowercase hexadecimal text of the key fingerprint.
    pub fingerprint: String,
}

/// The texts of a master key, given the serialized private key, the
/// serialized public key and the fingerprint bytes.
pub fn render_master_keys(xprv: &[u8], xpub: &[u8], fingerprint: &[u8]) -> (m: MasterKeys)
    ensures
        m.xprv@ == base58check(xprv@),
        m.xpub@ == base58check(xpub@),
        m.fingerprint@ == hex_of(fingerprint@),
{
    MasterKeys {
        xprv: base58check_text(xprv),
        xpub: base58check_text(xpub),
        fingerprint: hex_lower(fingerprint),
    }
}

/// The texts of the master key made from `seed` for mainnet (`mainnet`) or
/// the test networks, when every step of the derivation succeeds.
pub open spec fn master_keys_spec(mainnet: bool, seed: Seq<u8>) -> Option<
    (Seq<char>, Seq<char>, Seq<char>),
> {
    match bip32_master_key(mainnet, seed) {
        None => None,
        Some(k) => match (bip32_public_key(k), bip32_fingerprint(k)) {
            (Some(p), Some(f)) => Some((base58check(k), base58check(p), hex_of(f))),
            _ => None,
        },
    }
}

/// The texts of a master-key triple, as a tuple.
pub open spec fn master_keys_view(m: MasterKeys) -> (Seq<char>, Seq<char>, Seq<char>) {
    (m.xprv@, m.xpub@, m.fingerprint@)
}

/// The serialized keys behind `m` are a master private key of the chosen
/// network made from `seed` and its public key, both of depth 0 and with the
/// version bytes of that network.
pub open spec fn master_key_shape(mainnet: bool, seed: Seq<u8>, m: MasterKeys) -> bool {
    exists|k: Seq<u8>, p: Seq<u8>|
        bip32_master_key(mainnet, seed) == Some(k) && bip32_public_key(k) == Some(p) && m.xprv@
            == base58check(k) && m.xpub@ == base58check(p) && k.take(4) == private_version(mainnet)
            && k[4] == 0 && p.take(4) == public_version(mainnet) && p[4] == 0
}

/// Makes the master key of `seed` for mainnet (`mainnet`) or the test
/// networks, and renders it.
pub fn master_keys_from_seed(mainnet: bool, seed: &[u8]) -> (r: Option<MasterKeys>)
    ensures
        match r {
            Some(m) => master_keys_spec(mainnet, seed@) == Some(master_keys_view(m))
                && master_key_shape(mainnet, seed@, m),
            None => master_keys_spec(mainnet, seed@) is None,
        },
{
    let xprv = match new_master_key(mainnet, seed) {
        Some(k) => k,
        None => return None,
    };
    let xpub = match public_key_of(xprv.as_slice()) {
        Some(p) => p,
        None => return None,
    };
    let fingerprint = match fingerprint_of(xprv.as_slice()) {
        Some(f) => f,
        None => return None,
    };
    let m = render_master_keys(xprv.as_slice(), xpub.as_slice(), fingerprint.as_slice());
    assert(private_version(mainnet) != private_version(!mainnet) && xprv@.take(4) == private_version(mainnet));
    assert(master_key_shape(mainnet, seed@, m));
    Some(m)
}

/// A mnemonic phrase and the master key of its seed.
pub struct GeneratedKeys {
    /// The BIP39 mnemonic phrase.
    pub mnemonic: String,
    /// The master key made from the phrase's seed (empty passphrase).
    pub keys: MasterKeys,
}

/// The phrase of `entropy` and the texts of the master key of its seed, when
/// every step succeeds.
pub open spec fn generated_keys_spec(mainnet: bool, entropy: Seq<u8>) -> Option<
    (Seq<char>, (Seq<char>, Seq<char>, Seq<char>)),
> {
    match bip39_phrase(entropy) {
        None => None,
        Some(phrase) => match bip39_seed(phrase) {
            None => None,
            Some(seed) => match master_keys_spec(mainnet, seed) {
                None => None,
                Some(t) => Some((phrase, t)),
            },
        },
    }
}

/// A generated phrase and key, as texts.
pub open spec fn generated_keys_view(g: GeneratedKeys) -> (Seq<char>, (Seq<char>, Seq<char>, Seq<char>)) {
    (g.mnemonic@, master_keys_view(g.keys))
}

/// Makes the mnemonic phrase of `entropy` and the master key of its seed for
/// mainnet (`mainnet`) or the test networks.
pub fn keys_from_entropy(mainnet: bool, entropy: &[u8]) -> (r: Option<GeneratedKeys>)
    ensures
        match r {
            Some(g) => generated_keys_spec(mainnet, entropy@) == Some(generated_keys_view(g))
                && master_key_shape(mainnet, bip39_seed(g.mnemonic@).unwrap(), g.keys),
            None => generated_keys_spec(mainnet, entropy@) is None,
        },
        bip39_entropy_len_ok(entropy@.len()) ==> bip39_phrase(entropy@) is Some,
{
    let mnemonic = match mnemonic_phrase(entropy) {
        Some(p) => p,
        None => return None,
    };
    let seed = match mnemonic_seed(mnemonic.as_str()) {
        Some(s) => s,
        None => return None,
    };
    match master_keys_from_seed(mainnet, seed.as_slice()) {
        Some(keys) => Some(GeneratedKeys { mnemonic, keys }),
        None => None,
    }
}

/// Makes a fresh mnemonic phrase from `ENTROPY_LEN` random bytes and the
/// master key of its seed, for mainnet (`mainnet`) or the test networks.
pub fn generate_keys(mainnet: bool) -> (r: Option<GeneratedKeys>)
    ensures
        exists|entropy: Seq<u8>|
            entropy.len() == ENTROPY_LEN && bip39_phrase(entropy) is Some && match r {
                Some(g) => generated_keys_spec(mainnet, entropy) == Some(generated_keys_view(g)),
                None => generated_keys_spec(mainnet, entropy) is None,
            },
        r matches Some(g) ==> master_key_shape(mainnet, bip39_seed(g.mnemonic@).unwrap(), g.keys),
{
    let entropy = random_bytes(ENTROPY_LEN);
    let r = keys_from_entropy(mainnet, entropy.as_slice());
    assert(entropy@.len() == ENTROPY_LEN);
    r
}

/// Script type of the descriptor a new wallet is built on.
#[derive(Clone, Copy, Debug, PartialEq, Eq, Structural)]
pub enum DescriptorType {
    /// Pay-to-witness-public-key-hash.
    Wpkh,
    /// Taproot (key path with tapret commitments).
    Tr,
}

/// The descriptor type named by the `--desc` option: `taproot` gives
/// `Tr`, any other text gives `Wpkh`.
pub open spec fn descriptor_type_spec(name: Seq<char>) -> DescriptorType {
    if name == "taproot"@ {
        DescriptorType::Tr
    } else {
        DescriptorType::Wpkh
    }
}

/// The descriptor type named by the `--desc` option.
pub fn descriptor_type_for(name: &str) -> (d: DescriptorType)
    ensures
        d == descriptor_type_spec(name@),
{
    if same_text(name, "taproot") {
        DescriptorType::Tr
    } else {
        DescriptorType::Wpkh
    }
}

/// The RGB form of an account descriptor: each `/*/*` (any keychain, any
/// index) becomes `/<0;1;9;10>/*` (the four keychains an RGB wallet uses).
pub open spec fn rgb_derivation_spec(account: Seq<char>) -> Seq<char> {
    replaced(account, "/*/*"@, "/<0;1;9;10>/*"@)
}

/// Rewrites an account descriptor into its RGB form.
pub fn rgb_derivation(account: &str) -> (r: String)
    ensures
        r@ == rgb_derivation_spec(account@),
{
    proof {
        reveal_strlit("/*/*");
    }
    replace_all(account, "/*/*", "/<0;1;9;10>/*")
}

} // verus!
