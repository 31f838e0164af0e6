//! Who is who on the network: peers, wallets and signatures.

use centichain_keypair::CentichainKey;
use sp_core::crypto::{Ss58AddressFormat, Ss58Codec};
use sp_core::Pair;
use vstd::prelude::*;

verus! {

/// A peer's network identity, in its text form.
#[derive(Debug, PartialEq, Eq)]
pub struct PeerId {
    pub id: String,
}

impl DeepView for PeerId {
    type V = Seq<char>;

    open spec fn deep_view(&self) -> Seq<char> {
        self.id@
    }
}

impl View for PeerId {
    type V = Seq<char>;

    open spec fn view(&self) -> Seq<char> {
        self.id@
    }
}

impl Clone for PeerId {
    fn clone(&self) -> (r: Self)
        ensures
            r@ == self@,
    {
        PeerId { id: self.id.clone() }
    }
}

impl PeerId {
    /// Wraps the text form of a peer's identity.
    pub fn new(id: String) -> (r: Self)
        ensures
            r@ == id@,
    {
        PeerId { id }
    }

    /// Tells whether two identities are the same peer.
    pub fn same(&self, other: &PeerId) -> (r: bool)
        ensures
            r == (self@ == other@),
    {
        self.id == other.id
    }
}

/// The view of an optional peer.
pub open spec fn peer_view(p: Option<PeerId>) -> Option<Seq<char>> {
    match p {
        Some(x) => Some(x@),
        None => None,
    }
}

/// Copies an optional peer.
pub fn copy_peer(p: &Option<PeerId>) -> (r: Option<PeerId>)
    ensures
        peer_view(r) == peer_view(*p),
{
    match p {
        Some(x) => Some(x.clone()),
        None => None,
    }
}

/// An ed25519 public key; it names a wallet.
#[derive(Clone, Copy, Debug, PartialEq, Eq)]
pub struct Public {
    pub bytes: [u8; 32],
}

impl DeepView for Public {
    type V = Seq<u8>;

    open spec fn deep_view(&self) -> Seq<u8> {
        self.bytes@
    }
}

impl View for Public {
    type V = Seq<u8>;

    open spec fn view(&self) -> Seq<u8> {
        self.bytes@
    }
}

impl Public {
    /// The wallet's address: the key in SS58 text.
    pub fn to_address(&self) -> (r: String)
        ensures
            r@ == ss58_text(self@),
    {
        ss58_encode(self)
    }

    /// Reads a wallet out of its address; `None` where the text is no
    /// SS58 address of a 32-byte key.
    pub fn parse(text: &String) -> (r: Option<Public>)
        ensures
            public_view(r) == ss58_key(text@),
    {
        ss58_decode(text)
    }

    /// Tells whether two keys are the same wallet.
    pub fn same(&self, other: &Public) -> (r: bool)
        ensures
            r == (self@ == other@),
    {
        let mut i: usize = 0;
        while i < 32
            invariant
                i <= 32,
                forall|j: int| 0 <= j < i ==> self.bytes@[j] == other.bytes@[j],
            decreases 32 - i,
        {
            if self.bytes[i] != other.bytes[i] {
                return false;
            }
            i += 1;
        }
        assert(self.bytes@ =~= other.bytes@);
        true
    }
}

/// An ed25519 signature.
#[derive(Clone, Copy, Debug, PartialEq, Eq)]
pub struct Signature {
    pub bytes: [u8; 64],
}

impl DeepView for Signature {
    type V = Seq<u8>;

    open spec fn deep_view(&self) -> Seq<u8> {
        self.bytes@
    }
}

impl View for Signature {
    type V = Seq<u8>;

    open spec fn view(&self) -> Seq<u8> {
        self.bytes@
    }
}

/// A signature with the key that is said to have made it.
#[derive(Clone, Copy, Debug, PartialEq, Eq)]
pub struct Sign {
    pub signature: Signature,
    pub key: Public,
}

/// The view of a [`Sign`].
pub struct SignView {
    pub signature: Seq<u8>,
    pub key: Seq<u8>,
}

impl DeepView for Sign {
    type V = SignView;

    open spec fn deep_view(&self) -> SignView {
        SignView { signature: self.signature@, key: self.key@ }
    }
}

impl View for Sign {
    type V = SignView;

    open spec fn view(&self) -> SignView {
        self.deep_view()
    }
}

/// Whether `sp_core`'s ed25519 `verify` accepts the signature for the
/// message under the key.
pub uninterp spec fn ed25519_accepts(signature: Seq<u8>, message: Seq<char>, key: Seq<u8>) -> bool;

/// The signature that `CentichainKey::signing` makes of the message with
/// the key pair of the seed phrase; `None` where it rejects the phrase.
pub uninterp spec fn ed25519_signed(seed_phrase: Seq<char>, message: Seq<char>) -> Option<Seq<u8>>;

/// The public key that `CentichainKey::check_phrase` derives from the seed
/// phrase; `None` where it rejects the phrase.
pub uninterp spec fn phrase_public(seed_phrase: Seq<char>) -> Option<Seq<u8>>;

/// The SS58 address that `sp_core` writes for a key, in the Substrate
/// account format.
pub uninterp spec fn ss58_text(key: Seq<u8>) -> Seq<char>;

/// The key that `sp_core` reads out of an SS58 address of any format;
/// `None` where the text is no address.
pub uninterp spec fn ss58_key(text: Seq<char>) -> Option<Seq<u8>>;

/// The bytes of an optional signature.
pub open spec fn signature_view(s: Option<Signature>) -> Option<Seq<u8>> {
    match s {
        Some(x) => Some(x@),
        None => None,
    }
}

/// The bytes of an optional key.
pub open spec fn public_view(k: Option<Public>) -> Option<Seq<u8>> {
    match k {
        Some(x) => Some(x@),
        None => None,
    }
}

impl Sign {
    /// What `verify` decides.
    pub open spec fn spec_verify(s: SignView, message: Seq<char>) -> bool {
        ed25519_accepts(s.signature, message, s.key)
    }

    /// Checks the signature over the message, as UTF-8 bytes, against the
    /// key it carries.
    pub fn verify(&self, message: &String) -> (ok: bool)
        ensures
            ok == Sign::spec_verify(self@, message@),
    {
        ed25519_verify(&self.signature, message, &self.key)
    }

    /// Signs the message with the key pair of a seed phrase and names the
    /// wallet as signer; `None` where the phrase is rejected.
    pub fn make(seed_phrase: &String, message: &String, wallet: &Public) -> (r: Option<Sign>)
        ensures
            r is Some <==> ed25519_signed(seed_phrase@, message@) is Some,
            r is Some ==> r->0@ == (SignView {
                signature: ed25519_signed(seed_phrase@, message@)->0,
                key: wallet@,
            }),
    {
        match ed25519_sign(seed_phrase, message) {
            Some(signature) => Some(Sign { signature, key: *wallet }),
            None => None,
        }
    }
}

/// Derives the wallet of a seed phrase; `None` where the phrase is rejected.
pub fn wallet_of_phrase(seed_phrase: &String) -> (r: Option<Public>)
    ensures
        public_view(r) == phrase_public(seed_phrase@),
{
    check_phrase(seed_phrase)
}

/// Calls `sp_core::ed25519::Pair::verify` on the raw signature, the
/// message's bytes and the raw key. The verdict is named.
#[verifier::external_body]
fn ed25519_verify(signature: &Signature, message: &String, key: &Public) -> (ok: bool)
    ensures
        ok == ed25519_accepts(signature@, message@, key@),
{
    let sig = sp_core::ed25519::Signature::from_raw(signature.bytes);
    let public = sp_core::ed25519::Public::from_raw(key.bytes);
    sp_core::ed25519::Pair::verify(&sig, message.as_bytes(), &public)
}

/// Calls `CentichainKey::signing`, which derives the ed25519 pair of the
/// phrase and signs the message's bytes; both steps are deterministic. The
/// signature is named.
#[verifier::external_body]
fn ed25519_sign(seed_phrase: &String, message: &String) -> (r: Option<Signature>)
    ensures
        signature_view(r) == ed25519_signed(seed_phrase@, message@),
{
    match CentichainKey::signing(seed_phrase, message) {
        Ok(signed) => Some(Signature { bytes: signed.0 }),
        Err(_) => None,
    }
}

/// Calls `to_ss58check_with_version` of `sp_core`'s `Ss58Codec` on the
/// raw key, with the Substrate account format 42. The text is named.
#[verifier::external_body]
fn ss58_encode(key: &Public) -> (r: String)
    ensures
        r@ == ss58_text(key@),
{
    sp_core::ed25519::Public::from_raw(key.bytes).to_ss58check_with_version(
        Ss58AddressFormat::custom(42),
    )
}

/// Calls `from_ss58check_with_version` of `sp_core`'s `Ss58Codec` and
/// drops the format it read. The key is named.
#[verifier::external_body]
fn ss58_decode(text: &String) -> (r: Option<Public>)
    ensures
        public_view(r) == ss58_key(text@),
{
    match sp_core::ed25519::Public::from_ss58check_with_version(text.as_str()) {
        Ok((public, _)) => Some(Public { bytes: public.0 }),
        Err(_) => None,
    }
}

/// Calls `CentichainKey::generate`, which draws a seed phrase at random
/// and derives its key as `check_phrase` does. Nothing is promised of the
/// phrase but that the key is its own.
#[verifier::external_body]
fn generate_pair() -> (r: (String, Public))
    ensures
        phrase_public(r.0@) == Some(r.1@),
{
    let (phrase, public) = CentichainKey::generate();
    (phrase, Public { bytes: public.0 })
}

/// Draws a new seed phrase and derives its wallet.
pub fn new_phrase() -> (r: (String, Public))
    ensures
        phrase_public(r.0@) == Some(r.1@),
{
    generate_pair()
}

/// Calls `CentichainKey::check_phrase`. The key is named.
#[verifier::external_body]
fn check_phrase(seed_phrase: &String) -> (r: Option<Public>)
    ensures
        public_view(r) == phrase_public(seed_phrase@),
{
    match CentichainKey::check_phrase(seed_phrase) {
        Ok(public) => Some(Public { bytes: public.0 }),
        Err(_) => None,
    }
}

} // verus!
