//! Block headers.

use crate::block::{Block, BlockView, Body, BodyView};
use crate::hashing::hash_of;
use crate::identity::{ed25519_signed, PeerId, Public, Sign, SignView};
use crate::merkel::MerkelRoot;
use vstd::prelude::*;
use vstd::string::*;

verus! {

/// The head of a block: its place in the chain, who made it, and the
/// signature over the hash of its body.
#[derive(Debug, PartialEq, Eq)]
pub struct Header {
    pub number: u64,
    pub hash: String,
    pub previous: String,
    pub validator: PeerId,
    pub relay: PeerId,
    pub merkel: String,
    pub signature: Sign,
    pub date: String,
}

/// The view of a [`Header`].
pub struct HeaderView {
    pub number: u64,
    pub hash: Seq<char>,
    pub previous: Seq<char>,
    pub validator: Seq<char>,
    pub relay: Seq<char>,
    pub merkel: Seq<char>,
    pub signature: SignView,
    pub date: Seq<char>,
}

impl DeepView for Header {
    type V = HeaderView;

    open spec fn deep_view(&self) -> HeaderView {
        HeaderView {
            number: self.number,
            hash: self.hash@,
            previous: self.previous@,
            validator: self.validator@,
            relay: self.relay@,
            merkel: self.merkel@,
            signature: self.signature@,
            date: self.date@,
        }
    }
}

impl View for Header {
    type V = HeaderView;

    open spec fn view(&self) -> HeaderView {
        self.deep_view()
    }
}

impl Clone for Header {
    fn clone(&self) -> (r: Self)
        ensures
            r@ == self@,
    {
        Header {
            number: self.number,
            hash: self.hash.clone(),
            previous: self.previous.clone(),
            validator: self.validator.clone(),
            relay: self.relay.clone(),
            merkel: self.merkel.clone(),
            signature: self.signature,
            date: self.date.clone(),
        }
    }
}


/// What the first block names as its predecessor.
pub open spec fn genesis_marker() -> Seq<char> {
    "This Is The Genesis Block"@
}

/// The hash a block must name as its predecessor: that of the chain tip,
/// or the genesis marker on an empty chain.
pub open spec fn expected_previous(tip: Option<BlockView>) -> Seq<char> {
    match tip {
        Some(b) => b.header.hash,
        None => genesis_marker(),
    }
}

impl Header {
    /// The header of a block with `body` on top of `tip`, given the
    /// signature over the body's hash.
    pub open spec fn spec_new(
        wallet: Seq<u8>,
        body: BodyView,
        peerid: Seq<char>,
        relay_id: Seq<char>,
        signature: Seq<u8>,
        tip: Option<BlockView>,
        date: Seq<char>,
    ) -> HeaderView {
        HeaderView {
            number: crate::reward::Reward::next_height(tip),
            hash: Body::spec_hash(body),
            previous: expected_previous(tip),
            validator: peerid,
            relay: relay_id,
            merkel: hash_of(body.coinbase.hash + body.coinbase.merkel),
            signature: SignView { signature, key: wallet },
            date,
        }
    }

    /// Builds and signs the header of a block with `body` on top of
    /// `last_block`.
    ///
    /// The number is one more than the tip's, or one on an empty chain;
    /// `previous` is the tip's hash, or the genesis marker; the hash is
    /// that of the body, and the signature is made over it with the key
    /// pair of `private`. `None` where the seed phrase is rejected.
    pub fn new(
        wallet: &Public,
        body: &Body,
        peerid: &PeerId,
        relay_id: &PeerId,
        private: &String,
        last_block: &Option<Block>,
        date: String,
    ) -> (r: Option<Header>)
        ensures
            match ed25519_signed(private@, Body::spec_hash(body@)) {
                Some(signature) => r is Some && r->0@ == Header::spec_new(
                    wallet@,
                    body@,
                    peerid@,
                    relay_id@,
                    signature,
                    crate::block::tip_view(*last_block),
                    date@,
                ),
                None => r is None,
            },
    {
        let hash = body.hash();
        let merkel = MerkelRoot::pair(&body.coinbase.hash, &body.coinbase.merkel);
        let (number, previous): (u64, String) = match last_block {
            Some(b) => (
                if b.header.number < u64::MAX {
                    b.header.number + 1
                } else {
                    u64::MAX
                },
                b.header.hash.clone(),
            ),
            None => (1, String::from_str("This Is The Genesis Block")),
        };
        match Sign::make(private, &hash, wallet) {
            Some(signature) => Some(
                Header {
                    number,
                    hash,
                    previous,
                    validator: peerid.clone(),
                    relay: relay_id.clone(),
                    merkel,
                    signature,
                    date,
                },
            ),
            None => None,
        }
    }
}

} // verus!
