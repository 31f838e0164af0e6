//! The validator registry and the relay a node dials through.

use crate::identity::{copy_peer, peer_view, public_view, PeerId, Public};
use crate::search::{first_index, lemma_first_index_is};
use vstd::prelude::*;
use vstd::string::*;

verus! {

/// A registry entry: who validates, through which relay, into which
/// wallet, and how many rounds it waits before it may lead again.
#[derive(Debug, PartialEq, Eq)]
pub struct Validator {
    pub peerid: PeerId,
    pub relay: PeerId,
    pub wallet: Public,
    pub waiting: u64,
}

/// The view of a [`Validator`].
pub struct ValidatorView {
    pub peerid: Seq<char>,
    pub relay: Seq<char>,
    pub wallet: Seq<u8>,
    pub waiting: u64,
}

impl DeepView for Validator {
    type V = ValidatorView;

    open spec fn deep_view(&self) -> ValidatorView {
        ValidatorView {
            peerid: self.peerid@,
            relay: self.relay@,
            wallet: self.wallet@,
            waiting: self.waiting,
        }
    }
}

impl View for Validator {
    type V = ValidatorView;

    open spec fn view(&self) -> ValidatorView {
        self.deep_view()
    }
}

impl Clone for Validator {
    fn clone(&self) -> (r: Self)
        ensures
            r@ == self@,
    {
        Validator {
            peerid: self.peerid.clone(),
            relay: self.relay.clone(),
            wallet: self.wallet,
            waiting: self.waiting,
        }
    }
}

/// The peers of the registry entries, in order.
pub open spec fn validator_peers(validators: Seq<ValidatorView>) -> Seq<Seq<char>> {
    validators.map_values(|v: ValidatorView| v.peerid)
}

/// The waits of the registry entries, in order.
pub open spec fn validator_waits(validators: Seq<ValidatorView>) -> Seq<u64> {
    validators.map_values(|v: ValidatorView| v.waiting)
}

/// Copies a registry.
pub fn copy_validators(validators: &Vec<Validator>) -> (r: Vec<Validator>)
    ensures
        r.deep_view() == validators.deep_view(),
{
    let r = validators.clone();
    assert(r.deep_view() =~= validators.deep_view());
    r
}

impl Validator {
    /// The entry of a validator that joins a registry of `count` entries:
    /// it waits as many rounds as there are validators already; a count
    /// beyond `u64` counts as `u64::MAX`.
    pub open spec fn spec_new(peerid: Seq<char>, relay: Seq<char>, wallet: Seq<u8>, count: nat) -> ValidatorView {
        ValidatorView {
            peerid,
            relay,
            wallet,
            waiting: if count <= u64::MAX {
                count as u64
            } else {
                u64::MAX
            },
        }
    }

    /// The entry of a validator that joins the registry.
    pub fn new(validators: &Vec<Validator>, peerid: PeerId, relay: PeerId, wallet: Public) -> (r: Self)
        ensures
            r@ == Validator::spec_new(peerid@, relay@, wallet@, validators.len() as nat),
    {
        let count = validators.len();
        let waiting: u64 = if count as u128 <= u64::MAX as u128 {
            count as u64
        } else {
            u64::MAX
        };
        Validator { peerid, relay, wallet, waiting }
    }
}

/// The relay a node is connected through.
#[derive(Debug, PartialEq, Eq)]
pub struct Relay {
    pub peerid: Option<PeerId>,
    pub wallet: Option<Public>,
    pub addr: String,
}

/// The view of a [`Relay`].
pub struct RelayView {
    pub peerid: Option<Seq<char>>,
    pub wallet: Option<Seq<u8>>,
    pub addr: Seq<char>,
}

impl DeepView for Relay {
    type V = RelayView;

    open spec fn deep_view(&self) -> RelayView {
        RelayView {
            peerid: peer_view(self.peerid),
            wallet: public_view(self.wallet),
            addr: self.addr@,
        }
    }
}

impl View for Relay {
    type V = RelayView;

    open spec fn view(&self) -> RelayView {
        self.deep_view()
    }
}

impl Clone for Relay {
    fn clone(&self) -> (r: Self)
        ensures
            r@ == self@,
    {
        Relay { peerid: copy_peer(&self.peerid), wallet: self.wallet, addr: self.addr.clone() }
    }
}

impl Relay {
    /// A relay as it is known before or after the connection stands.
    pub fn new(peerid: Option<PeerId>, wallet: Option<Public>, addr: String) -> (r: Self)
        ensures
            r@ == (RelayView { peerid: peer_view(peerid), wallet: public_view(wallet), addr: addr@ }),
    {
        Relay { peerid, wallet, addr }
    }

    /// What an update makes of a relay: each part that is given replaces
    /// the one that was known.
    pub open spec fn spec_update(
        r: RelayView,
        peerid: Option<Seq<char>>,
        wallet: Option<Seq<u8>>,
    ) -> RelayView {
        RelayView {
            peerid: if peerid is Some {
                peerid
            } else {
                r.peerid
            },
            wallet: if wallet is Some {
                wallet
            } else {
                r.wallet
            },
            addr: r.addr,
        }
    }

    /// Records what has been learnt of the relay: its peer once the
    /// connection stands, its wallet once it has answered the handshake.
    pub fn update(&mut self, peerid: Option<PeerId>, wallet: Option<Public>)
        ensures
            final(self)@ == Relay::spec_update(old(self)@, peer_view(peerid), public_view(wallet)),
    {
        if let Some(p) = peerid {
            self.peerid = Some(p);
        }
        if let Some(w) = wallet {
            self.wallet = Some(w);
        }
    }

    /// The host of a relay address: what stands between the leading
    /// `/ip4/` and the next `/` or the end; `None` where the address
    /// does not begin so, or names no host.
    pub open spec fn spec_host(addr: Seq<char>) -> Option<Seq<char>> {
        if addr.len() >= 5 && addr[0] == '/' && addr[1] == 'i' && addr[2] == 'p' && addr[3] == '4'
            && addr[4] == '/' {
            let rest = addr.skip(5);
            let end = first_index(rest, '/');
            if end == 0 {
                None
            } else {
                Some(rest.take(end))
            }
        } else {
            None
        }
    }

    /// Reads the host out of the relay's address.
    pub fn host(&self) -> (r: Option<String>)
        ensures
            match Relay::spec_host(self@.addr) {
                Some(h) => r is Some && r->0@ == h,
                None => r is None,
            },
    {
        let s = self.addr.as_str();
        let n = s.unicode_len();
        if n < 5 {
            return None;
        }
        if !(s.get_char(0) == '/' && s.get_char(1) == 'i' && s.get_char(2) == 'p' && s.get_char(3)
            == '4' && s.get_char(4) == '/') {
            return None;
        }
        let ghost rest = self.addr@.skip(5);
        let mut host = String::new();
        let mut i: usize = 5;
        let mut open = true;
        while i < n && open
            invariant
                5 <= i <= n,
                n == self.addr@.len(),
                s@ == self.addr@,
                rest == self.addr@.skip(5),
                forall|j: int| 0 <= j < i - 5 ==> rest[j] != '/',
                host@ == rest.take(i - 5),
                !open ==> i < n && rest[i - 5] == '/',
            decreases n - i, (if open { 1int } else { 0int }),
        {
            let c = s.get_char(i);
            assert(rest[i - 5] == c);
            if c == '/' {
                open = false;
            } else {
                host.push(c);
                assert(host@ =~= rest.take(i - 5 + 1));
                i += 1;
            }
        }
        proof {
            lemma_first_index_is(rest, '/', i - 5);
        }
        if i == 5 {
            None
        } else {
            Some(host)
        }
    }

    /// The address of a service of the relay at `host`: the relay serves
    /// plain HTTP on port 33369.
    pub open spec fn spec_url(host: Seq<char>, path: Seq<char>) -> Seq<char> {
        "http://"@ + host + ":33369"@ + path
    }

    /// Builds the address of the relay's service at `path`.
    pub fn url(host: &String, path: &str) -> (r: String)
        ensures
            r@ == Relay::spec_url(host@, path@),
    {
        let mut r = String::from_str("http://");
        r.append(host.as_str());
        r.append(":33369");
        r.append(path);
        r
    }

    /// Tells whether `source` is this relay's peer.
    pub fn is_peer(&self, source: &PeerId) -> (r: bool)
        ensures
            r == (self@.peerid == Some(source@)),
    {
        match &self.peerid {
            Some(p) => p.same(source),
            None => false,
        }
    }
}

} // verus!
