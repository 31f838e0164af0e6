//! The relays a node may dial.

use crate::validator::{Relay, RelayView};
use vstd::prelude::*;
use vstd::string::*;

verus! {

/// One relay address of the directory's answer.
#[derive(Debug, PartialEq, Eq)]
pub struct Address {
    pub addr: String,
}

/// The directory's answer to a request for relays.
#[derive(Debug, PartialEq, Eq)]
pub struct Addresses {
    pub status: String,
    pub data: Vec<Address>,
}

/// Why no relay can be dialled.
#[derive(Clone, Copy, Debug, PartialEq, Eq, Structural)]
pub enum AddressError {
    /// The directory knows of no relay.
    NoRelays,
    /// The directory gave no answer.
    NoAnswer,
}

/// The addresses of the directory's answer, in order.
pub open spec fn address_texts(data: Seq<Address>) -> Seq<Seq<char>> {
    data.map_values(|a: Address| a.addr@)
}

/// The relays at the addresses: nothing but the address is known of each.
pub open spec fn relays_at(addresses: Seq<Seq<char>>) -> Seq<RelayView> {
    addresses.map_values(|a: Seq<char>| RelayView { peerid: None, wallet: None, addr: a })
}

impl Addresses {
    /// What the directory's answer gives: a relay for each address, or
    /// `NoRelays` where the answer is no success or names none.
    pub open spec fn spec_get(status: Seq<char>, data: Seq<Seq<char>>) -> Result<
        Seq<RelayView>,
        AddressError,
    > {
        if status == "success"@ && data.len() > 0 {
            Ok(relays_at(data))
        } else {
            Err(AddressError::NoRelays)
        }
    }

    /// Reads the relays out of the directory's answer.
    pub fn get(&self) -> (r: Result<Vec<Relay>, AddressError>)
        ensures
            match Addresses::spec_get(self.status@, address_texts(self.data@)) {
                Ok(relays) => r is Ok && r->Ok_0.deep_view() == relays,
                Err(e) => r == Err::<Vec<Relay>, AddressError>(e),
            },
    {
        let success = String::from_str("success");
        if !(self.status == success) || self.data.len() == 0 {
            return Err(AddressError::NoRelays);
        }
        let ghost texts = address_texts(self.data@);
        let mut relays: Vec<Relay> = Vec::new();
        let mut i: usize = 0;
        while i < self.data.len()
            invariant
                i <= self.data.len(),
                texts == address_texts(self.data@),
                relays.deep_view() =~= relays_at(texts).take(i as int),
            decreases self.data.len() - i,
        {
            let ghost before = relays.deep_view();
            let relay = Relay::new(None, None, self.data[i].addr.clone());
            assert(relay@ == relays_at(texts)[i as int]);
            relays.push(relay);
            assert(relays.deep_view() =~= before.push(relay@));
            i += 1;
        }
        assert(relays.deep_view() =~= relays_at(texts));
        Ok(relays)
    }

    /// The relay the draw picks, and the relays that are left: the one at
    /// place `draw` modulo their count leaves the list.
    pub open spec fn spec_contacting(relays: Seq<RelayView>, draw: u32) -> Option<
        (RelayView, Seq<RelayView>),
    > {
        if relays.len() == 0 {
            None
        } else {
            let at = draw as int % relays.len() as int;
            Some((relays[at], relays.remove(at)))
        }
    }

    /// Picks the relay to dial out of the known ones, and strikes it off
    /// the list; `None` where none is known.
    pub fn contacting(relays: &mut Vec<Relay>, draw: u32) -> (r: Option<Relay>)
        ensures
            match Addresses::spec_contacting(old(relays).deep_view(), draw) {
                Some(picked) => r is Some && r->0@ == picked.0 && final(relays).deep_view()
                    == picked.1,
                None => r is None && *final(relays) == *old(relays),
            },
    {
        if relays.len() == 0 {
            return None;
        }
        let at = (draw as usize) % relays.len();
        let ghost before = relays.deep_view();
        let relay = relays.remove(at);
        assert(relays.deep_view() =~= before.remove(at as int));
        assert(relay@ == before[at as int]);
        Some(relay)
    }

    /// What finding a relay decides: the relay to dial and the relays
    /// that are left, or why there is none.
    pub open spec fn spec_contact(
        relays: Seq<RelayView>,
        fetched: Option<(Seq<char>, Seq<Seq<char>>)>,
        draw: u32,
    ) -> Result<(RelayView, Seq<RelayView>), AddressError> {
        if relays.len() > 0 {
            Ok(Addresses::spec_contacting(relays, draw)->0)
        } else {
            match fetched {
                None => Err(AddressError::NoAnswer),
                Some(answer) => match Addresses::spec_get(answer.0, answer.1) {
                    Err(e) => Err(e),
                    Ok(found) => Ok(Addresses::spec_contacting(found, draw)->0),
                },
            }
        }
    }

    /// The status and addresses of an answer, where there is one.
    pub open spec fn answer_view(fetched: Option<Addresses>) -> Option<(Seq<char>, Seq<Seq<char>>)> {
        match fetched {
            Some(a) => Some((a.status@, address_texts(a.data@))),
            None => None,
        }
    }

    /// Finds a relay to dial. Where relays are known, one of them is
    /// picked. Where none is known, the directory's answer supplies them:
    /// `NoAnswer` where there is none, `NoRelays` where it names none.
    /// On an error the list stays as it was.
    pub fn contact(relays: &mut Vec<Relay>, fetched: Option<Addresses>, draw: u32) -> (r: Result<
        Relay,
        AddressError,
    >)
        ensures
            match Addresses::spec_contact(
                old(relays).deep_view(),
                Addresses::answer_view(fetched),
                draw,
            ) {
                Ok(picked) => {
                    &&& r is Ok
                    &&& r->Ok_0@ == picked.0
                    &&& final(relays).deep_view() == picked.1
                },
                Err(e) => r == Err::<Relay, AddressError>(e) && *final(relays) == *old(relays),
            },
    {
        if relays.len() == 0 {
            match fetched {
                None => {
                    return Err(AddressError::NoAnswer);
                },
                Some(answer) => {
                    match answer.get() {
                        Ok(found) => {
                            *relays = found;
                        },
                        Err(e) => {
                            return Err(e);
                        },
                    }
                },
            }
        }
        match Addresses::contacting(relays, draw) {
            Some(relay) => Ok(relay),
            None => Err(AddressError::NoRelays),
        }
    }
}

} // verus!
