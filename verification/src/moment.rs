//! What the outside world adds to one event: the time and some chance.

use chrono::SubsecRound;
use vstd::prelude::*;

verus! {

/// The time of an event and the random numbers it may use. Handlers take
/// it as an argument, so what they do is fixed by what they are given.
#[derive(Debug, PartialEq, Eq)]
pub struct Moment {
    /// Seconds since the Unix epoch.
    pub now: i64,
    /// The date as it is written into blocks.
    pub date: String,
    /// Salts for the outputs of a coinbase.
    pub salts: (u32, u32, u32),
    /// The draw by which the next leader is picked.
    pub draw: u32,
}

impl Moment {
    /// A moment of the given parts.
    pub fn new(now: i64, date: String, salts: (u32, u32, u32), draw: u32) -> (r: Self)
        ensures
            r.now == now,
            r.date@ == date@,
            r.salts == salts,
            r.draw == draw,
    {
        Moment { now, date, salts, draw }
    }

    /// Reads the clock and draws the random numbers.
    pub fn capture() -> Moment {
        let (now, date) = clock();
        let a = random_number();
        let b = random_number();
        let c = random_number();
        let draw = random_number();
        Moment { now, date, salts: (a, b, c), draw }
    }
}

/// Calls `chrono::Utc::now`, rounded to whole seconds: the seconds since
/// the epoch and the date's text. Nothing is promised of the time.
#[verifier::external_body]
fn clock() -> (r: (i64, String)) {
    let t = chrono::Utc::now().round_subsecs(0);
    (t.timestamp(), t.to_string())
}

/// Calls `rand::random` for a `u32`. Nothing is promised of the number.
#[verifier::external_body]
fn random_number() -> (r: u32) {
    rand::random::<u32>()
}

} // verus!
