//! The block reward, a function of the height alone.

use crate::amount::{Amount, LEDGER_SCALE};
use crate::block::{tip_view, Block, BlockView};
use vstd::prelude::*;

verus! {

/// The reward of the first blocks: fifty, at the ledger's precision.
pub const INITIAL_REWARD: u64 = 50_000_000_000_000;

/// The count of blocks after which the reward halves.
pub const HALVING_INTERVAL: u64 = 210_000;

/// `m` halved `n` times, each time rounding down.
pub open spec fn halved(m: nat, n: nat) -> nat
    decreases n,
{
    if n == 0 {
        m
    } else {
        halved(m / 2, (n - 1) as nat)
    }
}

/// Halving nothing gives nothing.
pub proof fn lemma_halved_zero(n: nat)
    ensures
        halved(0, n) == 0,
    decreases n,
{
    if n > 0 {
        lemma_halved_zero((n - 1) as nat);
    }
}

/// Computes rewards.
pub struct Reward;

impl Reward {
    /// The height of the block that follows the tip: one more than the
    /// tip's number, or one on an empty chain. The count stops at
    /// `u64::MAX`.
    pub open spec fn next_height(tip: Option<BlockView>) -> u64 {
        match tip {
            Some(b) => if b.header.number < u64::MAX {
                (b.header.number + 1) as u64
            } else {
                u64::MAX
            },
            None => 1,
        }
    }

    /// The reward of the block at `height`: the initial reward, halved
    /// once for every full interval of blocks before it.
    pub open spec fn spec_at(height: u64) -> Amount {
        let halvings = if height == 0 {
            0nat
        } else {
            ((height - 1) / HALVING_INTERVAL as int) as nat
        };
        Amount { mantissa: halved(INITIAL_REWARD as nat, halvings) as i128, scale: LEDGER_SCALE }
    }

    /// The reward of the block at `height`.
    pub fn at(height: u64) -> (r: Amount)
        ensures
            r == Reward::spec_at(height),
            r.wf(),
            r.mantissa >= 0,
    {
        let halvings: u64 = if height == 0 {
            0
        } else {
            (height - 1) / HALVING_INTERVAL
        };
        let mut m: u64 = INITIAL_REWARD;
        let mut n: u64 = 0;
        while n < halvings && m > 0
            invariant
                n <= halvings,
                m <= INITIAL_REWARD,
                halved(m as nat, (halvings - n) as nat) == halved(
                    INITIAL_REWARD as nat,
                    halvings as nat,
                ),
            decreases halvings - n,
        {
            m = m / 2;
            n += 1;
        }
        proof {
            if m == 0 {
                lemma_halved_zero((halvings - n) as nat);
            }
        }
        Amount { mantissa: m as i128, scale: LEDGER_SCALE }
    }

    /// The reward of the block that follows the tip.
    pub fn calculate(last_block: &Option<Block>) -> (r: Amount)
        ensures
            r == Reward::spec_at(Reward::next_height(tip_view(*last_block))),
            r.wf(),
            r.mantissa >= 0,
    {
        let height: u64 = match last_block {
            Some(b) => if b.header.number < u64::MAX {
                b.header.number + 1
            } else {
                u64::MAX
            },
            None => 1,
        };
        Reward::at(height)
    }
}

} // verus!
