//! Memory amounts in display units.
//!
//! The metrics provider reports memory in bytes. The display speaks of
//! megabytes of 2^20 bytes each. A [`Megabytes`] value keeps the amount
//! exactly: its whole part and what is left over below one megabyte.

use crate::rounding::{round_half_even, rounded_quotient};
use vstd::prelude::*;

verus! {

/// The number of bytes in one megabyte: 1024 × 1024.
pub const BYTES_PER_MB: u64 = 1_048_576;

/// The width of the memory bar in character cells, brackets included.
pub const MEMORY_BAR_WIDTH: u64 = 20;

/// The whole number of megabytes nearest to `bytes`, ties to even.
pub open spec fn nearest_mb(bytes: nat) -> nat {
    round_half_even(bytes, BYTES_PER_MB as nat)
}

/// How many cells of the memory bar are filled: `floor(used * 20 / total)`.
/// The ratio of two amounts in megabytes is the ratio of their bytes. Of a
/// total of nothing, nothing is filled.
pub open spec fn fill_of(used: nat, total: nat) -> nat {
    if total == 0 {
        0
    } else {
        used * (MEMORY_BAR_WIDTH as nat) / total
    }
}

/// An amount of memory in megabytes, held without loss.
#[derive(Clone, Copy, Debug, PartialEq, Eq, Structural)]
pub struct Megabytes {
    bytes: u64,
}

impl Megabytes {
    /// The amount in bytes: the value in megabytes times `BYTES_PER_MB`.
    pub closed spec fn bytes_spec(self) -> nat {
        self.bytes as nat
    }

    /// Converts a byte count into megabytes.
    pub fn from_bytes(bytes: u64) -> (mb: Megabytes)
        ensures
            mb.bytes_spec() == bytes,
    {
        Megabytes { bytes }
    }

    /// The amount in bytes.
    pub fn bytes(&self) -> (b: u64)
        ensures
            b == self.bytes_spec(),
    {
        self.bytes
    }

    /// The whole megabytes in the amount.
    pub fn whole(&self) -> (w: u64)
        ensures
            w == self.bytes_spec() / (BYTES_PER_MB as nat),
    {
        self.bytes / BYTES_PER_MB
    }

    /// The bytes left over beyond the whole megabytes; zero exactly when the
    /// amount is a whole number of megabytes.
    pub fn remainder(&self) -> (r: u64)
        ensures
            r == self.bytes_spec() % (BYTES_PER_MB as nat),
            r < BYTES_PER_MB,
    {
        self.bytes % BYTES_PER_MB
    }

    /// The amount rounded to the nearest whole megabyte, ties to even.
    pub fn rounded(&self) -> (r: u64)
        ensures
            r == nearest_mb(self.bytes_spec()),
    {
        rounded_quotient(self.bytes, BYTES_PER_MB)
    }
}

/// The fill length of the memory bar for `used` out of `total`.
///
/// Nothing is clamped: with `used` above `total` the result exceeds the bar's
/// width, and the bar is overdrawn. With a `total` of zero the result is
/// zero.
pub fn memory_fill_len(used: Megabytes, total: Megabytes) -> (fill: u128)
    ensures
        fill == fill_of(used.bytes_spec(), total.bytes_spec()),
        used.bytes_spec() <= total.bytes_spec() ==> fill <= MEMORY_BAR_WIDTH,
{
    let u: u128 = used.bytes as u128;
    let t: u128 = total.bytes as u128;
    proof {
        lemma_fill_bounds(used.bytes_spec(), total.bytes_spec());
    }
    if t == 0 {
        0
    } else {
        u * 20 / t
    }
}

/// For `0 <= used <= total` the fill length lies in `[0, 20]`. It is 0 when
/// `used == 0`, and 20 when `used == total` and there is any memory at all.
pub proof fn lemma_fill_bounds(used: nat, total: nat)
    ensures
        used <= total ==> fill_of(used, total) <= MEMORY_BAR_WIDTH,
        used == total && total > 0 ==> fill_of(used, total) == MEMORY_BAR_WIDTH,
        used == 0 ==> fill_of(used, total) == 0,
{
    if total > 0 {
        if used <= total {
            assert(used * 20 / total <= 20) by (nonlinear_arith)
                requires
                    used <= total,
                    total > 0,
            ;
        }
        if used == total {
            assert(total * 20 / total == 20) by (nonlinear_arith)
                requires
                    total > 0,
            ;
        }
        if used == 0 {
            assert(0 * 20 / total == 0) by (nonlinear_arith)
                requires
                    total > 0,
            ;
        }
    }
}

} // verus!
