//! Stateful optimizer accumulator: an efficiency level that boosts raise
//! (capped at 100), a count of boosts, and a formatted status report.

use vstd::prelude::*;
use vstd::string::StringExecFns;
use crate::text::centi_string;
use crate::text::dec_digits;
use crate::text::format_centi;
use crate::text::u64_to_dec_string;

verus! {

/// Tracks cumulative boosts. The efficiency level is a fixed-point value in
/// hundredths of a percent; the count says how many boosts were applied since
/// the last reset. Both fields are free for callers to read or overwrite.
pub struct SystemOptimizer {
    pub efficiency_level: i64,
    pub optimization_count: u64,
}

/// The efficiency level after a boost: the old level plus the factor, capped
/// at 100 from above. There is no cap from below, so a negative factor can
/// drive the level negative; only at the lowest representable fixed-point
/// value does the level saturate.
pub open spec fn boosted_level(level: int, factor: int) -> int {
    let capped = if level + factor > 10000 {
        10000
    } else {
        level + factor
    };
    if capped < i64::MIN as int {
        i64::MIN as int
    } else {
        capped
    }
}

impl SystemOptimizer {
    /// A fresh accumulator with level and count both zero.
    pub fn new() -> (r: SystemOptimizer)
        ensures
            r.efficiency_level == 0,
            r.optimization_count == 0,
    {
        SystemOptimizer { efficiency_level: 0, optimization_count: 0 }
    }

    /// Raises the efficiency level by `boost_factor` (hundredths of a
    /// percent), capping it at 100, counts the boost, and returns the new
    /// level.
    pub fn boost_performance(&mut self, boost_factor: i64) -> (r: i64)
        requires
            old(self).optimization_count < u64::MAX,
        ensures
            final(self).efficiency_level == boosted_level(
                old(self).efficiency_level as int,
                boost_factor as int,
            ),
            final(self).optimization_count == old(self).optimization_count + 1,
            r == final(self).efficiency_level,
    {
        let raised: i128 = self.efficiency_level as i128 + boost_factor as i128;
        let capped: i128 = if raised > 10000 {
            10000
        } else {
            raised
        };
        let level: i64 = if capped < i64::MIN as i128 {
            i64::MIN
        } else {
            capped as i64
        };
        self.efficiency_level = level;
        self.optimization_count = self.optimization_count + 1;
        level
    }

    /// Puts the accumulator back in its initial state: level and count zero.
    pub fn reset_optimizer(&mut self)
        ensures
            final(self).efficiency_level == 0,
            final(self).optimization_count == 0,
    {
        self.efficiency_level = 0;
        self.optimization_count = 0;
    }

    /// The status report as a character sequence: the efficiency level with
    /// two decimal places, then the boost count.
    pub open spec fn status_seq(self) -> Seq<char> {
        "Efficiency: "@ + centi_string(self.efficiency_level as int) + "%, Optimizations: "@
            + dec_digits(self.optimization_count as int)
    }

    /// Formats the status report, e.g. `Efficiency: 42.50%, Optimizations: 3`.
    pub fn get_status(&self) -> (r: String)
        ensures
            r@ == self.status_seq(),
    {
        let mut r: String = "Efficiency: ".to_owned();
        let level = format_centi(self.efficiency_level);
        r.append(level.as_str());
        r.append("%, Optimizations: ");
        let count = u64_to_dec_string(self.optimization_count);
        r.append(count.as_str());
        assert(r@ =~= self.status_seq());
        r
    }
}

/// A reset wipes out whatever any sequence of boosts did: an accumulator
/// whose level and count are back at zero reports exactly the status of a
/// fresh one, `Efficiency: 0.00%, Optimizations: 0`.
pub proof fn lemma_reset_restores_initial_status(s: SystemOptimizer)
    requires
        s.efficiency_level == 0,
        s.optimization_count == 0,
    ensures
        s.status_seq() == "Efficiency: 0.00%, Optimizations: 0"@,
{
    reveal_strlit("Efficiency: ");
    reveal_strlit("%, Optimizations: ");
    reveal_strlit("Efficiency: 0.00%, Optimizations: 0");
    assert(s.status_seq() =~= "Efficiency: 0.00%, Optimizations: 0"@);
}

} // verus!
