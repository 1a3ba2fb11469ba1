//! The period policy: every constant that depends on the ranking horizon.

use vstd::prelude::*;
use crate::ratio::Ratio;

verus! {

/// Milliseconds in one hour; the width of one histogram bucket.
pub const HOUR_MS: u64 = 3_600_000;

/// The ranking horizon of a scoring instance.
#[derive(Clone, Copy, Debug, PartialEq, Eq, Structural)]
pub enum PeriodType {
    Daily,
    Weekly,
    Monthly,
    Yearly,
}

/// The four scoring weights of a period, in tenths.
#[derive(Clone, Copy, Debug, PartialEq, Eq, Structural)]
pub struct ScoreWeights {
    pub view: u8,
    pub unique: u8,
    pub growth: u8,
    pub momentum: u8,
}

impl PeriodType {
    pub open spec fn spec_from_code(code: u8) -> PeriodType {
        if code == 1 {
            PeriodType::Weekly
        } else if code == 2 {
            PeriodType::Monthly
        } else if code == 3 {
            PeriodType::Yearly
        } else {
            PeriodType::Daily
        }
    }

    /// Length of the active period in hours.
    pub open spec fn spec_lookback_hours(self) -> int {
        match self {
            PeriodType::Daily => 24,
            PeriodType::Weekly => 168,
            PeriodType::Monthly => 720,
            PeriodType::Yearly => 8760,
        }
    }

    /// Width in hours of each of the two sub-windows compared for growth.
    pub open spec fn spec_comparison_hours(self) -> int {
        match self {
            PeriodType::Daily => 4,
            PeriodType::Weekly => 24,
            PeriodType::Monthly => 72,
            PeriodType::Yearly => 168,
        }
    }

    /// Hourly decay rate in thousandths, as used by the counter strategies.
    pub open spec fn spec_decay_permille(self) -> int {
        match self {
            PeriodType::Daily => 100,
            PeriodType::Weekly => 50,
            PeriodType::Monthly => 20,
            PeriodType::Yearly => 5,
        }
    }

    /// Hourly decay rate in thousandths, as used by the freshness step.
    pub open spec fn spec_freshness_decay_permille(self) -> int {
        match self {
            PeriodType::Yearly => 10,
            _ => self.spec_decay_permille(),
        }
    }

    /// Momentum weight in tenths.
    pub open spec fn spec_momentum_tenths(self) -> int {
        match self {
            PeriodType::Daily => 20,
            PeriodType::Weekly => 15,
            PeriodType::Monthly => 10,
            PeriodType::Yearly => 5,
        }
    }

    /// Diversity weight in tenths.
    pub open spec fn spec_diversity_tenths(self) -> int {
        match self {
            PeriodType::Daily => 15,
            PeriodType::Weekly => 18,
            PeriodType::Monthly => 20,
            PeriodType::Yearly => 25,
        }
    }

    pub open spec fn spec_weights(self) -> ScoreWeights {
        match self {
            PeriodType::Daily => ScoreWeights { view: 4, unique: 3, growth: 2, momentum: 1 },
            PeriodType::Weekly => ScoreWeights { view: 3, unique: 3, growth: 3, momentum: 1 },
            PeriodType::Monthly => ScoreWeights { view: 2, unique: 3, growth: 4, momentum: 1 },
            PeriodType::Yearly => ScoreWeights { view: 1, unique: 3, growth: 5, momentum: 1 },
        }
    }

    /// First instant of the active period that ends at `now`, never before
    /// the epoch.
    pub open spec fn spec_period_start(self, now: u64) -> int {
        let back = self.spec_lookback_hours() * HOUR_MS;
        if now >= back {
            now - back
        } else {
            0
        }
    }

    /// Decodes a period code; any code other than 1, 2 or 3 selects the
    /// daily policy.
    pub fn from_code(code: u8) -> (p: PeriodType)
        ensures
            p == Self::spec_from_code(code),
    {
        match code {
            1 => PeriodType::Weekly,
            2 => PeriodType::Monthly,
            3 => PeriodType::Yearly,
            _ => PeriodType::Daily,
        }
    }

    pub fn lookback_ms(&self) -> (ms: u64)
        ensures
            ms == self.spec_lookback_hours() * HOUR_MS,
    {
        match self {
            PeriodType::Daily => 24 * HOUR_MS,
            PeriodType::Weekly => 168 * HOUR_MS,
            PeriodType::Monthly => 720 * HOUR_MS,
            PeriodType::Yearly => 8760 * HOUR_MS,
        }
    }

    pub fn comparison_hours(&self) -> (w: u64)
        ensures
            w == self.spec_comparison_hours(),
    {
        match self {
            PeriodType::Daily => 4,
            PeriodType::Weekly => 24,
            PeriodType::Monthly => 72,
            PeriodType::Yearly => 168,
        }
    }

    pub fn decay_rate(&self) -> (r: Ratio)
        ensures
            r.num == self.spec_decay_permille(),
            r.den == 1000,
    {
        let n: i128 = match self {
            PeriodType::Daily => 100,
            PeriodType::Weekly => 50,
            PeriodType::Monthly => 20,
            PeriodType::Yearly => 5,
        };
        Ratio { num: n, den: 1000 }
    }

    pub fn freshness_decay_rate(&self) -> (r: Ratio)
        ensures
            r.num == self.spec_freshness_decay_permille(),
            r.den == 1000,
    {
        let n: i128 = match self {
            PeriodType::Daily => 100,
            PeriodType::Weekly => 50,
            PeriodType::Monthly => 20,
            PeriodType::Yearly => 10,
        };
        Ratio { num: n, den: 1000 }
    }

    pub fn momentum_weight(&self) -> (r: Ratio)
        ensures
            r.num == self.spec_momentum_tenths(),
            r.den == 10,
    {
        let n: i128 = match self {
            PeriodType::Daily => 20,
            PeriodType::Weekly => 15,
            PeriodType::Monthly => 10,
            PeriodType::Yearly => 5,
        };
        Ratio { num: n, den: 10 }
    }

    pub fn diversity_weight(&self) -> (r: Ratio)
        ensures
            r.num == self.spec_diversity_tenths(),
            r.den == 10,
    {
        let n: i128 = match self {
            PeriodType::Daily => 15,
            PeriodType::Weekly => 18,
            PeriodType::Monthly => 20,
            PeriodType::Yearly => 25,
        };
        Ratio { num: n, den: 10 }
    }

    /// The weight vector of the period; its four entries add up to one.
    pub fn weights(&self) -> (w: ScoreWeights)
        ensures
            w == self.spec_weights(),
            w.view + w.unique + w.growth + w.momentum == 10,
    {
        match self {
            PeriodType::Daily => ScoreWeights { view: 4, unique: 3, growth: 2, momentum: 1 },
            PeriodType::Weekly => ScoreWeights { view: 3, unique: 3, growth: 3, momentum: 1 },
            PeriodType::Monthly => ScoreWeights { view: 2, unique: 3, growth: 4, momentum: 1 },
            PeriodType::Yearly => ScoreWeights { view: 1, unique: 3, growth: 5, momentum: 1 },
        }
    }

    pub fn period_start(&self, now: u64) -> (start: u64)
        ensures
            start == self.spec_period_start(now),
            start <= now,
    {
        let back: u64 = self.lookback_ms();
        if now >= back {
            now - back
        } else {
            0
        }
    }
}

} // verus!
