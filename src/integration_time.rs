use vstd::prelude::*;

verus! {

/// Integration time: how long the sensor accumulates light for one measurement.
///
/// The six settings are ordered from the shortest to the longest.
#[derive(Debug, Clone, Copy, PartialEq, Eq, Structural)]
pub enum IntegrationTime {
    /// 40 ms
    _40ms,
    /// 80 ms
    _80ms,
    /// 160 ms
    _160ms,
    /// 320 ms
    _320ms,
    /// 640 ms
    _640ms,
    /// 1280 ms
    _1280ms,
}

impl IntegrationTime {
    /// Position of the setting on the ladder, 0 for the shortest.
    pub open spec fn index(self) -> nat {
        match self {
            IntegrationTime::_40ms => 0,
            IntegrationTime::_80ms => 1,
            IntegrationTime::_160ms => 2,
            IntegrationTime::_320ms => 3,
            IntegrationTime::_640ms => 4,
            IntegrationTime::_1280ms => 5,
        }
    }

    /// The setting at a given position of the ladder (positions above 5 give the longest).
    pub open spec fn at_index(i: nat) -> IntegrationTime {
        if i == 0 {
            IntegrationTime::_40ms
        } else if i == 1 {
            IntegrationTime::_80ms
        } else if i == 2 {
            IntegrationTime::_160ms
        } else if i == 3 {
            IntegrationTime::_320ms
        } else if i == 4 {
            IntegrationTime::_640ms
        } else {
            IntegrationTime::_1280ms
        }
    }

    /// Integration duration in milliseconds.
    pub open spec fn duration_ms(self) -> int {
        match self {
            IntegrationTime::_40ms => 40,
            IntegrationTime::_80ms => 80,
            IntegrationTime::_160ms => 160,
            IntegrationTime::_320ms => 320,
            IntegrationTime::_640ms => 640,
            IntegrationTime::_1280ms => 1280,
        }
    }

    /// Lux per green count, in millionths of a lux.
    pub open spec fn sensitivity_micro_lux(self) -> int {
        match self {
            IntegrationTime::_40ms => 251680,
            IntegrationTime::_80ms => 125840,
            IntegrationTime::_160ms => 62920,
            IntegrationTime::_320ms => 31460,
            IntegrationTime::_640ms => 15730,
            IntegrationTime::_1280ms => 7865,
        }
    }

    /// The setting one step longer, if any.
    pub open spec fn spec_longer(self) -> Option<IntegrationTime> {
        if self.index() < 5 {
            Some(IntegrationTime::at_index(self.index() + 1))
        } else {
            None
        }
    }

    /// The setting one step shorter, if any.
    pub open spec fn spec_shorter(self) -> Option<IntegrationTime> {
        if self.index() > 0 {
            Some(IntegrationTime::at_index((self.index() - 1) as nat))
        } else {
            None
        }
    }

    /// The duration of the integration time in milliseconds.
    pub fn millis(&self) -> (r: i32)
        ensures
            r as int == self.duration_ms(),
    {
        match *self {
            IntegrationTime::_40ms => 40,
            IntegrationTime::_80ms => 80,
            IntegrationTime::_160ms => 160,
            IntegrationTime::_320ms => 320,
            IntegrationTime::_640ms => 640,
            IntegrationTime::_1280ms => 1280,
        }
    }

    /// The recommended waiting time for this integration time, in milliseconds:
    /// the duration plus a margin of 40 ms for the conversion to settle.
    pub fn waiting_time_millis(&self) -> (r: i32)
        ensures
            r as int == self.duration_ms() + 40,
    {
        self.millis() + 40
    }

    /// The sensitivity of the sensor for this integration time, in millionths of a lux
    /// per green count. Multiplying a green count by it gives the brightness in
    /// millionths of a lux.
    pub fn sensitivity(&self) -> (r: u32)
        ensures
            r as int == self.sensitivity_micro_lux(),
    {
        match *self {
            IntegrationTime::_40ms => 251680,
            IntegrationTime::_80ms => 125840,
            IntegrationTime::_160ms => 62920,
            IntegrationTime::_320ms => 31460,
            IntegrationTime::_640ms => 15730,
            IntegrationTime::_1280ms => 7865,
        }
    }

    /// The bit pattern that selects this integration time in the configuration
    /// register: the ladder position in bits 4 to 6.
    pub fn bit_pattern(&self) -> (r: u8)
        ensures
            r as int == self.index() * 16,
    {
        match *self {
            IntegrationTime::_40ms => 0b0000_0000,
            IntegrationTime::_80ms => 0b0001_0000,
            IntegrationTime::_160ms => 0b0010_0000,
            IntegrationTime::_320ms => 0b0011_0000,
            IntegrationTime::_640ms => 0b0100_0000,
            IntegrationTime::_1280ms => 0b0101_0000,
        }
    }

    /// The next longer integration time, or `None` at the longest.
    pub fn longer(&self) -> (r: Option<IntegrationTime>)
        ensures
            r == self.spec_longer(),
    {
        match *self {
            IntegrationTime::_40ms => Some(IntegrationTime::_80ms),
            IntegrationTime::_80ms => Some(IntegrationTime::_160ms),
            IntegrationTime::_160ms => Some(IntegrationTime::_320ms),
            IntegrationTime::_320ms => Some(IntegrationTime::_640ms),
            IntegrationTime::_640ms => Some(IntegrationTime::_1280ms),
            IntegrationTime::_1280ms => None,
        }
    }

    /// The next shorter integration time, or `None` at the shortest.
    pub fn shorter(&self) -> (r: Option<IntegrationTime>)
        ensures
            r == self.spec_shorter(),
    {
        match *self {
            IntegrationTime::_40ms => None,
            IntegrationTime::_80ms => Some(IntegrationTime::_40ms),
            IntegrationTime::_160ms => Some(IntegrationTime::_80ms),
            IntegrationTime::_320ms => Some(IntegrationTime::_160ms),
            IntegrationTime::_640ms => Some(IntegrationTime::_320ms),
            IntegrationTime::_1280ms => Some(IntegrationTime::_640ms),
        }
    }
}

/// The setting reached by stepping `k` times to the next longer one, if every step exists.
pub open spec fn longer_steps(t: IntegrationTime, k: nat) -> Option<IntegrationTime>
    decreases k,
{
    if k == 0 {
        Some(t)
    } else {
        match t.spec_longer() {
            Some(u) => longer_steps(u, (k - 1) as nat),
            None => None,
        }
    }
}

/// The setting reached by stepping `k` times to the next shorter one, if every step exists.
pub open spec fn shorter_steps(t: IntegrationTime, k: nat) -> Option<IntegrationTime>
    decreases k,
{
    if k == 0 {
        Some(t)
    } else {
        match t.spec_shorter() {
            Some(u) => shorter_steps(u, (k - 1) as nat),
            None => None,
        }
    }
}

/// Stepping longer then shorter, or shorter then longer, comes back to the start.
pub proof fn lemma_longer_shorter_inverse(t: IntegrationTime)
    ensures
        t.spec_longer() matches Some(u) ==> u.spec_shorter() == Some(t),
        t.spec_shorter() matches Some(u) ==> u.spec_longer() == Some(t),
        t.spec_longer() is None <==> t == IntegrationTime::_1280ms,
        t.spec_shorter() is None <==> t == IntegrationTime::_40ms,
{
}

/// Stepping `k` times longer moves `k` places up the ladder, and fails exactly when
/// that runs past the longest setting; stepping shorter likewise moves down.
/// So five steps from the shortest reach the longest, and a sixth step fails;
/// five steps down from the longest reach the shortest, and a sixth fails.
pub proof fn lemma_ladder_steps(t: IntegrationTime, k: nat)
    ensures
        longer_steps(t, k) == if t.index() + k <= 5 {
            Some(IntegrationTime::at_index(t.index() + k))
        } else {
            None::<IntegrationTime>
        },
        shorter_steps(t, k) == if k <= t.index() {
            Some(IntegrationTime::at_index((t.index() - k) as nat))
        } else {
            None::<IntegrationTime>
        },
        longer_steps(IntegrationTime::_40ms, 5) == Some(IntegrationTime::_1280ms),
        longer_steps(IntegrationTime::_40ms, 6) is None,
        shorter_steps(IntegrationTime::_1280ms, 5) == Some(IntegrationTime::_40ms),
        shorter_steps(IntegrationTime::_1280ms, 6) is None,
    decreases k,
{
    if k > 0 {
        match t.spec_longer() {
            Some(u) => lemma_ladder_steps(u, (k - 1) as nat),
            None => {},
        }
        match t.spec_shorter() {
            Some(u) => lemma_ladder_steps(u, (k - 1) as nat),
            None => {},
        }
    }
    reveal_with_fuel(longer_steps, 7);
    reveal_with_fuel(shorter_steps, 7);
}

/// A longer integration time has a strictly smaller sensitivity, and the ladder
/// order is the order of the durations.
pub proof fn lemma_sensitivity_decreasing(a: IntegrationTime, b: IntegrationTime)
    ensures
        a.index() < b.index() <==> a.duration_ms() < b.duration_ms(),
        a.duration_ms() < b.duration_ms() ==> a.sensitivity_micro_lux() > b.sensitivity_micro_lux(),
{
}

} // verus!
