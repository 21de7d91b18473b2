use vstd::prelude::*;

verus! {

/// One km/h in the library's speed unit.
pub const KMH: i32 = 1000;

/// A cab signal code and the speed it permits.
#[derive(Clone, Copy, Debug, PartialEq, Eq, Structural)]
pub enum AtcSignal {
    /// Absolute stop: emergency braking, no creeping.
    Signal02,
    /// Conditional stop: creeping allowed under confirmation operation.
    Signal01,
    Signal15,
    Signal25,
    Signal45,
    Signal60,
    Signal75,
    Signal90,
    /// Shunting, low.
    Irekae15,
    /// Shunting, high.
    Irekae25,
}

/// The permitted speed of a signal, in km/h.
pub open spec fn signal_kmh(s: AtcSignal) -> int {
    match s {
        AtcSignal::Signal02 => 0,
        AtcSignal::Signal01 => 0,
        AtcSignal::Signal15 => 15,
        AtcSignal::Signal25 => 25,
        AtcSignal::Signal45 => 45,
        AtcSignal::Signal60 => 60,
        AtcSignal::Signal75 => 75,
        AtcSignal::Signal90 => 90,
        AtcSignal::Irekae15 => 15,
        AtcSignal::Irekae25 => 25,
    }
}

/// The signal one step below in the order of permitted speeds.
pub open spec fn signal_lower(s: AtcSignal) -> AtcSignal {
    match s {
        AtcSignal::Signal02 => AtcSignal::Signal02,
        AtcSignal::Signal01 => AtcSignal::Signal02,
        AtcSignal::Signal15 => AtcSignal::Signal01,
        AtcSignal::Signal25 => AtcSignal::Signal15,
        AtcSignal::Signal45 => AtcSignal::Signal25,
        AtcSignal::Signal60 => AtcSignal::Signal45,
        AtcSignal::Signal75 => AtcSignal::Signal60,
        AtcSignal::Signal90 => AtcSignal::Signal75,
        AtcSignal::Irekae15 => AtcSignal::Signal01,
        AtcSignal::Irekae25 => AtcSignal::Irekae15,
    }
}

/// The signal that a host code in `0..=9` stands for.
pub open spec fn signal_of_code(code: int) -> Option<AtcSignal> {
    if code == 0 {
        Some(AtcSignal::Signal02)
    } else if code == 1 {
        Some(AtcSignal::Signal01)
    } else if code == 2 {
        Some(AtcSignal::Signal15)
    } else if code == 3 {
        Some(AtcSignal::Signal25)
    } else if code == 4 {
        Some(AtcSignal::Signal45)
    } else if code == 5 {
        Some(AtcSignal::Signal60)
    } else if code == 6 {
        Some(AtcSignal::Signal75)
    } else if code == 7 {
        Some(AtcSignal::Signal90)
    } else if code == 8 {
        Some(AtcSignal::Irekae15)
    } else if code == 9 {
        Some(AtcSignal::Irekae25)
    } else {
        None
    }
}

impl AtcSignal {
    /// The permitted speed in km/h.
    pub fn getSpeed(&self) -> (r: i32)
        ensures
            r == signal_kmh(*self),
            0 <= r <= 90,
    {
        match self {
            Self::Signal02 => 0,
            Self::Signal01 => 0,
            Self::Signal15 => 15,
            Self::Signal25 => 25,
            Self::Signal45 => 45,
            Self::Signal60 => 60,
            Self::Signal75 => 75,
            Self::Signal90 => 90,
            Self::Irekae15 => 15,
            Self::Irekae25 => 25,
        }
    }

    /// The permitted speed in thousandths of km/h.
    pub fn permitted_speed(&self) -> (r: i32)
        ensures
            r == signal_kmh(*self) * 1000,
            0 <= r <= 90_000,
    {
        self.getSpeed() * KMH
    }

    /// The next-lower signal.
    pub fn getLower(&self) -> (r: AtcSignal)
        ensures
            r == signal_lower(*self),
            signal_kmh(r) <= signal_kmh(*self),
    {
        match self {
            Self::Signal02 => Self::Signal02,
            Self::Signal01 => Self::Signal02,
            Self::Signal15 => Self::Signal01,
            Self::Signal25 => Self::Signal15,
            Self::Signal45 => Self::Signal25,
            Self::Signal60 => Self::Signal45,
            Self::Signal75 => Self::Signal60,
            Self::Signal90 => Self::Signal75,
            Self::Irekae15 => Self::Signal01,
            Self::Irekae25 => Self::Irekae15,
        }
    }

    /// Decodes a host signal code; codes outside `0..=9` give `None`.
    pub fn from_code(code: i32) -> (r: Option<AtcSignal>)
        ensures
            r == signal_of_code(code as int),
            r.is_some() <==> 0 <= code <= 9,
    {
        match code {
            0 => Some(Self::Signal02),
            1 => Some(Self::Signal01),
            2 => Some(Self::Signal15),
            3 => Some(Self::Signal25),
            4 => Some(Self::Signal45),
            5 => Some(Self::Signal60),
            6 => Some(Self::Signal75),
            7 => Some(Self::Signal90),
            8 => Some(Self::Irekae15),
            9 => Some(Self::Irekae25),
            _ => None,
        }
    }
}

impl Default for AtcSignal {
    fn default() -> (r: Self)
        ensures
            r == AtcSignal::Signal02,
    {
        Self::Signal02
    }
}

/// The permitted speed is a function of the signal alone: asking twice
/// for the same signal gives the same speed.
pub proof fn lemma_permitted_speed_deterministic(a: AtcSignal, b: AtcSignal)
    requires
        a == b,
    ensures
        signal_kmh(a) == signal_kmh(b),
        0 <= signal_kmh(a) <= 90,
{
}

} // verus!
