//! The pet's stats: bounded values that clamp to the 0..=100 range, and
//! the natural decay applied to them over time.

use vstd::prelude::*;

verus! {

/// The value of a stat raised by `amount`, clamping at 100.
pub open spec fn clamp_add(v: u8, amount: u8) -> u8 {
    if v + amount > 100 {
        100u8
    } else {
        (v + amount) as u8
    }
}

/// The value of a stat lowered by `amount`, clamping at 0.
pub open spec fn clamp_sub(v: u8, amount: u8) -> u8 {
    if v >= amount {
        (v - amount) as u8
    } else {
        0u8
    }
}

/// The value a stat is created from or set to: clamped into 0..=100.
pub open spec fn clamped(v: u8) -> u8 {
    if v > 100 {
        100u8
    } else {
        v
    }
}

/// A bounded stat value that clamps between 0 and 100.
#[derive(Debug, Clone, Copy, PartialEq, Eq, Structural)]
pub struct StatValue {
    value: u8,
}

impl View for StatValue {
    type V = u8;

    closed spec fn view(&self) -> u8 {
        self.value
    }
}

impl StatValue {
    /// Create a new stat value, clamped to the valid range.
    pub fn new(value: u8) -> (s: StatValue)
        ensures
            s@ == clamped(value),
    {
        StatValue { value: if value > 100 {
            100
        } else {
            value
        } }
    }

    /// The current value.
    pub fn value(&self) -> (v: u8)
        ensures
            v == self@,
    {
        self.value
    }

    /// Raise the value, clamping at the maximum.
    pub fn add(&mut self, amount: u8)
        ensures
            final(self)@ == clamp_add(old(self)@, amount),
    {
        let t = self.value.saturating_add(amount);
        self.value = if t > 100 {
            100
        } else {
            t
        };
    }

    /// Lower the value, clamping at the minimum.
    pub fn sub(&mut self, amount: u8)
        ensures
            final(self)@ == clamp_sub(old(self)@, amount),
    {
        self.value = self.value.saturating_sub(amount);
    }

    /// Set the value directly, clamped to the valid range.
    pub fn set(&mut self, value: u8)
        ensures
            final(self)@ == clamped(value),
    {
        self.value = if value > 100 {
            100
        } else {
            value
        };
    }

    /// Whether the value is at the maximum.
    pub fn is_max(&self) -> (b: bool)
        ensures
            b == (self@ == 100),
    {
        self.value == 100
    }

    /// Whether the value is at the minimum.
    pub fn is_min(&self) -> (b: bool)
        ensures
            b == (self@ == 0),
    {
        self.value == 0
    }
}

/// The mathematical value of the pet's stats.
pub ghost struct StatsModel {
    pub hunger: u8,
    pub happiness: u8,
    pub energy: u8,
    pub health: u8,
    pub hygiene: u8,
}

/// All pet stats: 0 is the bad end of each scale (starving, depressed,
/// exhausted, dead, filthy) and 100 the good one.
#[derive(Debug, Clone)]
pub struct Stats {
    pub hunger: StatValue,
    pub happiness: StatValue,
    pub energy: StatValue,
    pub health: StatValue,
    pub hygiene: StatValue,
}

impl View for Stats {
    type V = StatsModel;

    open spec fn view(&self) -> StatsModel {
        StatsModel {
            hunger: self.hunger@,
            happiness: self.happiness@,
            energy: self.energy@,
            health: self.health@,
            hygiene: self.hygiene@,
        }
    }
}

/// One natural decay pass: the four upkeep stats each drop by one, and
/// health drops by one when the pet is left starving, depressed or
/// filthy afterwards.
pub open spec fn decayed(s: StatsModel) -> StatsModel {
    let s2 = StatsModel {
        hunger: clamp_sub(s.hunger, 1),
        happiness: clamp_sub(s.happiness, 1),
        energy: clamp_sub(s.energy, 1),
        hygiene: clamp_sub(s.hygiene, 1),
        health: s.health,
    };
    if s2.hunger == 0 || s2.happiness == 0 || s2.hygiene == 0 {
        StatsModel { health: clamp_sub(s.health, 1), ..s2 }
    } else {
        s2
    }
}

impl Stats {
    /// Fresh stats: everything at the middle of the scale except full
    /// health.
    pub fn new() -> (s: Stats)
        ensures
            s@ == (StatsModel { hunger: 50u8, happiness: 50u8, energy: 50u8, health: 100u8, hygiene: 50u8 }),
    {
        Stats {
            hunger: StatValue::new(50),
            happiness: StatValue::new(50),
            energy: StatValue::new(50),
            health: StatValue::new(100),
            hygiene: StatValue::new(50),
        }
    }

    /// Whether the pet is starving (hunger at 0).
    pub fn is_starving(&self) -> (b: bool)
        ensures
            b == (self@.hunger == 0),
    {
        self.hunger.is_min()
    }

    /// Whether the pet is depressed (happiness at 0).
    pub fn is_depressed(&self) -> (b: bool)
        ensures
            b == (self@.happiness == 0),
    {
        self.happiness.is_min()
    }

    /// Whether the pet is exhausted (energy at 0).
    pub fn is_exhausted(&self) -> (b: bool)
        ensures
            b == (self@.energy == 0),
    {
        self.energy.is_min()
    }

    /// Whether the pet is critically unhealthy (health below 20).
    pub fn is_critical(&self) -> (b: bool)
        ensures
            b == (self@.health < 20),
    {
        self.health.value() < 20
    }

    /// Whether the pet is filthy (hygiene at 0).
    pub fn is_filthy(&self) -> (b: bool)
        ensures
            b == (self@.hygiene == 0),
    {
        self.hygiene.is_min()
    }

    /// Apply one natural decay pass.
    pub fn decay(&mut self)
        ensures
            final(self)@ == decayed(old(self)@),
    {
        self.hunger.sub(1);
        self.happiness.sub(1);
        self.energy.sub(1);
        self.hygiene.sub(1);

        if self.is_starving() || self.is_depressed() || self.is_filthy() {
            self.health.sub(1);
        }
    }
}

} // verus!
