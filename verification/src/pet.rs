//! The pet itself: life stages, the live/sleeping/sick/dead state, the
//! egg incubation mechanics, and the player actions.
//!
//! The pet keeps its own millisecond clock, advanced by the delta passed
//! to `update`, so every outcome is a function of the deltas supplied.

use vstd::prelude::*;
use vstd::string::StringExecFns;

use crate::decimal::dec_digits;
use crate::decimal::u64_to_string;
use crate::stats::clamp_add;
use crate::stats::clamp_sub;
use crate::stats::decayed;
use crate::stats::StatValue;
use crate::stats::Stats;
use crate::stats::StatsModel;

verus! {

/// Life stages of a pet, from egg to adult.
#[derive(Debug, Clone, Copy, PartialEq, Eq, Structural)]
pub enum LifeStage {
    Egg,
    Baby,
    Child,
    Teen,
    Adult,
}

impl LifeStage {
    /// The next life stage, or `None` for an adult.
    pub fn next(self) -> (r: Option<LifeStage>)
        ensures
            r == match self {
                LifeStage::Egg => Some(LifeStage::Baby),
                LifeStage::Baby => Some(LifeStage::Child),
                LifeStage::Child => Some(LifeStage::Teen),
                LifeStage::Teen => Some(LifeStage::Adult),
                LifeStage::Adult => None::<LifeStage>,
            },
    {
        match self {
            LifeStage::Egg => Some(LifeStage::Baby),
            LifeStage::Baby => Some(LifeStage::Child),
            LifeStage::Child => Some(LifeStage::Teen),
            LifeStage::Teen => Some(LifeStage::Adult),
            LifeStage::Adult => None,
        }
    }

    /// The display name of the stage.
    pub fn display_name(self) -> (r: &'static str)
        ensures
            r@ == match self {
                LifeStage::Egg => "Egg"@,
                LifeStage::Baby => "Baby"@,
                LifeStage::Child => "Child"@,
                LifeStage::Teen => "Teen"@,
                LifeStage::Adult => "Adult"@,
            },
    {
        match self {
            LifeStage::Egg => "Egg",
            LifeStage::Baby => "Baby",
            LifeStage::Child => "Child",
            LifeStage::Teen => "Teen",
            LifeStage::Adult => "Adult",
        }
    }

    /// Fixed character art for the stage, shown before the animated
    /// frames take over.
    pub fn ascii_art(self) -> (r: &'static str)
        ensures
            r@.len() > 0,
    {
        let r: &'static str = match self {
            LifeStage::Egg => "\n        , - ~ ~ ~ - ,\n    , '               ' ,\n  ,                       ,\n ,                         ,\n ,                         ,\n  ,                       ,\n    ,                  , '\n      ' - , _ _ _ ,  '\n",
            LifeStage::Baby => "\n       (o.o)\n        /|\\\n         |\n        / \\\n",
            LifeStage::Child => "\n      \\(o.o)/\n         | |\n        /   \\\n",
            LifeStage::Teen => "\n       /\\_/\\\n      ( o.o )\n       > ^ <\n      /     \\\n",
            LifeStage::Adult => "\n        /\\_/\\\n       ( o.o )\n        > ^ <\n       /|   |\\\n        |   |\n       /     \\\n",
        };
        proof {
            reveal_strlit(
                "\n        , - ~ ~ ~ - ,\n    , '               ' ,\n  ,                       ,\n ,                         ,\n ,                         ,\n  ,                       ,\n    ,                  , '\n      ' - , _ _ _ ,  '\n",
            );
            reveal_strlit("\n       (o.o)\n        /|\\\n         |\n        / \\\n");
            reveal_strlit("\n      \\(o.o)/\n         | |\n        /   \\\n");
            reveal_strlit("\n       /\\_/\\\n      ( o.o )\n       > ^ <\n      /     \\\n");
            reveal_strlit(
                "\n        /\\_/\\\n       ( o.o )\n        > ^ <\n       /|   |\\\n        |   |\n       /     \\\n",
            );
        }
        r
    }
}

/// The life stage after one age check: a pet moves up one stage when its
/// age in minutes has passed the stage's threshold. Eggs hatch through
/// incubation, not age, and adults stay adults.
pub open spec fn staged(stage: LifeStage, age_seconds: u64) -> LifeStage {
    let age_minutes = age_seconds / 60;
    match stage {
        LifeStage::Baby => if age_minutes >= 5 {
            LifeStage::Child
        } else {
            stage
        },
        LifeStage::Child => if age_minutes >= 15 {
            LifeStage::Teen
        } else {
            stage
        },
        LifeStage::Teen => if age_minutes >= 30 {
            LifeStage::Adult
        } else {
            stage
        },
        _ => stage,
    }
}

/// The pet's current state. Timestamps are milliseconds of the pet's own
/// clock.
#[derive(Debug, Clone, Copy, PartialEq, Eq, Structural)]
pub enum PetState {
    Normal,
    Sleeping { since_ms: u64 },
    Sick { since_ms: u64 },
    Dead,
}

impl PetState {
    /// Whether the pet can perform actions: it is normal or merely sick.
    pub fn can_act(self) -> (b: bool)
        ensures
            b == (self is Normal || self is Sick),
    {
        matches!(self, PetState::Normal) || matches!(self, PetState::Sick { .. })
    }

    /// Whether the pet is sleeping.
    pub fn is_sleeping(self) -> (b: bool)
        ensures
            b == (self is Sleeping),
    {
        matches!(self, PetState::Sleeping { .. })
    }

    /// Whether the pet is sick.
    pub fn is_sick(self) -> (b: bool)
        ensures
            b == (self is Sick),
    {
        matches!(self, PetState::Sick { .. })
    }

    /// Whether the pet is alive.
    pub fn is_alive(self) -> (b: bool)
        ensures
            b == (self !is Dead),
    {
        !matches!(self, PetState::Dead)
    }
}

/// The mathematical value of the egg-stage stats.
pub ghost struct EggModel {
    pub incubation: u8,
    pub warmth: u8,
    pub health: u8,
    pub is_dead: bool,
}

/// Stats specific to the egg stage: time-based incubation progress,
/// player-controlled warmth, the egg's health, and whether it died.
#[derive(Debug, Clone)]
pub struct EggStats {
    pub incubation_progress: StatValue,
    pub warmth_level: StatValue,
    pub health: StatValue,
    pub is_dead: bool,
}

impl View for EggStats {
    type V = EggModel;

    open spec fn view(&self) -> EggModel {
        EggModel {
            incubation: self.incubation_progress@,
            warmth: self.warmth_level@,
            health: self.health@,
            is_dead: self.is_dead,
        }
    }
}

impl EggStats {
    /// A fresh egg: no incubation progress, a bit cold, full health.
    pub fn new() -> (e: EggStats)
        ensures
            e@ == (EggModel { incubation: 0u8, warmth: 20u8, health: 100u8, is_dead: false }),
    {
        EggStats {
            incubation_progress: StatValue::new(0),
            warmth_level: StatValue::new(20),
            health: StatValue::new(100),
            is_dead: false,
        }
    }
}

/// One five-second egg tick: incubation gains 17, warmth decays by 3,
/// health drops by 10 when the egg is cold (warmth below 30) and
/// recovers by 5 otherwise, and an egg whose health reaches 0 dies.
pub open spec fn egg_ticked(e: EggModel) -> EggModel {
    let e1 = EggModel {
        incubation: clamp_add(e.incubation, 17),
        warmth: clamp_sub(e.warmth, 3),
        health: e.health,
        is_dead: e.is_dead,
    };
    let e2 = if e1.warmth < 30 {
        EggModel { health: clamp_sub(e1.health, 10), ..e1 }
    } else {
        EggModel { health: clamp_add(e1.health, 5), ..e1 }
    };
    EggModel { is_dead: e2.is_dead || e2.health == 0, ..e2 }
}

/// The stat bonus a hatching baby gets from the egg's warmth: a warm egg
/// (70 or more) raises every stat by 20; a cold one (below 40) lowers
/// health, happiness and energy by 10; in between nothing changes.
pub open spec fn hatch_bonus(s: StatsModel, warmth: u8) -> StatsModel {
    if warmth >= 70 {
        StatsModel {
            hunger: clamp_add(s.hunger, 20),
            happiness: clamp_add(s.happiness, 20),
            energy: clamp_add(s.energy, 20),
            health: clamp_add(s.health, 20),
            hygiene: clamp_add(s.hygiene, 20),
        }
    } else if warmth < 40 {
        StatsModel {
            health: clamp_sub(s.health, 10),
            happiness: clamp_sub(s.happiness, 10),
            energy: clamp_sub(s.energy, 10),
            ..s
        }
    } else {
        s
    }
}

/// The mathematical value of a `Pet`.
pub ghost struct PetModel {
    pub name: Seq<char>,
    pub stage: LifeStage,
    pub state: PetState,
    pub stats: StatsModel,
    pub birth_time_ms: u64,
    pub age_seconds: u64,
    pub last_decay_ms: u64,
    pub egg: Option<EggModel>,
    pub clock_ms: u64,
}

/// The main pet: name, life stage, state, stats, age bookkeeping, and
/// the egg stats while unhatched.
#[derive(Debug, Clone)]
pub struct Pet {
    pub name: String,
    pub stage: LifeStage,
    pub state: PetState,
    pub stats: Stats,
    pub birth_time_ms: u64,
    pub age_seconds: u64,
    pub last_decay_ms: u64,
    pub egg_stats: Option<EggStats>,
    pub clock_ms: u64,
}

impl View for Pet {
    type V = PetModel;

    open spec fn view(&self) -> PetModel {
        PetModel {
            name: self.name@,
            stage: self.stage,
            state: self.state,
            stats: self.stats@,
            birth_time_ms: self.birth_time_ms,
            age_seconds: self.age_seconds,
            last_decay_ms: self.last_decay_ms,
            egg: match self.egg_stats {
                Some(e) => Some(e@),
                None => None,
            },
            clock_ms: self.clock_ms,
        }
    }
}

/// A freshly created pet: an egg in the normal state with fresh stats
/// and its clock at zero.
pub open spec fn fresh_pet(name: Seq<char>) -> PetModel {
    PetModel {
        name,
        stage: LifeStage::Egg,
        state: PetState::Normal,
        stats: StatsModel { hunger: 50u8, happiness: 50u8, energy: 50u8, health: 100u8, hygiene: 50u8 },
        birth_time_ms: 0u64,
        age_seconds: 0u64,
        last_decay_ms: 0u64,
        egg: Some(EggModel { incubation: 0u8, warmth: 20u8, health: 100u8, is_dead: false }),
        clock_ms: 0u64,
    }
}

/// The egg branch of one `update`: when five seconds have passed since
/// the last check, the egg ticks, and an egg with full incubation that
/// has not died hatches into a baby with the warmth bonus applied.
pub open spec fn pet_after_egg_tick(p: PetModel) -> PetModel {
    match p.egg {
        None => p,
        Some(e) => {
            if p.clock_ms.saturating_sub(p.last_decay_ms) >= 5000 {
                let e2 = egg_ticked(e);
                let p2 = PetModel { last_decay_ms: p.clock_ms, egg: Some(e2), ..p };
                if e2.incubation == 100 && !e2.is_dead {
                    PetModel {
                        stage: LifeStage::Baby,
                        egg: None,
                        stats: hatch_bonus(p.stats, e2.warmth),
                        ..p2
                    }
                } else {
                    p2
                }
            } else {
                p
            }
        },
    }
}

/// The decay branch of one `update` for a hatched, living pet: when five
/// seconds have passed since the last decay, the stats decay once, a pet
/// whose health reaches 0 dies, and a normal pet whose hygiene has
/// dropped below 10 becomes sick.
pub open spec fn pet_after_decay_tick(p: PetModel) -> PetModel {
    if p.clock_ms.saturating_sub(p.last_decay_ms) >= 5000 {
        let s = decayed(p.stats);
        let st1 = if s.health == 0 {
            PetState::Dead
        } else {
            p.state
        };
        let st2 = if s.hygiene < 10 && st1 == PetState::Normal {
            PetState::Sick { since_ms: p.clock_ms }
        } else {
            st1
        };
        PetModel { stats: s, state: st2, last_decay_ms: p.clock_ms, ..p }
    } else {
        p
    }
}

/// One `update` by `delta_ms`: the age and clock advance, then an egg
/// runs its incubation tick, a dead pet changes nothing more, and a
/// living pet moves up a due life stage and runs its decay tick.
pub open spec fn pet_after_update(p: PetModel, delta_ms: u64) -> PetModel {
    let p1 = PetModel {
        age_seconds: p.age_seconds.saturating_add((delta_ms / 1000) as u64),
        clock_ms: p.clock_ms.saturating_add(delta_ms),
        ..p
    };
    if p.stage == LifeStage::Egg {
        pet_after_egg_tick(p1)
    } else if p.state is Dead {
        p1
    } else {
        pet_after_decay_tick(PetModel { stage: staged(p1.stage, p1.age_seconds), ..p1 })
    }
}

/// The energy regained on waking after `slept_secs` seconds of sleep: a
/// full recharge takes 30 seconds, scaled linearly and capped at 100; a
/// baby gets one and a half times as much, also capped.
pub open spec fn wake_gain(stage: LifeStage, slept_secs: u64) -> u8 {
    let base: u8 = if slept_secs >= 30 {
        100u8
    } else {
        ((slept_secs * 100) / 30) as u8
    };
    if stage == LifeStage::Baby {
        if base * 3 / 2 > 100 {
            100u8
        } else {
            (base * 3 / 2) as u8
        }
    } else {
        base
    }
}

/// The formatted age, as characters: hours, minutes and seconds,
/// omitting leading units that are zero.
pub open spec fn spec_age_formatted(age_seconds: u64) -> Seq<char> {
    let secs = (age_seconds % 60) as nat;
    let mins = ((age_seconds / 60) % 60) as nat;
    let hours = (age_seconds / 3600) as nat;
    if hours > 0 {
        dec_digits(hours) + "h "@ + dec_digits(mins) + "m "@ + dec_digits(secs) + "s"@
    } else if mins > 0 {
        dec_digits(mins) + "m "@ + dec_digits(secs) + "s"@
    } else {
        dec_digits(secs) + "s"@
    }
}

/// The status line for a pet: death first, then the egg's warmth
/// situation while unhatched, then sleep, sickness and the neediest
/// stat.
pub open spec fn spec_status_message(p: PetModel) -> Seq<char> {
    if p.state is Dead {
        p.name + " has passed away..."@
    } else if p.stage == LifeStage::Egg && p.egg is Some {
        let e = p.egg.unwrap();
        if e.is_dead {
            "The egg failed to hatch... It was too cold."@
        } else if e.health < 30 {
            "CRITICAL: The egg is dying! Warm it NOW!"@
        } else if e.warmth <= 20 {
            "The egg is FREEZING! Warm it quickly or it will die!"@
        } else if e.warmth <= 40 {
            "The egg feels cold... Try pressing [W] to warm it!"@
        } else if e.warmth <= 60 {
            "The egg is getting warmer..."@
        } else if e.warmth <= 80 {
            "The egg is cozy and warm!"@
        } else if e.warmth <= 95 {
            "The egg is very warm! The baby will be healthy!"@
        } else {
            "The egg is ready to hatch any moment!"@
        }
    } else if p.state is Sleeping {
        p.name + " is sleeping peacefully"@
    } else if p.state is Sick {
        p.name + " is not feeling well"@
    } else if p.stats.hunger == 0 {
        p.name + " is very hungry!"@
    } else if p.stats.happiness == 0 {
        p.name + " seems sad..."@
    } else if p.stats.energy == 0 {
        p.name + " is exhausted"@
    } else if p.stats.hygiene == 0 {
        p.name + " needs a bath"@
    } else if p.stage == LifeStage::Baby {
        p.name + " is a cute baby!"@
    } else {
        p.name + " is doing well!"@
    }
}

impl Pet {
    /// Create a new pet with the given name: an egg with a clock at
    /// zero.
    pub fn new(name: &str) -> (p: Pet)
        ensures
            p@ == fresh_pet(name@),
    {
        Pet {
            name: name.to_owned(),
            stage: LifeStage::Egg,
            state: PetState::Normal,
            stats: Stats::new(),
            birth_time_ms: 0,
            age_seconds: 0,
            last_decay_ms: 0,
            egg_stats: Some(EggStats::new()),
            clock_ms: 0,
        }
    }

    /// Whether the egg failed to hatch.
    pub fn is_egg_dead(&self) -> (b: bool)
        ensures
            b == match self@.egg {
                Some(e) => e.is_dead,
                None => false,
            },
    {
        match &self.egg_stats {
            Some(egg) => egg.is_dead,
            None => false,
        }
    }

    /// The egg's warmth level, or 0 once hatched.
    pub fn get_warmth(&self) -> (w: u8)
        ensures
            w == match self@.egg {
                Some(e) => e.warmth,
                None => 0u8,
            },
    {
        match &self.egg_stats {
            Some(egg) => egg.warmth_level.value(),
            None => 0,
        }
    }

    /// The egg's incubation progress, or 100 once hatched.
    pub fn get_incubation(&self) -> (w: u8)
        ensures
            w == match self@.egg {
                Some(e) => e.incubation,
                None => 100u8,
            },
    {
        match &self.egg_stats {
            Some(egg) => egg.incubation_progress.value(),
            None => 100,
        }
    }

    /// The egg's health, or 100 once hatched.
    pub fn get_egg_health(&self) -> (w: u8)
        ensures
            w == match self@.egg {
                Some(e) => e.health,
                None => 100u8,
            },
    {
        match &self.egg_stats {
            Some(egg) => egg.health.value(),
            None => 100,
        }
    }

    /// Advance the pet by `delta_ms` milliseconds.
    pub fn update(&mut self, delta_ms: u64)
        ensures
            final(self)@ == pet_after_update(old(self)@, delta_ms),
    {
        self.age_seconds = self.age_seconds.saturating_add(delta_ms / 1000);
        self.clock_ms = self.clock_ms.saturating_add(delta_ms);

        if self.stage == LifeStage::Egg {
            self.update_egg();
            return;
        }

        if !self.state.is_alive() {
            return;
        }

        self.update_life_stage();

        if self.clock_ms.saturating_sub(self.last_decay_ms) >= 5000 {
            self.stats.decay();
            self.last_decay_ms = self.clock_ms;

            if self.stats.health.value() == 0 {
                self.state = PetState::Dead;
            }

            if self.stats.hygiene.value() < 10 && matches!(self.state, PetState::Normal) {
                self.state = PetState::Sick { since_ms: self.clock_ms };
            }
        }
    }

    /// Run the egg incubation tick.
    fn update_egg(&mut self)
        ensures
            final(self)@ == pet_after_egg_tick(old(self)@),
    {
        match self.egg_stats.take() {
            Some(mut egg) => {
                if self.clock_ms.saturating_sub(self.last_decay_ms) >= 5000 {
                    self.last_decay_ms = self.clock_ms;

                    egg.incubation_progress.add(17);
                    egg.warmth_level.sub(3);

                    if egg.warmth_level.value() < 30 {
                        egg.health.sub(10);
                    } else {
                        egg.health.add(5);
                    }

                    if egg.health.value() == 0 {
                        egg.is_dead = true;
                    }

                    let ready = egg.incubation_progress.is_max() && !egg.is_dead;
                    self.egg_stats = Some(egg);
                    if ready {
                        self.hatch_egg();
                    }
                } else {
                    self.egg_stats = Some(egg);
                }
            },
            None => {},
        }
    }

    /// Hatch the egg into a baby, applying the warmth bonus to the
    /// baby's stats.
    fn hatch_egg(&mut self)
        requires
            old(self)@.egg is Some,
        ensures
            final(self)@ == (PetModel {
                stage: LifeStage::Baby,
                egg: None::<EggModel>,
                stats: hatch_bonus(old(self)@.stats, old(self)@.egg.unwrap().warmth),
                ..old(self)@
            }),
    {
        let warmth: u8 = match &self.egg_stats {
            Some(egg) => egg.warmth_level.value(),
            None => 0,
        };

        if warmth >= 70 {
            self.stats.health.add(20);
            self.stats.happiness.add(20);
            self.stats.energy.add(20);
            self.stats.hunger.add(20);
            self.stats.hygiene.add(20);
        } else if warmth < 40 {
            self.stats.health.sub(10);
            self.stats.happiness.sub(10);
            self.stats.energy.sub(10);
        }

        self.stage = LifeStage::Baby;
        self.egg_stats = None;
    }

    /// Warm the egg. Only available while unhatched and while the warmth
    /// is below full; warming also helps the egg's health.
    pub fn warm(&mut self) -> (r: Result<(), &'static str>)
        ensures
            old(self)@.stage != LifeStage::Egg ==> (r matches Err(m) && m@
                == "The pet has already hatched!"@ && final(self)@ == old(self)@),
            old(self)@.stage == LifeStage::Egg ==> (old(self)@.egg matches Some(e) ==> (if e.warmth
                >= 100 {
                r matches Err(m) && m@ == "The egg is warm enough!"@ && final(self)@ == old(self)@
            } else {
                r is Ok && final(self)@ == (PetModel {
                    egg: Some(
                        EggModel {
                            warmth: clamp_add(e.warmth, 10),
                            health: clamp_add(e.health, 5),
                            ..e
                        },
                    ),
                    ..old(self)@
                })
            })),
            old(self)@.stage == LifeStage::Egg && old(self)@.egg is None ==> r is Ok && final(self)@ == old(self)@,
    {
        if !matches!(self.stage, LifeStage::Egg) {
            return Err("The pet has already hatched!");
        }

        match self.egg_stats.take() {
            Some(mut egg) => {
                if egg.warmth_level.value() >= 100 {
                    self.egg_stats = Some(egg);
                    return Err("The egg is warm enough!");
                }
                egg.warmth_level.add(10);
                egg.health.add(5);
                self.egg_stats = Some(egg);
            },
            None => {},
        }

        Ok(())
    }

    /// Restart with a new egg of the same name.
    pub fn restart(&mut self)
        ensures
            final(self)@ == fresh_pet(old(self)@.name),
    {
        let name = self.name.clone();
        *self = Self::new(name.as_str());
    }

    /// Feed the pet: a quarter tank of food, at a small energy cost.
    /// Fails for an egg and for a pet that cannot act.
    pub fn feed(&mut self) -> (r: Result<(), &'static str>)
        ensures
            old(self)@.stage == LifeStage::Egg ==> (r matches Err(m) && m@
                == "Can't feed an egg! Try warming it instead."@ && final(self)@ == old(self)@),
            old(self)@.stage != LifeStage::Egg && !(old(self)@.state is Normal || old(self)@.state is Sick) ==> (r matches Err(m) && m@ == "Pet cannot eat right now"@ && final(self)@ == old(self)@),
            old(self)@.stage != LifeStage::Egg && (old(self)@.state is Normal || old(self)@.state is Sick) ==> r is Ok && final(self)@ == (PetModel {
                stats: StatsModel {
                    hunger: clamp_add(old(self)@.stats.hunger, 25),
                    energy: clamp_sub(old(self)@.stats.energy, 5),
                    ..old(self)@.stats
                },
                ..old(self)@
            }),
    {
        if matches!(self.stage, LifeStage::Egg) {
            return Err("Can't feed an egg! Try warming it instead.");
        }

        if !self.state.can_act() {
            return Err("Pet cannot eat right now");
        }

        self.stats.hunger.add(25);
        self.stats.energy.sub(5);
        Ok(())
    }

    /// Play with the pet. A baby needs more rest and gains less; any pet
    /// that is too tired refuses. Playing costs energy and food.
    pub fn play(&mut self) -> (r: Result<(), &'static str>)
        ensures
            old(self)@.stage == LifeStage::Egg ==> (r matches Err(m) && m@
                == "Can't play with an egg!"@ && final(self)@ == old(self)@),
            old(self)@.stage != LifeStage::Egg && !(old(self)@.state is Normal || old(self)@.state is Sick) ==> (r matches Err(m) && m@ == "Pet cannot play right now"@ && final(self)@ == old(self)@),
            old(self)@.stage == LifeStage::Baby && (old(self)@.state is Normal || old(self)@.state is Sick) ==> (if old(self)@.stats.energy < 30 {
                r matches Err(m) && m@ == "Baby is too tired. Let it sleep first!"@ && final(self)@
                    == old(self)@
            } else {
                r is Ok && final(self)@ == (PetModel {
                    stats: StatsModel {
                        happiness: clamp_add(old(self)@.stats.happiness, 15),
                        energy: clamp_sub(old(self)@.stats.energy, 20),
                        hunger: clamp_sub(old(self)@.stats.hunger, 10),
                        ..old(self)@.stats
                    },
                    ..old(self)@
                })
            }),
            !(old(self)@.stage == LifeStage::Egg) && !(old(self)@.stage == LifeStage::Baby) && (old(self)@.state is Normal || old(self)@.state is Sick) ==> (if old(self)@.stats.energy < 20 {
                r matches Err(m) && m@ == "Pet is too tired to play"@ && final(self)@ == old(self)@
            } else {
                r is Ok && final(self)@ == (PetModel {
                    stats: StatsModel {
                        happiness: clamp_add(old(self)@.stats.happiness, 20),
                        energy: clamp_sub(old(self)@.stats.energy, 15),
                        hunger: clamp_sub(old(self)@.stats.hunger, 10),
                        ..old(self)@.stats
                    },
                    ..old(self)@
                })
            }),
    {
        if matches!(self.stage, LifeStage::Egg) {
            return Err("Can't play with an egg!");
        }

        if !self.state.can_act() {
            return Err("Pet cannot play right now");
        }

        if matches!(self.stage, LifeStage::Baby) {
            if self.stats.energy.value() < 30 {
                return Err("Baby is too tired. Let it sleep first!");
            }
            self.stats.happiness.add(15);
            self.stats.energy.sub(20);
            self.stats.hunger.sub(10);
            return Ok(());
        }

        if self.stats.energy.value() < 20 {
            return Err("Pet is too tired to play");
        }

        self.stats.happiness.add(20);
        self.stats.energy.sub(15);
        self.stats.hunger.sub(10);
        Ok(())
    }

    /// Clean the pet: hygiene returns to full, and a sick pet is cured.
    /// Fails for an egg and for a pet that cannot act.
    pub fn clean(&mut self) -> (r: Result<(), &'static str>)
        ensures
            old(self)@.stage == LifeStage::Egg ==> (r matches Err(m) && m@
                == "Can't clean an egg!"@ && final(self)@ == old(self)@),
            old(self)@.stage != LifeStage::Egg && !(old(self)@.state is Normal || old(self)@.state is Sick) ==> (r matches Err(m) && m@ == "Pet cannot be cleaned right now"@
                && final(self)@ == old(self)@),
            old(self)@.stage != LifeStage::Egg && (old(self)@.state is Normal || old(self)@.state is Sick) ==> r is Ok && final(self)@ == (PetModel {
                stats: StatsModel { hygiene: 100u8, ..old(self)@.stats },
                state: if old(self)@.state is Sick {
                    PetState::Normal
                } else {
                    old(self)@.state
                },
                ..old(self)@
            }),
    {
        if matches!(self.stage, LifeStage::Egg) {
            return Err("Can't clean an egg!");
        }

        if !self.state.can_act() {
            return Err("Pet cannot be cleaned right now");
        }

        self.stats.hygiene = StatValue::new(100);

        if matches!(self.state, PetState::Sick { .. }) {
            self.state = PetState::Normal;
        }

        Ok(())
    }

    /// Put the pet to sleep, recording when the sleep began. Fails for
    /// an egg, a dead pet, and a pet already sleeping.
    pub fn sleep(&mut self) -> (r: Result<(), &'static str>)
        ensures
            old(self)@.stage == LifeStage::Egg ==> (r matches Err(m) && m@
                == "Eggs don't sleep! Try warming it."@ && final(self)@ == old(self)@),
            old(self)@.stage != LifeStage::Egg && old(self)@.state is Dead ==> (r matches Err(m)
                && m@ == "Pet is dead"@ && final(self)@ == old(self)@),
            old(self)@.stage != LifeStage::Egg && old(self)@.state is Sleeping ==> (r matches Err(m)
                && m@ == "Pet is already sleeping"@ && final(self)@ == old(self)@),
            old(self)@.stage != LifeStage::Egg && !(old(self)@.state is Dead) && !(old(self)@.state is Sleeping) ==> r is Ok && final(self)@ == (PetModel {
                state: PetState::Sleeping { since_ms: old(self)@.clock_ms },
                ..old(self)@
            }),
    {
        if matches!(self.stage, LifeStage::Egg) {
            return Err("Eggs don't sleep! Try warming it.");
        }

        if !self.state.is_alive() {
            return Err("Pet is dead");
        }

        if matches!(self.state, PetState::Sleeping { .. }) {
            return Err("Pet is already sleeping");
        }

        self.state = PetState::Sleeping { since_ms: self.clock_ms };
        Ok(())
    }

    /// Wake the pet, regenerating energy in proportion to how long it
    /// slept. Fails when the pet is not sleeping.
    pub fn wake(&mut self) -> (r: Result<(), &'static str>)
        ensures
            old(self)@.state matches PetState::Sleeping { since_ms } ==> r is Ok && final(self)@
                == (PetModel {
                state: PetState::Normal,
                stats: StatsModel {
                    energy: clamp_add(
                        old(self)@.stats.energy,
                        wake_gain(
                            old(self)@.stage,
                            (old(self)@.clock_ms.saturating_sub(since_ms) / 1000) as u64,
                        ),
                    ),
                    ..old(self)@.stats
                },
                ..old(self)@
            }),
            !(old(self)@.state is Sleeping) ==> (r matches Err(m) && m@ == "Pet is not sleeping"@
                && final(self)@ == old(self)@),
    {
        match self.state {
            PetState::Sleeping { since_ms } => {
                let slept_secs: u64 = self.clock_ms.saturating_sub(since_ms) / 1000;
                let base: u8 = if slept_secs >= 30 {
                    100
                } else {
                    ((slept_secs * 100) / 30) as u8
                };

                let energy_gain: u8 = if matches!(self.stage, LifeStage::Baby) {
                    let boosted: u16 = (base as u16) * 3 / 2;
                    if boosted > 100 {
                        100
                    } else {
                        boosted as u8
                    }
                } else {
                    base
                };

                self.stats.energy.add(energy_gain);
                self.state = PetState::Normal;
                Ok(())
            },
            _ => Err("Pet is not sleeping"),
        }
    }

    /// Give medicine: cures sickness and restores some health. Fails
    /// when the pet is not sick.
    pub fn give_medicine(&mut self) -> (r: Result<(), &'static str>)
        ensures
            old(self)@.state is Sick ==> r is Ok && final(self)@ == (PetModel {
                state: PetState::Normal,
                stats: StatsModel {
                    health: clamp_add(old(self)@.stats.health, 20),
                    ..old(self)@.stats
                },
                ..old(self)@
            }),
            !(old(self)@.state is Sick) ==> (r matches Err(m) && m@ == "Pet is not sick"@ && final(self)@ == old(self)@),
    {
        if matches!(self.state, PetState::Sick { .. }) {
            self.state = PetState::Normal;
            self.stats.health.add(20);
            Ok(())
        } else {
            Err("Pet is not sick")
        }
    }

    /// The formatted age: hours, minutes and seconds, omitting leading
    /// units that are zero.
    pub fn age_formatted(&self) -> (r: String)
        ensures
            r@ == spec_age_formatted(self@.age_seconds),
    {
        let seconds: u64 = self.age_seconds % 60;
        let minutes: u64 = (self.age_seconds / 60) % 60;
        let hours: u64 = self.age_seconds / 3600;

        if hours > 0 {
            let mut out = u64_to_string(hours);
            out.append("h ");
            out.append(u64_to_string(minutes).as_str());
            out.append("m ");
            out.append(u64_to_string(seconds).as_str());
            out.append("s");
            out
        } else if minutes > 0 {
            let mut out = u64_to_string(minutes);
            out.append("m ");
            out.append(u64_to_string(seconds).as_str());
            out.append("s");
            out
        } else {
            let mut out = u64_to_string(seconds);
            out.append("s");
            out
        }
    }

    /// A status line describing the pet: death first, then the egg's
    /// warmth situation while unhatched, then sleep, sickness and the
    /// neediest stat.
    pub fn status_message(&self) -> (r: String)
        ensures
            r@ == spec_status_message(self@),
    {
        if !self.state.is_alive() {
            let mut out = self.name.clone();
            out.append(" has passed away...");
            return out;
        }

        if matches!(self.stage, LifeStage::Egg) {
            match &self.egg_stats {
                Some(egg) => {
                    if egg.is_dead {
                        return "The egg failed to hatch... It was too cold.".to_owned();
                    }

                    let warmth: u8 = egg.warmth_level.value();
                    let health: u8 = egg.health.value();

                    if health < 30 {
                        return "CRITICAL: The egg is dying! Warm it NOW!".to_owned();
                    }

                    return if warmth <= 20 {
                        "The egg is FREEZING! Warm it quickly or it will die!".to_owned()
                    } else if warmth <= 40 {
                        "The egg feels cold... Try pressing [W] to warm it!".to_owned()
                    } else if warmth <= 60 {
                        "The egg is getting warmer...".to_owned()
                    } else if warmth <= 80 {
                        "The egg is cozy and warm!".to_owned()
                    } else if warmth <= 95 {
                        "The egg is very warm! The baby will be healthy!".to_owned()
                    } else {
                        "The egg is ready to hatch any moment!".to_owned()
                    };
                },
                None => {},
            }
        }

        match self.state {
            PetState::Sleeping { .. } => {
                let mut out = self.name.clone();
                out.append(" is sleeping peacefully");
                out
            },
            PetState::Sick { .. } => {
                let mut out = self.name.clone();
                out.append(" is not feeling well");
                out
            },
            _ => {
                if self.stats.is_starving() {
                    let mut out = self.name.clone();
                    out.append(" is very hungry!");
                    out
                } else if self.stats.is_depressed() {
                    let mut out = self.name.clone();
                    out.append(" seems sad...");
                    out
                } else if self.stats.is_exhausted() {
                    let mut out = self.name.clone();
                    out.append(" is exhausted");
                    out
                } else if self.stats.is_filthy() {
                    let mut out = self.name.clone();
                    out.append(" needs a bath");
                    out
                } else if matches!(self.stage, LifeStage::Baby) {
                    let mut out = self.name.clone();
                    out.append(" is a cute baby!");
                    out
                } else {
                    let mut out = self.name.clone();
                    out.append(" is doing well!");
                    out
                }
            },
        }
    }

    /// Move the pet up one life stage when its age has passed the next
    /// threshold.
    pub fn update_life_stage(&mut self)
        ensures
            final(self)@ == (PetModel {
                stage: staged(old(self)@.stage, old(self)@.age_seconds),
                ..old(self)@
            }),
    {
        if matches!(self.stage, LifeStage::Egg) {
            return;
        }

        let age_minutes: u64 = self.age_seconds / 60;

        match self.stage {
            LifeStage::Baby => {
                if age_minutes >= 5 {
                    self.stage = LifeStage::Child;
                }
            },
            LifeStage::Child => {
                if age_minutes >= 15 {
                    self.stage = LifeStage::Teen;
                }
            },
            LifeStage::Teen => {
                if age_minutes >= 30 {
                    self.stage = LifeStage::Adult;
                }
            },
            _ => {},
        }
    }
}

} // verus!
