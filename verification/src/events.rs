//! The event system: random occurrences and special moments.
//!
//! The caller supplies the randomness as plain rolls — `chance_roll`
//! uniform in 0..100 gating whether anything happens this pass, and
//! `pick_roll` feeding the weighted selection — so every outcome is a
//! function of the pet, the clock and the rolls handed in.

use vstd::prelude::*;
use vstd::string::StringExecFns;

use crate::pet::LifeStage;
use crate::pet::Pet;
use crate::pet::PetModel;
use crate::pet::PetState;
use crate::stats::clamp_add;
use crate::stats::clamp_sub;
use crate::stats::StatsModel;

verus! {

/// Types of events that can occur.
#[derive(Debug, Clone, Copy, PartialEq, Eq, Structural)]
pub enum EventType {
    MadeMess,
    FoundTreasure,
    BadDream,
    LearnedTrick,
    Evolved,
    HappyMoment,
    Lonely,
    AskingForFood,
}

/// The message announcing an event, for a pet with the given name.
pub open spec fn spec_event_message(ev: EventType, name: Seq<char>) -> Seq<char> {
    match ev {
        EventType::MadeMess => name + " made a mess! (-20 hygiene)"@,
        EventType::FoundTreasure => name + " found a shiny object! (+10 happiness)"@,
        EventType::BadDream => name + " had a bad dream... (-10 happiness)"@,
        EventType::LearnedTrick => name + " learned a new trick! (+15 happiness)"@,
        EventType::Evolved => name + " evolved!"@,
        EventType::HappyMoment => name + " is having a wonderful time! (+20 happiness)"@,
        EventType::Lonely => name + " seems lonely..."@,
        EventType::AskingForFood => name + " is looking at you with hungry eyes..."@,
    }
}

impl EventType {
    /// The message announcing this event.
    pub fn message(&self, pet_name: &str) -> (r: String)
        ensures
            r@ == spec_event_message(*self, pet_name@),
    {
        let mut out = pet_name.to_owned();
        match self {
            EventType::MadeMess => out.append(" made a mess! (-20 hygiene)"),
            EventType::FoundTreasure => out.append(" found a shiny object! (+10 happiness)"),
            EventType::BadDream => out.append(" had a bad dream... (-10 happiness)"),
            EventType::LearnedTrick => out.append(" learned a new trick! (+15 happiness)"),
            EventType::Evolved => out.append(" evolved!"),
            EventType::HappyMoment => out.append(" is having a wonderful time! (+20 happiness)"),
            EventType::Lonely => out.append(" seems lonely..."),
            EventType::AskingForFood => out.append(" is looking at you with hungry eyes..."),
        }
        out
    }
}

/// The mathematical value of a `GameEvent`.
pub ghost struct GameEventModel {
    pub event_type: EventType,
    pub timestamp_ms: u64,
    pub message: Seq<char>,
}

/// A game event with the time it occurred and its display message.
#[derive(Debug)]
pub struct GameEvent {
    pub event_type: EventType,
    pub timestamp_ms: u64,
    pub message: String,
}

impl View for GameEvent {
    type V = GameEventModel;

    open spec fn view(&self) -> GameEventModel {
        GameEventModel {
            event_type: self.event_type,
            timestamp_ms: self.timestamp_ms,
            message: self.message@,
        }
    }
}

/// The candidate events for a pet, in a fixed order, each with its
/// selection weight (hundredths of the whole): a clean hatched pet may
/// make a mess; a reasonably happy one may find a treasure; an unhappy
/// baby may have a bad dream; a happy older pet may learn a trick; a
/// thriving pet may have a happy moment; a sad pet grows lonely; a
/// hungry hatched pet asks for food.
pub open spec fn event_candidates(p: PetModel) -> Seq<(EventType, u32)> {
    let c0 = Seq::<(EventType, u32)>::empty();
    let c1 = if p.stats.hygiene > 50 && p.stage != LifeStage::Egg {
        c0.push((EventType::MadeMess, 20u32))
    } else {
        c0
    };
    let c2 = if p.stats.happiness > 40 {
        c1.push((EventType::FoundTreasure, 15u32))
    } else {
        c1
    };
    let c3 = if p.stage == LifeStage::Baby && p.stats.happiness < 60 {
        c2.push((EventType::BadDream, 25u32))
    } else {
        c2
    };
    let c4 = if (p.stage == LifeStage::Child || p.stage == LifeStage::Teen || p.stage
        == LifeStage::Adult) && p.stats.happiness > 70 {
        c3.push((EventType::LearnedTrick, 10u32))
    } else {
        c3
    };
    let c5 = if p.stats.happiness > 60 && p.stats.health > 70 && p.stats.energy > 50 {
        c4.push((EventType::HappyMoment, 10u32))
    } else {
        c4
    };
    let c6 = if p.stats.happiness < 30 {
        c5.push((EventType::Lonely, 30u32))
    } else {
        c5
    };
    if p.stats.hunger < 30 && p.stage != LifeStage::Egg {
        c6.push((EventType::AskingForFood, 40u32))
    } else {
        c6
    }
}

/// The total weight of a candidate list.
pub open spec fn weights_sum(cs: Seq<(EventType, u32)>) -> int
    decreases cs.len(),
{
    if cs.len() == 0 {
        0
    } else {
        cs[0].1 + weights_sum(cs.skip(1))
    }
}

/// The candidate a ticket lands on: walking the list, a ticket below the
/// head's weight picks the head, and otherwise the head's weight is
/// spent and the walk continues.
pub open spec fn picked_event(cs: Seq<(EventType, u32)>, ticket: int) -> Option<EventType>
    decreases cs.len(),
{
    if cs.len() == 0 {
        None
    } else if ticket < cs[0].1 {
        Some(cs[0].0)
    } else {
        picked_event(cs.skip(1), ticket - cs[0].1)
    }
}

/// The event a pet gets for a pick roll: `None` when no candidate
/// applies, and otherwise the candidate the roll's ticket lands on.
pub open spec fn selected_event(p: PetModel, pick_roll: u32) -> Option<EventType> {
    let cs = event_candidates(p);
    let total = weights_sum(cs);
    if total == 0 {
        None
    } else {
        picked_event(cs, pick_roll as int % total)
    }
}

/// The pet after an event's effects: a mess costs hygiene, a treasure
/// and a trick and a happy moment raise happiness, a bad dream costs
/// happiness and wakes a sleeping pet, loneliness costs happiness, and
/// asking for food and evolving change no stats.
pub open spec fn event_applied(ev: EventType, p: PetModel) -> PetModel {
    match ev {
        EventType::MadeMess => PetModel {
            stats: StatsModel { hygiene: clamp_sub(p.stats.hygiene, 20), ..p.stats },
            ..p
        },
        EventType::FoundTreasure => PetModel {
            stats: StatsModel { happiness: clamp_add(p.stats.happiness, 10), ..p.stats },
            ..p
        },
        EventType::BadDream => PetModel {
            stats: StatsModel { happiness: clamp_sub(p.stats.happiness, 10), ..p.stats },
            state: if p.state is Sleeping {
                PetState::Normal
            } else {
                p.state
            },
            ..p
        },
        EventType::LearnedTrick => PetModel {
            stats: StatsModel { happiness: clamp_add(p.stats.happiness, 15), ..p.stats },
            ..p
        },
        EventType::HappyMoment => PetModel {
            stats: StatsModel {
                happiness: clamp_add(p.stats.happiness, 20),
                energy: clamp_add(p.stats.energy, 5),
                ..p.stats
            },
            ..p
        },
        EventType::Lonely => PetModel {
            stats: StatsModel { happiness: clamp_sub(p.stats.happiness, 5), ..p.stats },
            ..p
        },
        EventType::AskingForFood => p,
        EventType::Evolved => p,
    }
}

/// The mathematical value of an `EventSystem`.
pub ghost struct EventSystemModel {
    pub last_event_time_ms: u64,
    pub cooldown_ms: u64,
    pub history: Seq<GameEventModel>,
    pub max_history: int,
    pub pending: Option<GameEventModel>,
}

/// The system and pet after one trigger attempt: when a candidate is
/// selected, its effects apply to the pet, the event is recorded (the
/// history keeping only the most recent entries), it becomes pending for
/// display, and the cooldown restarts.
pub open spec fn triggered(
    sys: EventSystemModel,
    p: PetModel,
    now_ms: u64,
    pick_roll: u32,
) -> (EventSystemModel, PetModel) {
    match selected_event(p, pick_roll) {
        None => (sys, p),
        Some(ev) => {
            let gev = GameEventModel {
                event_type: ev,
                timestamp_ms: now_ms,
                message: spec_event_message(ev, p.name),
            };
            let hist1 = sys.history.push(gev);
            let hist2 = if hist1.len() > sys.max_history {
                hist1.remove(0)
            } else {
                hist1
            };
            (
                EventSystemModel {
                    history: hist2,
                    pending: Some(gev),
                    last_event_time_ms: now_ms,
                    ..sys
                },
                event_applied(ev, p),
            )
        },
    }
}

/// The system and pet after one `update` pass: nothing happens during
/// the cooldown, for a dead pet, for a sleeping pet, or when the chance
/// roll misses the five-percent gate; otherwise a trigger is attempted.
pub open spec fn events_update_post(
    sys: EventSystemModel,
    p: PetModel,
    now_ms: u64,
    chance_roll: u8,
    pick_roll: u32,
) -> (EventSystemModel, PetModel) {
    if now_ms.saturating_sub(sys.last_event_time_ms) < sys.cooldown_ms {
        (sys, p)
    } else if p.state is Dead {
        (sys, p)
    } else if p.state is Sleeping {
        (sys, p)
    } else if chance_roll < 5 {
        triggered(sys, p, now_ms, pick_roll)
    } else {
        (sys, p)
    }
}

/// The event system: cooldown bookkeeping, a bounded history of recent
/// events, and the pending event awaiting display.
#[derive(Debug)]
pub struct EventSystem {
    pub last_event_time_ms: u64,
    pub event_cooldown_ms: u64,
    pub event_history: Vec<GameEvent>,
    pub max_history: usize,
    pub pending_event: Option<GameEvent>,
}

impl View for EventSystem {
    type V = EventSystemModel;

    open spec fn view(&self) -> EventSystemModel {
        EventSystemModel {
            last_event_time_ms: self.last_event_time_ms,
            cooldown_ms: self.event_cooldown_ms,
            history: self.event_history@.map_values(|e: GameEvent| e@),
            max_history: self.max_history as int,
            pending: match self.pending_event {
                Some(e) => Some(e@),
                None => None,
            },
        }
    }
}

impl EventSystem {
    /// A fresh event system: a 15-second cooldown measured from time
    /// zero, an empty history capped at ten entries, nothing pending.
    pub fn new() -> (s: EventSystem)
        ensures
            s@.last_event_time_ms == 0,
            s@.cooldown_ms == 15000,
            s@.history == Seq::<GameEventModel>::empty(),
            s@.max_history == 10,
            s@.pending is None,
    {
        let s = EventSystem {
            last_event_time_ms: 0,
            event_cooldown_ms: 15000,
            event_history: Vec::new(),
            max_history: 10,
            pending_event: None,
        };
        proof {
            assert(s@.history =~= Seq::<GameEventModel>::empty());
        }
        s
    }

    /// One event pass at `now_ms`: with the cooldown elapsed, a living,
    /// awake pet, and a chance roll under five percent, an event is
    /// selected by the pick roll, applied and recorded.
    pub fn update(&mut self, pet: &mut Pet, now_ms: u64, chance_roll: u8, pick_roll: u32)
        ensures
            (final(self)@, final(pet)@) == events_update_post(
                old(self)@,
                old(pet)@,
                now_ms,
                chance_roll,
                pick_roll,
            ),
    {
        if now_ms.saturating_sub(self.last_event_time_ms) < self.event_cooldown_ms {
            return;
        }

        if !pet.state.is_alive() {
            return;
        }

        if pet.state.is_sleeping() {
            return;
        }

        if chance_roll < 5 {
            self.try_trigger_event(pet, now_ms, pick_roll);
        }
    }

    /// Attempt to trigger an event for the pet's current situation.
    fn try_trigger_event(&mut self, pet: &mut Pet, now_ms: u64, pick_roll: u32)
        ensures
            (final(self)@, final(pet)@) == triggered(old(self)@, old(pet)@, now_ms, pick_roll),
    {
        let event_type = self.select_event_type(pet, pick_roll);

        if let Some(event_type) = event_type {
            self.apply_event_effects(event_type, pet);

            let msg = event_type.message(pet.name.as_str());
            let event = GameEvent {
                event_type,
                timestamp_ms: now_ms,
                message: msg.clone(),
            };

            let ghost prev = self.event_history@.map_values(|e: GameEvent| e@);
            self.event_history.push(event);
            proof {
                assert(self.event_history@.map_values(|e: GameEvent| e@) =~= prev.push(
                    GameEventModel {
                        event_type,
                        timestamp_ms: now_ms,
                        message: spec_event_message(event_type, old(pet)@.name),
                    },
                ));
            }
            if self.event_history.len() > self.max_history {
                let ghost before = self.event_history@.map_values(|e: GameEvent| e@);
                self.event_history.remove(0);
                proof {
                    assert(self.event_history@.map_values(|e: GameEvent| e@) =~= before.remove(0));
                }
            }

            self.pending_event = Some(
                GameEvent { event_type, timestamp_ms: now_ms, message: msg },
            );

            self.last_event_time_ms = now_ms;
        }
    }

    /// Select an event for the pet's situation by the pick roll, or
    /// `None` when no candidate applies.
    fn select_event_type(&self, pet: &Pet, pick_roll: u32) -> (r: Option<EventType>)
        ensures
            r == selected_event(pet@, pick_roll),
    {
        let mut possible_events: Vec<(EventType, u32)> = Vec::new();

        if pet.stats.hygiene.value() > 50 && !matches!(pet.stage, LifeStage::Egg) {
            possible_events.push((EventType::MadeMess, 20));
        }
        if pet.stats.happiness.value() > 40 {
            possible_events.push((EventType::FoundTreasure, 15));
        }
        if matches!(pet.stage, LifeStage::Baby) && pet.stats.happiness.value() < 60 {
            possible_events.push((EventType::BadDream, 25));
        }
        if matches!(pet.stage, LifeStage::Child | LifeStage::Teen | LifeStage::Adult)
            && pet.stats.happiness.value() > 70 {
            possible_events.push((EventType::LearnedTrick, 10));
        }
        if pet.stats.happiness.value() > 60 && pet.stats.health.value() > 70
            && pet.stats.energy.value() > 50 {
            possible_events.push((EventType::HappyMoment, 10));
        }
        if pet.stats.happiness.value() < 30 {
            possible_events.push((EventType::Lonely, 30));
        }
        if pet.stats.hunger.value() < 30 && !matches!(pet.stage, LifeStage::Egg) {
            possible_events.push((EventType::AskingForFood, 40));
        }

        proof {
            assert(possible_events@ =~= event_candidates(pet@));
        }

        let cs_len: usize = possible_events.len();
        proof {
            assert(possible_events@.skip(0) =~= possible_events@);
        }
        let mut total_weight: u32 = 0;
        let mut i: usize = 0;
        while i < cs_len
            invariant
                i <= cs_len,
                cs_len == possible_events@.len(),
                cs_len <= 7,
                possible_events@ == event_candidates(pet@),
                total_weight <= 40 * i,
                forall|j: int| 0 <= j < cs_len ==> (#[trigger] possible_events@[j]).1 <= 40,
                total_weight + weights_sum(possible_events@.skip(i as int)) == weights_sum(
                    possible_events@,
                ),
            decreases cs_len - i,
        {
            proof {
                let tail = possible_events@.skip(i as int);
                assert(tail[0] == possible_events@[i as int]);
                assert(tail.skip(1) =~= possible_events@.skip(i + 1));
                lemma_weights_sum_bounds(possible_events@.skip(i + 1));
            }
            total_weight = total_weight + possible_events[i].1;
            i = i + 1;
        }
        proof {
            assert(possible_events@.skip(cs_len as int) =~= Seq::<(EventType, u32)>::empty());
        }

        if total_weight == 0 {
            return None;
        }

        let mut ticket: u32 = pick_roll % total_weight;
        proof {
            assert(possible_events@.skip(0) =~= possible_events@);
        }
        let mut k: usize = 0;
        loop
            invariant
                k <= cs_len,
                cs_len == possible_events@.len(),
                possible_events@ == event_candidates(pet@),
                selected_event(pet@, pick_roll) == picked_event(
                    possible_events@.skip(k as int),
                    ticket as int,
                ),
                weights_sum(possible_events@) > 0,
                ticket < weights_sum(possible_events@.skip(k as int)),
            decreases cs_len - k,
        {
            proof {
                let tail = possible_events@.skip(k as int);
                if tail.len() == 0 {
                    assert(weights_sum(tail) == 0);
                    assert(false);
                }
                assert(tail[0] == possible_events@[k as int]);
                assert(tail.skip(1) =~= possible_events@.skip(k + 1));
                lemma_weights_sum_bounds(tail.skip(1));
            }
            let (ev, w) = possible_events[k];
            if ticket < w {
                return Some(ev);
            }
            ticket = ticket - w;
            k = k + 1;
        }
    }

    /// Apply the selected event's effects to the pet.
    fn apply_event_effects(&self, event_type: EventType, pet: &mut Pet)
        ensures
            final(pet)@ == event_applied(event_type, old(pet)@),
    {
        match event_type {
            EventType::MadeMess => {
                pet.stats.hygiene.sub(20);
            },
            EventType::FoundTreasure => {
                pet.stats.happiness.add(10);
            },
            EventType::BadDream => {
                pet.stats.happiness.sub(10);
                if pet.state.is_sleeping() {
                    pet.state = PetState::Normal;
                }
            },
            EventType::LearnedTrick => {
                pet.stats.happiness.add(15);
            },
            EventType::HappyMoment => {
                pet.stats.happiness.add(20);
                pet.stats.energy.add(5);
            },
            EventType::Lonely => {
                pet.stats.happiness.sub(5);
            },
            EventType::AskingForFood => {},
            EventType::Evolved => {},
        }
    }

    /// Clear the pending event (after displaying it).
    pub fn clear_pending(&mut self)
        ensures
            final(self)@ == (EventSystemModel { pending: None::<GameEventModel>, ..old(self)@ }),
    {
        self.pending_event = None;
    }

    /// The most recent `count` events, newest first.
    pub fn recent_events(&self, count: usize) -> (r: Vec<&GameEvent>)
        ensures
            r@.len() == if count as int <= self@.history.len() {
                count as int
            } else {
                self@.history.len() as int
            },
            forall|i: int|
                0 <= i < r@.len() ==> (#[trigger] r@[i])@ == self@.history[self@.history.len() - 1
                    - i],
    {
        let n: usize = self.event_history.len();
        let take_n: usize = if count < n {
            count
        } else {
            n
        };
        let mut out: Vec<&GameEvent> = Vec::new();
        let mut j: usize = 0;
        while j < take_n
            invariant
                j <= take_n,
                take_n <= n,
                n == self.event_history@.len(),
                take_n == if count as int <= n as int {
                    count as int
                } else {
                    n as int
                },
                out@.len() == j,
                forall|i: int|
                    0 <= i < j ==> (#[trigger] out@[i])@ == self@.history[n - 1 - i],
            decreases take_n - j,
        {
            out.push(&self.event_history[n - 1 - j]);
            j = j + 1;
        }
        out
    }
}

/// The total weight of a candidate list is nonnegative, and bounded by
/// forty per candidate.
proof fn lemma_weights_sum_bounds(cs: Seq<(EventType, u32)>)
    requires
        forall|j: int| 0 <= j < cs.len() ==> (#[trigger] cs[j]).1 <= 40,
    ensures
        0 <= weights_sum(cs) <= 40 * cs.len(),
    decreases cs.len(),
{
    if cs.len() > 0 {
        assert(forall|j: int| 0 <= j < cs.skip(1).len() ==> (#[trigger] cs.skip(1)[j]).1 <= 40);
        lemma_weights_sum_bounds(cs.skip(1));
    }
}

} // verus!
