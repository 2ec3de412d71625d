//! The application state: the pet, its event system, the animated
//! character, and the handlers behind the player's keys.
//!
//! Timestamps are milliseconds since startup, supplied by the caller,
//! and the event randomness comes in as plain rolls, so every outcome is
//! a function of what is handed in. The contracts here pin the game
//! fields exactly; what each call does to the animation engine is stated
//! through the engine's own request and update relations.

use vstd::prelude::*;
use vstd::string::StringExecFns;

use crate::animated_pet::AnimatedPet;
use crate::decimal::dec_digits;
use crate::decimal::u64_to_string;
use crate::engine::engine_request_post;
use crate::engine::engine_update_post;
use crate::engine::started_ok;
use crate::engine::EngineModel;
use crate::events::events_update_post;
use crate::events::EventSystem;
use crate::events::EventSystemModel;
use crate::events::GameEventModel;
use crate::kinds::AnimationType;
use crate::pet::fresh_pet;
use crate::pet::pet_after_update;
use crate::pet::spec_status_message;
use crate::pet::wake_gain;
use crate::pet::LifeStage;
use crate::pet::Pet;
use crate::pet::PetModel;
use crate::pet::PetState;
use crate::stats::clamp_add;
use crate::stats::clamp_sub;
use crate::stats::StatsModel;

verus! {

/// Whether the game is running or over.
#[derive(Debug, Clone, Copy, PartialEq, Eq, Structural)]
pub enum GameState {
    Playing,
    GameOver,
}

/// The mathematical value of an `App`.
pub ghost struct AppModel {
    pub should_quit: bool,
    pub game_state: GameState,
    pub pet: PetModel,
    pub last_update_ms: u64,
    pub status_message: Seq<char>,
    pub events: EventSystemModel,
    pub anim: EngineModel,
    pub last_animation_update_ms: u64,
}

/// The main application state.
pub struct App {
    pub should_quit: bool,
    pub game_state: GameState,
    pub pet: Pet,
    pub last_update_ms: u64,
    pub status_message: String,
    pub event_system: EventSystem,
    pub animated_pet: AnimatedPet,
    pub last_animation_update_ms: u64,
}

impl View for App {
    type V = AppModel;

    open spec fn view(&self) -> AppModel {
        AppModel {
            should_quit: self.should_quit,
            game_state: self.game_state,
            pet: self.pet@,
            last_update_ms: self.last_update_ms,
            status_message: self.status_message@,
            events: self.event_system@,
            anim: self.animated_pet@,
            last_animation_update_ms: self.last_animation_update_ms,
        }
    }
}

/// Whether the pet can perform actions.
pub open spec fn can_act_now(p: PetModel) -> bool {
    p.state is Normal || p.state is Sick
}

/// The idle or reaction kind the animation follows for a pet's state:
/// the idle loop matching its mood while normal, the sleeping loop while
/// asleep, and the sick or death transition otherwise.
pub open spec fn anim_kind_for(p: PetModel) -> AnimationType {
    match p.state {
        PetState::Normal => if p.stats.happiness < 30 {
            AnimationType::IdleSad
        } else if p.stats.happiness > 70 {
            AnimationType::IdleHappy
        } else {
            AnimationType::IdleNeutral
        },
        PetState::Sleeping { .. } => AnimationType::IdleSleeping,
        PetState::Sick { .. } => AnimationType::TransitionGetSick,
        PetState::Dead => AnimationType::TransitionDie,
    }
}

/// The game fields after one tick (the animation engine's evolution is
/// stated separately, on the operations that drive it).
pub ghost struct TickOutcome {
    pub game_state: GameState,
    pub pet: PetModel,
    pub status_message: Seq<char>,
    pub events: EventSystemModel,
    pub last_update_ms: u64,
}

/// What one tick does to the game fields: a finished game changes
/// nothing; otherwise the pet advances by the time since the last tick,
/// a dead egg ends the game, a hatched pet runs the event pass (a
/// pending event's message takes the status line), and the status line
/// is refreshed.
pub open spec fn spec_tick(a: AppModel, now_ms: u64, chance_roll: u8, pick_roll: u32) -> TickOutcome {
    if a.game_state == GameState::GameOver {
        TickOutcome {
            game_state: a.game_state,
            pet: a.pet,
            status_message: a.status_message,
            events: a.events,
            last_update_ms: a.last_update_ms,
        }
    } else {
        let delta = now_ms.saturating_sub(a.last_update_ms);
        let pet1 = pet_after_update(a.pet, delta);
        if pet1.egg matches Some(e) && e.is_dead {
            TickOutcome {
                game_state: GameState::GameOver,
                pet: pet1,
                status_message: "The egg failed to hatch... Game Over!"@,
                events: a.events,
                last_update_ms: now_ms,
            }
        } else if pet1.stage != LifeStage::Egg {
            let r = events_update_post(a.events, pet1, now_ms, chance_roll, pick_roll);
            match r.0.pending {
                Some(ev) => TickOutcome {
                    game_state: a.game_state,
                    pet: r.1,
                    status_message: ev.message,
                    events: EventSystemModel { pending: None::<GameEventModel>, ..r.0 },
                    last_update_ms: now_ms,
                },
                None => TickOutcome {
                    game_state: a.game_state,
                    pet: r.1,
                    status_message: spec_status_message(r.1),
                    events: r.0,
                    last_update_ms: now_ms,
                },
            }
        } else {
            TickOutcome {
                game_state: a.game_state,
                pet: pet1,
                status_message: spec_status_message(pet1),
                events: a.events,
                last_update_ms: now_ms,
            }
        }
    }
}

/// How one tick drives the animation engine: the cadenced engine tick
/// runs first (when 100 ms have passed since the last one, witnessed by
/// `m1`); once the game fields are advanced, a request steers the
/// animation toward the pet's state (witnessed by `m2`), and a death
/// transition request follows when a dead egg ends the game.
pub open spec fn tick_anim_post(
    pre: AppModel,
    post: EngineModel,
    now_ms: u64,
    m1: EngineModel,
    m2: EngineModel,
) -> bool {
    &&& if now_ms.saturating_sub(pre.last_animation_update_ms) >= 100 {
        engine_update_post(pre.anim, m1, now_ms)
    } else {
        m1 == pre.anim
    }
    &&& if pre.game_state == GameState::GameOver {
        post == m1
    } else {
        let delta = now_ms.saturating_sub(pre.last_update_ms);
        let pet1 = pet_after_update(pre.pet, delta);
        &&& engine_request_post(m1, m2, anim_kind_for(pet1), now_ms)
        &&& if pet1.egg matches Some(e) && e.is_dead {
            engine_request_post(m2, post, AnimationType::TransitionDie, now_ms)
        } else {
            post == m2
        }
    }
}

impl App {
    /// The animation engine's invariant holds.
    pub open spec fn wf(&self) -> bool {
        self.animated_pet.wf()
    }

    /// A fresh application: a new egg named Fluffy, its status line, a
    /// fresh event system, and the animated pet on the idle loop, with
    /// all clocks at zero.
    pub fn new() -> (a: App)
        ensures
            a.wf(),
            a@.should_quit == false,
            a@.game_state == GameState::Playing,
            a@.pet == fresh_pet("Fluffy"@),
            a@.last_update_ms == 0,
            a@.status_message == spec_status_message(fresh_pet("Fluffy"@)),
            a@.events.last_event_time_ms == 0,
            a@.events.cooldown_ms == 15000,
            a@.events.history.len() == 0,
            a@.events.max_history == 10,
            a@.events.pending is None,
            a@.anim.current matches Some(c) && started_ok(c, AnimationType::IdleNeutral, 0),
            a@.anim.queue.len() == 0,
            a@.anim.particles.len() == 0,
            a@.last_animation_update_ms == 0,
    {
        let pet = Pet::new("Fluffy");
        let status = pet.status_message();

        App {
            should_quit: false,
            game_state: GameState::Playing,
            pet,
            last_update_ms: 0,
            status_message: status,
            event_system: EventSystem::new(),
            animated_pet: AnimatedPet::new(0),
            last_animation_update_ms: 0,
        }
    }

    /// Handle one periodic tick at `now_ms`, with the event rolls for
    /// this pass. The animation always advances on its own cadence; the
    /// game fields change as `spec_tick` says.
    pub fn tick(&mut self, now_ms: u64, chance_roll: u8, pick_roll: u32)
        requires
            old(self).wf(),
        ensures
            final(self).wf(),
            final(self)@.should_quit == old(self)@.should_quit,
            ({
                let o = spec_tick(old(self)@, now_ms, chance_roll, pick_roll);
                &&& final(self)@.game_state == o.game_state
                &&& final(self)@.pet == o.pet
                &&& final(self)@.status_message == o.status_message
                &&& final(self)@.events == o.events
                &&& final(self)@.last_update_ms == o.last_update_ms
            }),
            final(self)@.last_animation_update_ms == if now_ms.saturating_sub(
                old(self)@.last_animation_update_ms,
            ) >= 100 {
                now_ms
            } else {
                old(self)@.last_animation_update_ms
            },
            exists|m1: EngineModel, m2: EngineModel|
                #[trigger] tick_anim_post(old(self)@, final(self)@.anim, now_ms, m1, m2),
    {
        self.update_animation(now_ms);
        let ghost m1 = self.animated_pet@;

        if matches!(self.game_state, GameState::GameOver) {
            proof {
                assert(tick_anim_post(old(self)@, self.animated_pet@, now_ms, m1, m1));
            }
            return;
        }

        let delta = now_ms.saturating_sub(self.last_update_ms);
        self.last_update_ms = now_ms;

        self.pet.update(delta);

        self.update_pet_animation(now_ms);
        let ghost m2 = self.animated_pet@;

        if self.pet.is_egg_dead() {
            self.game_state = GameState::GameOver;
            self.status_message = "The egg failed to hatch... Game Over!".to_owned();
            self.animated_pet.trigger(AnimationType::TransitionDie, now_ms);
            proof {
                assert(tick_anim_post(old(self)@, self.animated_pet@, now_ms, m1, m2));
            }
            return;
        }

        if !matches!(self.pet.stage, LifeStage::Egg) {
            self.event_system.update(&mut self.pet, now_ms, chance_roll, pick_roll);

            match self.event_system.pending_event.take() {
                Some(event) => {
                    self.status_message = event.message;
                    proof {
                        assert(tick_anim_post(old(self)@, self.animated_pet@, now_ms, m1, m2));
                    }
                    return;
                },
                None => {},
            }
        }

        self.status_message = self.pet.status_message();
        proof {
            assert(tick_anim_post(old(self)@, self.animated_pet@, now_ms, m1, m2));
        }
    }

    /// Run the animation engine's tick when at least 100 ms have passed
    /// since the last one.
    pub fn update_animation(&mut self, now_ms: u64)
        requires
            old(self).wf(),
        ensures
            final(self).wf(),
            now_ms.saturating_sub(old(self)@.last_animation_update_ms) >= 100 ==> (
            engine_update_post(old(self)@.anim, final(self)@.anim, now_ms) && final(self)@.last_animation_update_ms == now_ms && final(self)@ == (AppModel {
                anim: final(self)@.anim,
                last_animation_update_ms: now_ms,
                ..old(self)@
            })),
            now_ms.saturating_sub(old(self)@.last_animation_update_ms) < 100 ==> final(self)@
                == old(self)@,
    {
        if now_ms.saturating_sub(self.last_animation_update_ms) >= 100 {
            self.animated_pet.update(now_ms);
            self.last_animation_update_ms = now_ms;
        }
    }

    /// Steer the animation by the pet's state.
    fn update_pet_animation(&mut self, now_ms: u64)
        requires
            old(self).wf(),
        ensures
            final(self).wf(),
            engine_request_post(
                old(self)@.anim,
                final(self)@.anim,
                anim_kind_for(old(self)@.pet),
                now_ms,
            ),
            final(self)@ == (AppModel { anim: final(self)@.anim, ..old(self)@ }),
    {
        match self.pet.state {
            PetState::Normal => {
                if self.pet.stats.happiness.value() < 30 {
                    self.animated_pet.set_idle_sad(now_ms);
                } else if self.pet.stats.happiness.value() > 70 {
                    self.animated_pet.set_idle_happy(now_ms);
                } else {
                    self.animated_pet.set_idle(now_ms);
                }
            },
            PetState::Sleeping { .. } => {
                self.animated_pet.set_idle_sleeping(now_ms);
            },
            PetState::Sick { .. } => {
                self.animated_pet.trigger(AnimationType::TransitionGetSick, now_ms);
            },
            PetState::Dead => {
                self.animated_pet.trigger(AnimationType::TransitionDie, now_ms);
            },
        }
    }

    /// Ask the application to quit.
    pub fn quit(&mut self)
        ensures
            final(self)@ == (AppModel { should_quit: true, ..old(self)@ }),
    {
        self.should_quit = true;
    }

    /// Restart the game with a new egg of the same name. Only available
    /// once the game is over.
    pub fn restart(&mut self, now_ms: u64)
        requires
            old(self).wf(),
        ensures
            final(self).wf(),
            old(self)@.game_state != GameState::GameOver ==> final(self)@ == old(self)@,
            old(self)@.game_state == GameState::GameOver ==> ({
                &&& final(self)@.pet == fresh_pet(old(self)@.pet.name)
                &&& final(self)@.game_state == GameState::Playing
                &&& final(self)@.status_message == spec_status_message(
                    fresh_pet(old(self)@.pet.name),
                )
                &&& final(self)@.last_update_ms == now_ms
                &&& final(self)@.events.history.len() == 0
                &&& final(self)@.events.pending is None
                &&& final(self)@.events.last_event_time_ms == 0
                &&& final(self)@.anim.current matches Some(c) && started_ok(
                    c,
                    AnimationType::IdleNeutral,
                    now_ms,
                )
                &&& final(self)@.anim.queue.len() == 0
                &&& final(self)@.should_quit == old(self)@.should_quit
                &&& final(self)@.last_animation_update_ms == old(self)@.last_animation_update_ms
            }),
    {
        if matches!(self.game_state, GameState::GameOver) {
            let name = self.pet.name.clone();
            self.pet = Pet::new(name.as_str());
            self.game_state = GameState::Playing;
            self.event_system = EventSystem::new();
            self.status_message = self.pet.status_message();
            self.last_update_ms = now_ms;
            self.animated_pet = AnimatedPet::new(now_ms);
        }
    }

    /// Warm the egg, reporting the new warmth, or the reason it could
    /// not be warmed.
    pub fn warm_egg(&mut self)
        requires
            old(self).wf(),
        ensures
            final(self).wf(),
            old(self)@.game_state == GameState::GameOver ==> final(self)@ == old(self)@,
            old(self)@.game_state != GameState::GameOver ==> ({
                let p = old(self)@.pet;
                if p.stage != LifeStage::Egg {
                    final(self)@ == (AppModel {
                        status_message: "The pet has already hatched!"@,
                        ..old(self)@
                    })
                } else {
                    match p.egg {
                        Some(e) => if e.warmth >= 100 {
                            final(self)@ == (AppModel {
                                status_message: "The egg is warm enough!"@,
                                ..old(self)@
                            })
                        } else {
                            final(self)@ == (AppModel {
                                pet: PetModel {
                                    egg: Some(
                                        crate::pet::EggModel {
                                            warmth: clamp_add(e.warmth, 10),
                                            health: clamp_add(e.health, 5),
                                            ..e
                                        },
                                    ),
                                    ..p
                                },
                                status_message: "You warmed the egg! Warmth: "@ + dec_digits(
                                    clamp_add(e.warmth, 10) as nat,
                                ) + "%"@,
                                ..old(self)@
                            })
                        },
                        None => final(self)@ == (AppModel {
                            status_message: "You warmed the egg! Warmth: "@ + dec_digits(0nat)
                                + "%"@,
                            ..old(self)@
                        }),
                    }
                }
            }),
    {
        if matches!(self.game_state, GameState::GameOver) {
            return;
        }

        match self.pet.warm() {
            Ok(()) => {
                let warmth = self.pet.get_warmth();
                let mut msg = "You warmed the egg! Warmth: ".to_owned();
                msg.append(u64_to_string(warmth as u64).as_str());
                msg.append("%");
                self.status_message = msg;
            },
            Err(msg) => {
                self.status_message = msg.to_owned();
            },
        }
    }

    /// Feed the pet, or report why it cannot eat, triggering the eating
    /// reaction on success.
    pub fn feed_pet(&mut self, now_ms: u64)
        requires
            old(self).wf(),
        ensures
            final(self).wf(),
            old(self)@.game_state == GameState::GameOver ==> final(self)@ == old(self)@,
            old(self)@.game_state != GameState::GameOver ==> ({
                let p = old(self)@.pet;
                if p.stage == LifeStage::Egg {
                    final(self)@ == (AppModel {
                        status_message: "Can't feed an egg! Try warming it instead."@,
                        ..old(self)@
                    })
                } else if !can_act_now(p) {
                    final(self)@ == (AppModel {
                        status_message: "Pet cannot eat right now"@,
                        ..old(self)@
                    })
                } else {
                    &&& final(self)@.pet == (PetModel {
                        stats: StatsModel {
                            hunger: clamp_add(p.stats.hunger, 25),
                            energy: clamp_sub(p.stats.energy, 5),
                            ..p.stats
                        },
                        ..p
                    })
                    &&& final(self)@.status_message == "You fed "@ + p.name + "!"@
                    &&& engine_request_post(
                        old(self)@.anim,
                        final(self)@.anim,
                        AnimationType::ActionEating,
                        now_ms,
                    )
                    &&& final(self)@ == (AppModel {
                        pet: final(self)@.pet,
                        status_message: final(self)@.status_message,
                        anim: final(self)@.anim,
                        ..old(self)@
                    })
                }
            }),
    {
        if matches!(self.game_state, GameState::GameOver) {
            return;
        }

        match self.pet.feed() {
            Ok(()) => {
                let mut msg = "You fed ".to_owned();
                msg.append(self.pet.name.as_str());
                msg.append("!");
                self.status_message = msg;
                self.animated_pet.trigger(AnimationType::ActionEating, now_ms);
            },
            Err(msg) => {
                self.status_message = msg.to_owned();
            },
        }
    }

    /// Play with the pet, or report why it cannot play, triggering the
    /// playing reaction on success.
    pub fn play_with_pet(&mut self, now_ms: u64)
        requires
            old(self).wf(),
        ensures
            final(self).wf(),
            old(self)@.game_state == GameState::GameOver ==> final(self)@ == old(self)@,
            old(self)@.game_state != GameState::GameOver ==> ({
                let p = old(self)@.pet;
                if p.stage == LifeStage::Egg {
                    final(self)@ == (AppModel {
                        status_message: "Can't play with an egg!"@,
                        ..old(self)@
                    })
                } else if !can_act_now(p) {
                    final(self)@ == (AppModel {
                        status_message: "Pet cannot play right now"@,
                        ..old(self)@
                    })
                } else if p.stage == LifeStage::Baby && p.stats.energy < 30 {
                    final(self)@ == (AppModel {
                        status_message: "Baby is too tired. Let it sleep first!"@,
                        ..old(self)@
                    })
                } else if p.stage != LifeStage::Baby && p.stats.energy < 20 {
                    final(self)@ == (AppModel {
                        status_message: "Pet is too tired to play"@,
                        ..old(self)@
                    })
                } else {
                    &&& final(self)@.pet == (PetModel {
                        stats: if p.stage == LifeStage::Baby {
                            StatsModel {
                                happiness: clamp_add(p.stats.happiness, 15),
                                energy: clamp_sub(p.stats.energy, 20),
                                hunger: clamp_sub(p.stats.hunger, 10),
                                ..p.stats
                            }
                        } else {
                            StatsModel {
                                happiness: clamp_add(p.stats.happiness, 20),
                                energy: clamp_sub(p.stats.energy, 15),
                                hunger: clamp_sub(p.stats.hunger, 10),
                                ..p.stats
                            }
                        },
                        ..p
                    })
                    &&& final(self)@.status_message == "You played with "@ + p.name + "!"@
                    &&& engine_request_post(
                        old(self)@.anim,
                        final(self)@.anim,
                        AnimationType::ActionPlaying,
                        now_ms,
                    )
                    &&& final(self)@ == (AppModel {
                        pet: final(self)@.pet,
                        status_message: final(self)@.status_message,
                        anim: final(self)@.anim,
                        ..old(self)@
                    })
                }
            }),
    {
        if matches!(self.game_state, GameState::GameOver) {
            return;
        }

        match self.pet.play() {
            Ok(()) => {
                let mut msg = "You played with ".to_owned();
                msg.append(self.pet.name.as_str());
                msg.append("!");
                self.status_message = msg;
                self.animated_pet.trigger(AnimationType::ActionPlaying, now_ms);
            },
            Err(msg) => {
                self.status_message = msg.to_owned();
            },
        }
    }

    /// Clean the pet, or report why it cannot be cleaned, triggering the
    /// cleaning reaction on success.
    pub fn clean_pet(&mut self, now_ms: u64)
        requires
            old(self).wf(),
        ensures
            final(self).wf(),
            old(self)@.game_state == GameState::GameOver ==> final(self)@ == old(self)@,
            old(self)@.game_state != GameState::GameOver ==> ({
                let p = old(self)@.pet;
                if p.stage == LifeStage::Egg {
                    final(self)@ == (AppModel {
                        status_message: "Can't clean an egg!"@,
                        ..old(self)@
                    })
                } else if !can_act_now(p) {
                    final(self)@ == (AppModel {
                        status_message: "Pet cannot be cleaned right now"@,
                        ..old(self)@
                    })
                } else {
                    &&& final(self)@.pet == (PetModel {
                        stats: StatsModel { hygiene: 100u8, ..p.stats },
                        state: if p.state is Sick {
                            PetState::Normal
                        } else {
                            p.state
                        },
                        ..p
                    })
                    &&& final(self)@.status_message == "You cleaned "@ + p.name + "!"@
                    &&& engine_request_post(
                        old(self)@.anim,
                        final(self)@.anim,
                        AnimationType::ActionCleaning,
                        now_ms,
                    )
                    &&& final(self)@ == (AppModel {
                        pet: final(self)@.pet,
                        status_message: final(self)@.status_message,
                        anim: final(self)@.anim,
                        ..old(self)@
                    })
                }
            }),
    {
        if matches!(self.game_state, GameState::GameOver) {
            return;
        }

        match self.pet.clean() {
            Ok(()) => {
                let mut msg = "You cleaned ".to_owned();
                msg.append(self.pet.name.as_str());
                msg.append("!");
                self.status_message = msg;
                self.animated_pet.trigger(AnimationType::ActionCleaning, now_ms);
            },
            Err(msg) => {
                self.status_message = msg.to_owned();
            },
        }
    }

    /// Put the pet to sleep or wake it, whichever applies, triggering
    /// the matching animation on success.
    pub fn toggle_sleep(&mut self, now_ms: u64)
        requires
            old(self).wf(),
        ensures
            final(self).wf(),
            old(self)@.game_state == GameState::GameOver ==> final(self)@ == old(self)@,
            old(self)@.game_state != GameState::GameOver ==> ({
                let p = old(self)@.pet;
                if p.state is Sleeping {
                    &&& final(self)@.pet == (PetModel {
                        state: PetState::Normal,
                        stats: StatsModel {
                            energy: clamp_add(
                                p.stats.energy,
                                wake_gain(
                                    p.stage,
                                    (p.clock_ms.saturating_sub(p.state->Sleeping_since_ms)
                                        / 1000) as u64,
                                ),
                            ),
                            ..p.stats
                        },
                        ..p
                    })
                    &&& final(self)@.status_message == p.name + " woke up!"@
                    &&& engine_request_post(
                        old(self)@.anim,
                        final(self)@.anim,
                        AnimationType::TransitionWakeUp,
                        now_ms,
                    )
                    &&& final(self)@ == (AppModel {
                        pet: final(self)@.pet,
                        status_message: final(self)@.status_message,
                        anim: final(self)@.anim,
                        ..old(self)@
                    })
                } else if p.stage == LifeStage::Egg {
                    final(self)@ == (AppModel {
                        status_message: "Eggs don't sleep! Try warming it."@,
                        ..old(self)@
                    })
                } else if p.state is Dead {
                    final(self)@ == (AppModel { status_message: "Pet is dead"@, ..old(self)@ })
                } else {
                    &&& final(self)@.pet == (PetModel {
                        state: PetState::Sleeping { since_ms: p.clock_ms },
                        ..p
                    })
                    &&& final(self)@.status_message == p.name + " went to sleep!"@
                    &&& engine_request_post(
                        old(self)@.anim,
                        final(self)@.anim,
                        AnimationType::ActionSleeping,
                        now_ms,
                    )
                    &&& final(self)@ == (AppModel {
                        pet: final(self)@.pet,
                        status_message: final(self)@.status_message,
                        anim: final(self)@.anim,
                        ..old(self)@
                    })
                }
            }),
    {
        if matches!(self.game_state, GameState::GameOver) {
            return;
        }

        if matches!(self.pet.state, PetState::Sleeping { .. }) {
            match self.pet.wake() {
                Ok(()) => {
                    let mut msg = self.pet.name.clone();
                    msg.append(" woke up!");
                    self.status_message = msg;
                    self.animated_pet.trigger(AnimationType::TransitionWakeUp, now_ms);
                },
                Err(msg) => {
                    self.status_message = msg.to_owned();
                },
            }
        } else {
            match self.pet.sleep() {
                Ok(()) => {
                    let mut msg = self.pet.name.clone();
                    msg.append(" went to sleep!");
                    self.status_message = msg;
                    self.animated_pet.trigger(AnimationType::ActionSleeping, now_ms);
                },
                Err(msg) => {
                    self.status_message = msg.to_owned();
                },
            }
        }
    }

    /// Give the pet medicine, or report that it is not sick, triggering
    /// the medicine reaction on success.
    pub fn give_medicine(&mut self, now_ms: u64)
        requires
            old(self).wf(),
        ensures
            final(self).wf(),
            old(self)@.game_state == GameState::GameOver ==> final(self)@ == old(self)@,
            old(self)@.game_state != GameState::GameOver ==> ({
                let p = old(self)@.pet;
                if p.state is Sick {
                    &&& final(self)@.pet == (PetModel {
                        state: PetState::Normal,
                        stats: StatsModel {
                            health: clamp_add(p.stats.health, 20),
                            ..p.stats
                        },
                        ..p
                    })
                    &&& final(self)@.status_message == "You gave "@ + p.name + " medicine!"@
                    &&& engine_request_post(
                        old(self)@.anim,
                        final(self)@.anim,
                        AnimationType::ActionMedicine,
                        now_ms,
                    )
                    &&& final(self)@ == (AppModel {
                        pet: final(self)@.pet,
                        status_message: final(self)@.status_message,
                        anim: final(self)@.anim,
                        ..old(self)@
                    })
                } else {
                    final(self)@ == (AppModel { status_message: "Pet is not sick"@, ..old(self)@ })
                }
            }),
    {
        if matches!(self.game_state, GameState::GameOver) {
            return;
        }

        match self.pet.give_medicine() {
            Ok(()) => {
                let mut msg = "You gave ".to_owned();
                msg.append(self.pet.name.as_str());
                msg.append(" medicine!");
                self.status_message = msg;
                self.animated_pet.trigger(AnimationType::ActionMedicine, now_ms);
            },
            Err(msg) => {
                self.status_message = msg.to_owned();
            },
        }
    }
}

} // verus!
