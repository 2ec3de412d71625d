use mypet::pet::LifeStage;
use mypet::pet::Pet;
use mypet::pet::PetState;
use mypet::stats::StatValue;

#[test]
fn pet_starts_as_egg() {
    let pet = Pet::new("Test");
    assert_eq!(pet.stage, LifeStage::Egg);
}

#[test]
fn pet_ages_correctly() {
    let mut pet = Pet::new("Test");
    // Simulate hatching by setting age to after hatching and clearing egg stats
    pet.age_seconds = 31; // Just over 30s
    pet.stage = LifeStage::Baby; // Skip egg stage
    pet.update_life_stage();
    assert_eq!(pet.stage, LifeStage::Baby);

    // Now test transition to Child (5 minutes = 300 seconds)
    pet.age_seconds = 301;
    pet.update_life_stage();
    assert_eq!(pet.stage, LifeStage::Child);
}

#[test]
fn feeding_increases_hunger() {
    let mut pet = Pet::new("Test");
    pet.stage = LifeStage::Baby; // Skip egg stage
    pet.stats.hunger = StatValue::new(30);
    pet.feed().unwrap();
    assert!(pet.stats.hunger.value() > 30);
}

#[test]
fn sleeping_pet_cannot_eat() {
    let mut pet = Pet::new("Test");
    pet.state = PetState::Sleeping { since_ms: 0 };
    assert!(pet.feed().is_err());
}

#[test]
fn egg_hatches_after_incubation() {
    let mut pet = Pet::new("Test");
    // Keep the egg warm and advance in 5-second steps; 6 ticks of +17
    // incubation pass 100.
    for _ in 0..8 {
        let _ = pet.warm();
        let _ = pet.warm();
        pet.update(5000);
    }
    assert_eq!(pet.stage, LifeStage::Baby);
    assert!(pet.egg_stats.is_none());
}

#[test]
fn cold_egg_hatches_weak() {
    let mut pet = Pet::new("Test");
    // Never warm it: incubation outruns the health loss, so the egg
    // hatches on the sixth tick, but the cold costs the baby 10 health,
    // happiness and energy.
    for _ in 0..6 {
        pet.update(5000);
    }
    assert_eq!(pet.stage, LifeStage::Baby);
    assert!(pet.egg_stats.is_none());
    assert_eq!(pet.stats.health.value(), 90);
    assert_eq!(pet.stats.happiness.value(), 40);
    assert_eq!(pet.stats.energy.value(), 40);
}

#[test]
fn wake_restores_energy_by_sleep_time() {
    let mut pet = Pet::new("Test");
    pet.stage = LifeStage::Adult;
    pet.egg_stats = None;
    pet.stats.energy = StatValue::new(10);
    pet.sleep().unwrap();
    pet.clock_ms += 10_000; // sleep for 10 seconds
    pet.wake().unwrap();
    // 10 seconds of a 30-second full recharge: +33 energy.
    assert_eq!(pet.stats.energy.value(), 43);
    assert_eq!(pet.state, PetState::Normal);
}

#[test]
fn medicine_cures_sickness() {
    let mut pet = Pet::new("Test");
    pet.stage = LifeStage::Adult;
    pet.egg_stats = None;
    assert!(pet.give_medicine().is_err());
    pet.state = PetState::Sick { since_ms: 0 };
    pet.stats.health = StatValue::new(50);
    pet.give_medicine().unwrap();
    assert_eq!(pet.state, PetState::Normal);
    assert_eq!(pet.stats.health.value(), 70);
}

#[test]
fn age_formats_units() {
    let mut pet = Pet::new("Test");
    pet.age_seconds = 9;
    assert_eq!(pet.age_formatted(), "9s");
    pet.age_seconds = 65;
    assert_eq!(pet.age_formatted(), "1m 5s");
    pet.age_seconds = 3725;
    assert_eq!(pet.age_formatted(), "1h 2m 5s");
}

#[test]
fn fresh_egg_status_warns_of_cold() {
    let pet = Pet::new("Chilly");
    let msg = pet.status_message();
    assert!(msg.contains("FREEZING"));
}

#[test]
fn every_action_refuses_the_wrong_state() {
    // Eggs only take warmth.
    let mut egg = Pet::new("Test");
    assert_eq!(egg.feed(), Err("Can't feed an egg! Try warming it instead."));
    assert_eq!(egg.play(), Err("Can't play with an egg!"));
    assert_eq!(egg.clean(), Err("Can't clean an egg!"));
    assert_eq!(egg.sleep(), Err("Eggs don't sleep! Try warming it."));
    assert_eq!(egg.wake(), Err("Pet is not sleeping"));
    assert_eq!(egg.give_medicine(), Err("Pet is not sick"));

    // A fully warm egg refuses more warmth.
    for _ in 0..10 {
        let _ = egg.warm();
    }
    assert_eq!(egg.warm(), Err("The egg is warm enough!"));

    // A hatched pet refuses warming.
    let mut pet = Pet::new("Test");
    pet.stage = LifeStage::Adult;
    pet.egg_stats = None;
    assert_eq!(pet.warm(), Err("The pet has already hatched!"));

    // Tiredness blocks play.
    pet.stats.energy = StatValue::new(10);
    assert_eq!(pet.play(), Err("Pet is too tired to play"));
    pet.stage = LifeStage::Baby;
    pet.stats.energy = StatValue::new(25);
    assert_eq!(pet.play(), Err("Baby is too tired. Let it sleep first!"));

    // Sleep bookkeeping.
    pet.sleep().unwrap();
    assert_eq!(pet.sleep(), Err("Pet is already sleeping"));
    assert_eq!(pet.feed(), Err("Pet cannot eat right now"));
    assert_eq!(pet.play(), Err("Pet cannot play right now"));
    assert_eq!(pet.clean(), Err("Pet cannot be cleaned right now"));

    // Death blocks everything.
    pet.state = PetState::Dead;
    assert_eq!(pet.sleep(), Err("Pet is dead"));
}

#[test]
fn play_costs_and_gains_exactly() {
    let mut pet = Pet::new("Test");
    pet.stage = LifeStage::Adult;
    pet.egg_stats = None;
    pet.play().unwrap();
    assert_eq!(pet.stats.happiness.value(), 70);
    assert_eq!(pet.stats.energy.value(), 35);
    assert_eq!(pet.stats.hunger.value(), 40);

    let mut baby = Pet::new("Test");
    baby.stage = LifeStage::Baby;
    baby.egg_stats = None;
    baby.play().unwrap();
    assert_eq!(baby.stats.happiness.value(), 65);
    assert_eq!(baby.stats.energy.value(), 30);
    assert_eq!(baby.stats.hunger.value(), 40);
}
