use mypet::events::EventSystem;
use mypet::events::EventType;
use mypet::events::GameEvent;
use mypet::pet::LifeStage;
use mypet::pet::Pet;
use mypet::stats::StatValue;

#[test]
fn test_event_message() {
    let event = EventType::MadeMess;
    let msg = event.message("Fluffy");
    assert!(msg.contains("Fluffy"));
    assert!(msg.contains("mess"));
}

#[test]
fn test_event_history_limit() {
    let mut system = EventSystem::new();
    system.max_history = 3;

    // Create a dummy pet for testing
    let _pet = Pet::new("Test");

    // Add 5 events manually
    for i in 0..5 {
        system.event_history.push(GameEvent {
            event_type: EventType::FoundTreasure,
            timestamp_ms: 0,
            message: format!("Event {}", i),
        });
    }

    // Should only keep 3
    assert_eq!(system.event_history.len(), 5); // Before trimming

    // Trim manually
    while system.event_history.len() > system.max_history {
        system.event_history.remove(0);
    }

    assert_eq!(system.event_history.len(), 3);
}

#[test]
fn low_pick_roll_selects_first_candidate() {
    let mut system = EventSystem::new();
    let mut pet = Pet::new("Test");
    pet.stage = LifeStage::Baby;
    pet.egg_stats = None;
    // Candidates: FoundTreasure (happiness 50 > 40, weight 15) and
    // BadDream (baby with happiness below 60, weight 25). A ticket of 0
    // lands on the first.
    system.update(&mut pet, 15_000, 0, 0);
    let pending = system.pending_event.as_ref().expect("an event should trigger");
    assert_eq!(pending.event_type, EventType::FoundTreasure);
    assert!(pending.message.contains("shiny"));
    assert_eq!(pet.stats.happiness.value(), 60);
    assert_eq!(system.event_history.len(), 1);
}

#[test]
fn pick_roll_past_first_weight_selects_next() {
    let mut system = EventSystem::new();
    let mut pet = Pet::new("Test");
    pet.stage = LifeStage::Baby;
    pet.egg_stats = None;
    // Same candidates as above; total weight 40, a ticket of 15 lands on
    // BadDream.
    system.update(&mut pet, 15_000, 0, 15);
    let pending = system.pending_event.as_ref().expect("an event should trigger");
    assert_eq!(pending.event_type, EventType::BadDream);
    assert_eq!(pet.stats.happiness.value(), 40);
}

#[test]
fn no_event_during_cooldown_or_on_missed_roll() {
    let mut system = EventSystem::new();
    let mut pet = Pet::new("Test");
    pet.stage = LifeStage::Baby;
    pet.egg_stats = None;
    // Cooldown not yet elapsed.
    system.update(&mut pet, 10_000, 0, 0);
    assert!(system.pending_event.is_none());
    // Cooldown elapsed but the chance roll misses the 5% gate.
    system.update(&mut pet, 15_000, 5, 0);
    assert!(system.pending_event.is_none());
    assert_eq!(pet.stats.happiness.value(), 50);
}

#[test]
fn recent_events_returns_newest_first() {
    let mut system = EventSystem::new();
    for i in 0..4 {
        system.event_history.push(GameEvent {
            event_type: EventType::Lonely,
            timestamp_ms: i,
            message: format!("Event {}", i),
        });
    }
    let recent = system.recent_events(3);
    assert_eq!(recent.len(), 3);
    assert_eq!(recent[0].message, "Event 3");
    assert_eq!(recent[2].message, "Event 1");
}

#[test]
fn sleeping_pet_gets_no_events() {
    let mut system = EventSystem::new();
    let mut pet = Pet::new("Test");
    pet.stage = LifeStage::Baby;
    pet.egg_stats = None;
    pet.state = mypet::pet::PetState::Sleeping { since_ms: 0 };
    system.update(&mut pet, 20_000, 0, 0);
    assert!(system.pending_event.is_none());
}

#[test]
fn no_candidates_means_no_event() {
    let mut system = EventSystem::new();
    let mut pet = Pet::new("Test");
    pet.stage = LifeStage::Adult;
    pet.egg_stats = None;
    // Make every candidate condition false: middling hygiene and hunger,
    // happiness in the dead zone between 30 and 41.
    pet.stats.hygiene = StatValue::new(40);
    pet.stats.happiness = StatValue::new(35);
    pet.stats.hunger = StatValue::new(50);
    system.update(&mut pet, 20_000, 0, 7);
    assert!(system.pending_event.is_none());
}
