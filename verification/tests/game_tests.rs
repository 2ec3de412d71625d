use mypet::game::App;
use mypet::game::GameState;
use mypet::kinds::AnimationType;
use mypet::pet::LifeStage;
use mypet::pet::PetState;

#[test]
fn new_app_starts_playing_with_an_egg() {
    let app = App::new();
    assert!(!app.should_quit);
    assert_eq!(app.game_state, GameState::Playing);
    assert_eq!(app.pet.stage, LifeStage::Egg);
    assert!(app.status_message.contains("FREEZING"));
    assert_eq!(
        app.animated_pet.particles().len(),
        0
    );
}

#[test]
fn warm_egg_reports_new_warmth() {
    let mut app = App::new();
    app.warm_egg();
    // The fresh egg starts at warmth 20; one warming adds 10.
    assert_eq!(app.status_message, "You warmed the egg! Warmth: 30%");
}

#[test]
fn feed_fails_for_egg_then_works_after_hatching() {
    let mut app = App::new();
    app.feed_pet(0);
    assert_eq!(app.status_message, "Can't feed an egg! Try warming it instead.");

    app.pet.stage = LifeStage::Baby;
    app.pet.egg_stats = None;
    let hunger_before = app.pet.stats.hunger.value();
    app.feed_pet(100);
    assert_eq!(app.status_message, "You fed Fluffy!");
    assert!(app.pet.stats.hunger.value() > hunger_before);
    assert_eq!(
        app.animated_pet.current_type(),
        Some(AnimationType::ActionEating)
    );
}

#[test]
fn toggle_sleep_round_trip() {
    let mut app = App::new();
    app.pet.stage = LifeStage::Adult;
    app.pet.egg_stats = None;

    app.toggle_sleep(0);
    assert_eq!(app.status_message, "Fluffy went to sleep!");
    assert!(matches!(app.pet.state, PetState::Sleeping { .. }));

    app.toggle_sleep(100);
    assert_eq!(app.status_message, "Fluffy woke up!");
    assert_eq!(app.pet.state, PetState::Normal);
}

#[test]
fn game_over_freezes_actions_and_restart_revives() {
    let mut app = App::new();
    app.game_state = GameState::GameOver;
    app.status_message = "The egg failed to hatch... Game Over!".to_string();

    // Player actions are ignored while the game is over.
    app.feed_pet(100);
    assert_eq!(app.status_message, "The egg failed to hatch... Game Over!");
    app.tick(200, 99, 0);
    assert_eq!(app.status_message, "The egg failed to hatch... Game Over!");

    app.restart(300);
    assert_eq!(app.game_state, GameState::Playing);
    assert_eq!(app.pet.stage, LifeStage::Egg);
    assert!(!app.pet.is_egg_dead());
    assert!(app.status_message.contains("FREEZING"));
}

#[test]
fn quit_sets_flag() {
    let mut app = App::new();
    app.quit();
    assert!(app.should_quit);
}

#[test]
fn tick_updates_status_from_pet() {
    let mut app = App::new();
    app.pet.stage = LifeStage::Adult;
    app.pet.egg_stats = None;
    // A chance roll of 99 never triggers an event; the status line comes
    // from the pet itself.
    app.tick(200, 99, 0);
    assert_eq!(app.status_message, "Fluffy is doing well!");
}
