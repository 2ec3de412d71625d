use mypet::stats::StatValue;
use mypet::stats::Stats;

#[test]
fn stat_value_clamps_at_max() {
    let mut stat = StatValue::new(50);
    stat.add(100);
    assert_eq!(stat.value(), 100);
}

#[test]
fn stat_value_clamps_at_min() {
    let mut stat = StatValue::new(50);
    stat.sub(100);
    assert_eq!(stat.value(), 0);
}

#[test]
fn stat_value_new_clamps_input() {
    let stat = StatValue::new(150);
    assert_eq!(stat.value(), 100);

    let stat = StatValue::new(0);
    assert_eq!(stat.value(), 0);
}

#[test]
fn stats_decay_reduces_values() {
    let mut stats = Stats::new();
    let initial_hunger = stats.hunger.value();

    stats.decay();

    assert!(stats.hunger.value() < initial_hunger);
}

#[test]
fn stat_value_set_clamps() {
    let mut stat = StatValue::new(10);
    stat.set(250);
    assert_eq!(stat.value(), 100);
    assert!(stat.is_max());
    stat.set(0);
    assert!(stat.is_min());
}

#[test]
fn decay_hits_health_when_starving() {
    let mut stats = Stats::new();
    stats.hunger = StatValue::new(1);
    let health_before = stats.health.value();
    stats.decay();
    assert_eq!(stats.hunger.value(), 0);
    assert_eq!(stats.health.value(), health_before - 1);
}
