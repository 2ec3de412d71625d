use mypet::frame::Color;
use mypet::frame::Particle;
use mypet::frame::ParticleSpec;

fn heart(lifetime_ms: u32) -> ParticleSpec {
    ParticleSpec {
        symbol: '*',
        x_offset: 1,
        y_offset: -2,
        vx_milli: 2000, // 2 cells per second to the right
        vy_milli: -1000, // 1 cell per second upward
        lifetime_ms,
        color: Color::Red,
    }
}

#[test]
fn particle_position_is_linear_in_time() {
    // Spawned at anchor (10, 10) with offset (1, -2): starts at (11, 8).
    let mut p = Particle::new(heart(500), 10, 10);
    assert_eq!(p.position(), (11, 8));

    // After 150 ms: x = 11 + 2 * 0.15 = 11.3 -> cell 11;
    // y = 8 - 1 * 0.15 = 7.85 -> cell 7.
    p.update(150);
    assert_eq!(p.position(), (11, 7));

    // After a full second in total: x = 11 + 2 = 13, y = 8 - 1 = 7.
    p.update(850);
    assert_eq!(p.position(), (13, 7));
}

#[test]
fn split_updates_accumulate_without_drift() {
    let mut once = Particle::new(heart(10_000), 10, 10);
    once.update(700);

    let mut twice = Particle::new(heart(10_000), 10, 10);
    twice.update(300);
    twice.update(400);

    assert_eq!(once.position(), twice.position());
}

#[test]
fn particle_expires_at_lifetime() {
    let mut p = Particle::new(heart(100), 10, 10);
    assert!(p.is_alive());
    p.update(99);
    assert!(p.is_alive());
    p.update(1);
    assert!(!p.is_alive());
}

#[test]
fn shorter_lifetime_prunes_first() {
    // Two particles at the same anchor, identical except for lifetime
    // 100 ms versus 500 ms: after 150 ms, exactly one remains live.
    let mut particles = vec![
        Particle::new(heart(100), 10, 10),
        Particle::new(heart(500), 10, 10),
    ];
    for p in &mut particles {
        p.update(150);
    }
    particles.retain(|p| p.is_alive());
    assert_eq!(particles.len(), 1);
    assert_eq!(particles[0].spec.lifetime_ms, 500);
}

#[test]
fn position_clamps_at_screen_edges() {
    let spec = ParticleSpec {
        symbol: '~',
        x_offset: -30,
        y_offset: 0,
        vx_milli: 0,
        vy_milli: 0,
        lifetime_ms: 1000,
        color: Color::Cyan,
    };
    // Spawned left of the screen: the cell clamps to 0.
    let p = Particle::new(spec, 10, 10);
    assert_eq!(p.position(), (0, 10));
}
