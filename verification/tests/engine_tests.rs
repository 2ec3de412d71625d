use mypet::engine::ActiveAnimation;
use mypet::engine::AnimationEngine;
use mypet::kinds::AnimationPriority;
use mypet::kinds::AnimationType;
use mypet::library::FrameCache;

#[test]
fn priority_and_is_infinite_are_pure() {
    let kinds = [
        AnimationType::IdleNeutral,
        AnimationType::MoodHappy,
        AnimationType::ActionEating,
        AnimationType::TransitionDie,
        AnimationType::EffectHearts,
    ];
    for kind in kinds {
        assert_eq!(kind.priority(), kind.priority());
        assert_eq!(kind.is_infinite(), kind.is_infinite());
        assert_eq!(kind.duration_ms(), kind.duration_ms());
    }
    assert_eq!(AnimationType::IdleNeutral.priority(), AnimationPriority::Idle);
    assert_eq!(AnimationType::ActionEating.priority(), AnimationPriority::Action);
    assert_eq!(AnimationType::MoodHappy.priority(), AnimationPriority::Mood);
    assert_eq!(AnimationType::EffectSweat.priority(), AnimationPriority::Background);
    assert!(AnimationType::IdleNeutral.is_infinite());
    assert!(AnimationType::MoodHappy.is_infinite());
    assert!(!AnimationType::MoodExcited.is_infinite());
    assert!(!AnimationType::ActionEating.is_infinite());
}

#[test]
fn higher_priority_request_replaces_immediately() {
    // Engine idle on the infinite neutral loop; an action outranks it.
    let mut engine = AnimationEngine::new(0);
    engine.request(AnimationType::IdleNeutral, 0);
    assert_eq!(engine.current_type(), Some(AnimationType::IdleNeutral));

    engine.request(AnimationType::ActionEating, 10);
    assert_eq!(engine.current_type(), Some(AnimationType::ActionEating));

    // The first eating frame is showing immediately.
    let art = engine.current_art().expect("an animation is playing");
    assert_eq!(art[0], "  /\\_/\\  #");
}

#[test]
fn eating_falls_back_to_idle_when_queue_empty() {
    // The eating sequence is five frames of 300 ms with one loop; after
    // its total duration has elapsed frame by frame, the engine
    // re-requests the default idle loop.
    let mut engine = AnimationEngine::new(0);
    engine.request(AnimationType::ActionEating, 0);

    let mut now: u64 = 0;
    for _ in 0..5 {
        now += 320;
        engine.update(now);
    }
    assert_eq!(engine.current_type(), Some(AnimationType::IdleNeutral));
    let art = engine.current_art().expect("idle is playing");
    assert_eq!(art[1], " ( o.o ) ");
}

#[test]
fn lower_priority_request_queues_and_promotes_later() {
    // A mood request under a playing action queues; when the action
    // completes, the mood is promoted and loops forever.
    let mut engine = AnimationEngine::new(0);
    engine.request(AnimationType::ActionEating, 0);
    engine.request(AnimationType::MoodHappy, 5);
    assert_eq!(engine.current_type(), Some(AnimationType::ActionEating));

    let mut now: u64 = 0;
    for _ in 0..5 {
        now += 320;
        engine.update(now);
    }
    assert_eq!(engine.current_type(), Some(AnimationType::MoodHappy));

    // MoodHappy is infinite: many more updates never retire it.
    for _ in 0..20 {
        now += 600;
        engine.update(now);
    }
    assert_eq!(engine.current_type(), Some(AnimationType::MoodHappy));
}

#[test]
fn infinite_animation_never_completes_and_cycles() {
    let cache = FrameCache::new();
    let mut anim = ActiveAnimation::new(
        AnimationType::IdleNeutral,
        cache.load(AnimationType::IdleNeutral),
        0,
    );
    // The neutral idle loop has three frames; the index cycles with
    // period three and `advance` never reports completion.
    let mut expected: usize = 0;
    for step in 1..=12u64 {
        let completed = anim.advance(step * 1000);
        assert!(!completed);
        expected = (expected + 1) % 3;
        assert_eq!(anim.current_frame, expected);
    }
}

#[test]
fn library_serves_authored_sequences() {
    let cache = FrameCache::new();

    let idle = cache.load(AnimationType::IdleNeutral);
    assert_eq!(idle.len(), 3);
    assert_eq!(idle[0].duration_ms, 500);
    assert_eq!(idle[1].duration_ms, 200);
    assert_eq!(idle[2].duration_ms, 500);
    assert!(idle[0].color_override.is_none());

    let sleeping = cache.load(AnimationType::IdleSleeping);
    assert_eq!(sleeping.len(), 1);
    assert_eq!(sleeping[0].color_override, Some(mypet::frame::Color::DarkGray));

    // Background effects have no authored sequence and get the
    // placeholder frame.
    let fallback = cache.load(AnimationType::EffectHearts);
    assert_eq!(fallback.len(), 1);
    assert_eq!(fallback[0].duration_ms, 100);
    assert_eq!(fallback[0].art[1], " ( ?.? )  ");
}

#[test]
fn one_update_advances_at_most_one_frame() {
    // Even after a long stall, a single update moves one frame forward.
    let mut engine = AnimationEngine::new(0);
    engine.request(AnimationType::ActionEating, 0);
    engine.update(10_000);
    assert_eq!(engine.current_type(), Some(AnimationType::ActionEating));
    let art = engine.current_art().expect("still playing");
    assert_eq!(art[0], "  /\\_/#  ");
}

#[test]
fn should_advance_waits_for_frame_duration() {
    let cache = FrameCache::new();
    let anim = ActiveAnimation::new(
        AnimationType::IdleNeutral,
        cache.load(AnimationType::IdleNeutral),
        1000,
    );
    assert!(!anim.should_advance(1000));
    assert!(!anim.should_advance(1499));
    assert!(anim.should_advance(1500));
}

#[test]
fn decimal_rendering_is_exact() {
    assert_eq!(mypet::decimal::u64_to_string(0), "0");
    assert_eq!(mypet::decimal::u64_to_string(7), "7");
    assert_eq!(mypet::decimal::u64_to_string(12345), "12345");
    assert_eq!(mypet::decimal::u64_to_string(u64::MAX), "18446744073709551615");
}
