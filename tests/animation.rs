use gol_ledstrip::animation::{
    classify, Animator, LedstripColors, Transition, MAX_BRIGHTNESS, TRANSITION_STEPS,
};
use gol_ledstrip::color::Rgb;

const LIVE: Rgb = Rgb { r: 16, g: 5, b: 27 };
const DARK: Rgb = Rgb { r: 0, g: 0, b: 0 };

#[test]
fn classify_all_pairs() {
    assert_eq!(classify(true, true), Transition::StillAlive);
    assert_eq!(classify(true, false), Transition::AliveToDead);
    assert_eq!(classify(false, true), Transition::DeadToAlive);
    assert_eq!(classify(false, false), Transition::StillDead);
}

#[test]
fn palette_ends_are_scaled_live_and_dead_colours() {
    assert_eq!(MAX_BRIGHTNESS, 30);
    let p = LedstripColors::new();
    let first = p.get_color_at(0);
    assert_eq!(first.current_still_alive, LIVE);
    assert_eq!(first.current_alive_to_dead, LIVE);
    assert_eq!(first.current_dead_to_alive, DARK);
    assert_eq!(first.current_still_dead, DARK);
    let last = p.get_color_at(TRANSITION_STEPS - 1);
    assert_eq!(last.current_still_alive, LIVE);
    assert_eq!(last.current_alive_to_dead, DARK);
    assert_eq!(last.current_dead_to_alive, LIVE);
    assert_eq!(last.current_still_dead, DARK);
}

#[test]
fn palette_gradient_interpolates() {
    let p = LedstripColors::new();
    assert_eq!(p.color_for(Transition::AliveToDead, 25), Rgb { r: 8, g: 2, b: 13 });
    let white = LedstripColors::with_colors(Rgb::new(255, 255, 255), Rgb::new(0, 0, 0), 255);
    assert_eq!(white.color_for(Transition::AliveToDead, 0), Rgb::new(255, 255, 255));
    assert_eq!(white.color_for(Transition::AliveToDead, 1), Rgb::new(249, 249, 249));
    assert_eq!(white.color_for(Transition::DeadToAlive, 1), Rgb::new(5, 5, 5));
    assert_eq!(white.color_for(Transition::AliveToDead, 49), Rgb::new(0, 0, 0));
}

#[test]
fn palette_brightness_scales_each_channel() {
    let p = LedstripColors::with_colors(Rgb::new(200, 100, 10), Rgb::new(1, 2, 3), 127);
    assert_eq!(p.color_for(Transition::StillAlive, 7), Rgb::new(100, 50, 5));
    assert_eq!(p.color_for(Transition::StillDead, 7), Rgb::new(0, 1, 1));
}

#[test]
fn clamped_index_past_the_end() {
    let p = LedstripColors::new();
    for t in [
        Transition::StillAlive,
        Transition::AliveToDead,
        Transition::DeadToAlive,
        Transition::StillDead,
    ] {
        let last = p.color_for(t, TRANSITION_STEPS - 1);
        assert_eq!(p.color_for(t, TRANSITION_STEPS), last);
        assert_eq!(p.color_for(t, 1000), last);
    }
}

#[test]
fn frame_uses_each_category_table() {
    let p = LedstripColors::new();
    let before = [true, true, false, false];
    let after = [true, false, true, false];
    for step in [0, TRANSITION_STEPS - 1, TRANSITION_STEPS, TRANSITION_STEPS + 7] {
        let f = p.frame(&before, &after, step);
        assert_eq!(f.len(), 4);
        assert_eq!(f[0], p.color_for(Transition::StillAlive, step));
        assert_eq!(f[1], p.color_for(Transition::AliveToDead, step));
        assert_eq!(f[2], p.color_for(Transition::DeadToAlive, step));
        assert_eq!(f[3], p.color_for(Transition::StillDead, step));
    }
    assert_eq!(p.frame(&before, &after, 0), vec![LIVE, LIVE, DARK, DARK]);
    assert_eq!(p.frame(&before, &after, TRANSITION_STEPS - 1), vec![LIVE, DARK, LIVE, DARK]);
    assert_eq!(p.frame(&before, &after, TRANSITION_STEPS + 3), vec![LIVE, DARK, LIVE, DARK]);
}

fn white_animator() -> Animator {
    let palette = LedstripColors::with_colors(Rgb::new(255, 255, 255), Rgb::new(0, 0, 0), 255);
    Animator::new(palette, 4)
}

#[test]
fn animator_idle_until_a_snapshot_arrives() {
    let mut a = white_animator();
    assert!(a.is_idle());
    assert_eq!(a.advance(None), None);
}

#[test]
fn animator_plays_every_step_then_stops() {
    let mut a = white_animator();
    let f0 = a.advance(Some(vec![true, false, true, false])).unwrap();
    assert_eq!(f0, vec![Rgb::new(0, 0, 0); 4]);
    let f1 = a.advance(None).unwrap();
    let grey = Rgb::new(5, 5, 5);
    let dark = Rgb::new(0, 0, 0);
    assert_eq!(f1, vec![grey, dark, grey, dark]);
    let mut frames = 2;
    let mut last = f1;
    while let Some(f) = a.advance(None) {
        frames += 1;
        last = f;
    }
    assert_eq!(frames, TRANSITION_STEPS);
    let white = Rgb::new(255, 255, 255);
    assert_eq!(last, vec![white, dark, white, dark]);
    assert!(a.is_idle());
}

#[test]
fn animator_abandons_stale_transition() {
    let mut a = white_animator();
    a.advance(Some(vec![true, false, true, false]));
    for _ in 0..10 {
        a.advance(None);
    }
    // the newer snapshot restarts from step 0, from the snapshot last received
    let f = a.advance(Some(vec![true, true, false, false])).unwrap();
    let white = Rgb::new(255, 255, 255);
    let dark = Rgb::new(0, 0, 0);
    assert_eq!(f, vec![white, dark, white, dark]);
    let mut frames = 1;
    while a.advance(None).is_some() {
        frames += 1;
    }
    assert_eq!(frames, TRANSITION_STEPS);
}
