use suburban_rumble::buttons::{button_target, CreditsButton, StartButton};
use suburban_rumble::game::Game;
use suburban_rumble::mode::Mode;
use suburban_rumble::timer::{AnimationTimer, CountdownTimer};

#[test]
fn button_regions_are_strict_and_disjoint() {
    // inside the Start button
    assert_eq!(button_target(600, 400), Some(Mode::Conversation));
    // inside the Credits button
    assert_eq!(button_target(600, 300), Some(Mode::Credits));
    // on the Start button's border: outside (the bounds are strict)
    assert_eq!(button_target(550, 400), None);
    assert_eq!(button_target(725, 400), None);
    assert_eq!(button_target(600, 375), None);
    assert_eq!(button_target(600, 425), None);
    // just inside the corners
    assert_eq!(button_target(551, 376), Some(Mode::Conversation));
    assert_eq!(button_target(724, 424), Some(Mode::Conversation));
    assert!(StartButton::contains(700, 380));
    assert!(!StartButton::contains(700, 340));
    assert!(CreditsButton::contains(536, 281));
    assert!(!CreditsButton::contains(535, 281));
    // far away from either button
    assert_eq!(button_target(0, 0), None);
    assert_eq!(button_target(-50, 400), None);
}

#[test]
fn credits_items_follow_their_reveal_windows() {
    let mut g = Game::new();
    g.begin_tick();
    g.request_mode(Mode::Credits).unwrap();
    // before any time passes, nothing is shown yet
    for i in 0..8 {
        assert!(!g.popup_shown(i));
    }
    // at time zero the first item appears
    g.begin_tick();
    g.credits_tick(0);
    assert!(g.popup_shown(0));
    for i in 1..8 {
        assert!(!g.popup_shown(i));
    }
    // at three seconds the first hides and the second shows
    g.credits_tick(3000);
    assert!(!g.popup_shown(0));
    assert!(g.popup_shown(1));
    // in the middle of the sixth window only the sixth item shows
    g.credits_tick(13500);
    for i in 0..8 {
        assert_eq!(g.popup_shown(i), i == 5);
    }
    // after the roll's end everything is hidden, and stays so
    g.credits_tick(10_000_000);
    for i in 0..8 {
        assert!(!g.popup_shown(i));
    }
}

#[test]
fn credits_timeline_restarts_on_reentry() {
    let mut g = Game::new();
    g.begin_tick();
    g.request_mode(Mode::Credits).unwrap();
    g.begin_tick();
    g.credits_tick(7000);
    assert!(g.popup_shown(2));
    // leave and come back: the roll starts from the beginning
    g.begin_tick();
    g.request_mode(Mode::Start).unwrap();
    g.begin_tick();
    g.request_mode(Mode::Credits).unwrap();
    g.begin_tick();
    g.credits_tick(100);
    assert!(g.popup_shown(0));
    assert!(!g.popup_shown(2));
}

#[test]
fn animation_timer_fires_once_per_period_and_wraps() {
    let mut t = AnimationTimer::new(125);
    assert!(!t.tick(100));
    assert!(t.tick(25));
    assert!(!t.tick(124));
    assert!(t.tick(1));
    // a long lapse fires too, and the remainder carries over
    assert!(t.tick(300));
    assert!(t.tick(75));
}

#[test]
fn countdown_fires_exactly_once() {
    let mut t = CountdownTimer::new(1125);
    assert!(!t.tick(1000));
    assert!(!t.is_finished());
    assert!(t.tick(125));
    assert!(t.is_finished());
    assert!(!t.tick(50));
    assert!(t.is_finished());
}

#[test]
fn sprite_frames_wrap_around_their_sheets() {
    let mut g = Game::new();
    // 46 frames on the start sheet: 46 periods bring it back to frame 0
    for _ in 0..45 {
        g.animate_start(125);
    }
    assert_eq!(g.start_frame_index(), 45);
    g.animate_start(125);
    assert_eq!(g.start_frame_index(), 0);
    // a part of a period does not advance the frame
    g.animate_start(100);
    assert_eq!(g.start_frame_index(), 0);
    g.animate_start(25);
    assert_eq!(g.start_frame_index(), 1);
    g.begin_tick();
    // entering LevelChange: 25 frames on its sheet, starting at 0
    g.request_mode(Mode::LevelChange).unwrap();
    assert_eq!(g.level_frame_index(), 0);
    for _ in 0..24 {
        g.animate_level_change(125);
    }
    assert_eq!(g.level_frame_index(), 24);
    // one more period wraps the frame index to the sheet's start
    g.animate_level_change(125);
    assert_eq!(g.level_frame_index(), 0);
    // the animation is cosmetic: the mode did not change by itself
    assert_eq!(g.current_mode(), Mode::LevelChange);
}
