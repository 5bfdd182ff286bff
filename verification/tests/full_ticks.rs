use suburban_rumble::events::{ConvLossEvent, ConvWinEvent, FightLossEvent, FightWinEvent};
use suburban_rumble::game::Game;
use suburban_rumble::mode::Mode;

fn quiet(g: &mut Game, delta_ms: u64) {
    let cl: Vec<ConvLossEvent> = Vec::new();
    let cw: Vec<ConvWinEvent> = Vec::new();
    let fl: Vec<FightLossEvent> = Vec::new();
    let fw: Vec<FightWinEvent> = Vec::new();
    g.tick(delta_ms, false, false, None, &cl, &cw, &fl, &fw);
}

fn click(g: &mut Game, x: i64, y: i64) {
    let cl: Vec<ConvLossEvent> = Vec::new();
    let cw: Vec<ConvWinEvent> = Vec::new();
    let fl: Vec<FightLossEvent> = Vec::new();
    let fw: Vec<FightWinEvent> = Vec::new();
    g.tick(0, false, true, Some((x, y)), &cl, &cw, &fl, &fw);
}

#[test]
fn a_full_first_level_through_whole_ticks() {
    let mut g = Game::new();
    // some idle frames on the start screen
    quiet(&mut g, 16);
    quiet(&mut g, 16);
    assert_eq!(g.current_mode(), Mode::Start);
    // the player clicks Start and talks their way through level 1
    click(&mut g, 640, 400);
    assert_eq!(g.current_mode(), Mode::Conversation);
    let cl: Vec<ConvLossEvent> = Vec::new();
    let cw = vec![ConvWinEvent()];
    let fl: Vec<FightLossEvent> = Vec::new();
    let fw: Vec<FightWinEvent> = Vec::new();
    g.tick(16, false, false, None, &cl, &cw, &fl, &fw);
    assert_eq!(g.current_mode(), Mode::LevelChange);
    assert_eq!(g.current_level().number(), 2);
    // the level-change animation plays for 1125 ms, then back to talking
    quiet(&mut g, 1000);
    assert_eq!(g.current_mode(), Mode::LevelChange);
    quiet(&mut g, 200);
    assert_eq!(g.current_mode(), Mode::Conversation);
    assert_eq!(g.current_level().number(), 2);
}

#[test]
fn restart_preempts_other_requests_in_the_same_tick() {
    let mut g = Game::new();
    click(&mut g, 640, 400);
    assert_eq!(g.current_mode(), Mode::Conversation);
    // restart key and a conversation loss arrive in one tick: restart wins
    let cl = vec![ConvLossEvent()];
    let cw: Vec<ConvWinEvent> = Vec::new();
    let fl: Vec<FightLossEvent> = Vec::new();
    let fw: Vec<FightWinEvent> = Vec::new();
    g.tick(16, true, false, None, &cl, &cw, &fl, &fw);
    assert_eq!(g.current_mode(), Mode::Start);
}

#[test]
fn losing_the_fight_rolls_the_credits() {
    let mut g = Game::new();
    click(&mut g, 640, 400);
    let cl = vec![ConvLossEvent()];
    let cw: Vec<ConvWinEvent> = Vec::new();
    let fl: Vec<FightLossEvent> = Vec::new();
    let fw: Vec<FightWinEvent> = Vec::new();
    g.tick(16, false, false, None, &cl, &cw, &fl, &fw);
    assert_eq!(g.current_mode(), Mode::Fight);
    let cl: Vec<ConvLossEvent> = Vec::new();
    let fl = vec![FightLossEvent()];
    g.tick(16, false, false, None, &cl, &cw, &fl, &fw);
    assert_eq!(g.current_mode(), Mode::Credits);
    // the roll reveals its first item as time passes
    quiet(&mut g, 100);
    assert!(g.popup_shown(0));
    assert!(!g.popup_shown(1));
}

#[test]
fn clicking_the_credits_button_shows_the_credits() {
    let mut g = Game::new();
    click(&mut g, 640, 300);
    assert_eq!(g.current_mode(), Mode::Credits);
    // a click outside both buttons requests nothing
    let mut g = Game::new();
    click(&mut g, 100, 100);
    assert_eq!(g.current_mode(), Mode::Start);
}
