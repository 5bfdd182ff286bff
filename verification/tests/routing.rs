use suburban_rumble::events::{ConvLossEvent, ConvWinEvent, FightLossEvent, FightWinEvent};
use suburban_rumble::game::Game;
use suburban_rumble::mode::Mode;

fn no_conv_losses() -> Vec<ConvLossEvent> {
    Vec::new()
}

fn no_conv_wins() -> Vec<ConvWinEvent> {
    Vec::new()
}

fn no_fight_losses() -> Vec<FightLossEvent> {
    Vec::new()
}

fn no_fight_wins() -> Vec<FightWinEvent> {
    Vec::new()
}

/// A game standing in `mode` at level ordinal `level`, budget free.
fn game_at(mode: Mode, level: u64) -> Game {
    let mut g = Game::new();
    let wins: Vec<FightWinEvent> = (1..level).map(|_| FightWinEvent()).collect();
    g.fight_over(&no_fight_losses(), &wins);
    assert_eq!(g.current_level().number(), level);
    g.begin_tick();
    if g.current_mode() != mode {
        g.request_mode(mode).unwrap();
    }
    g.begin_tick();
    g
}

#[test]
fn fight_won_at_level_five_advances_and_requests_level_change() {
    let mut g = game_at(Mode::Fight, 5);
    g.fight_over(&no_fight_losses(), &vec![FightWinEvent()]);
    assert_eq!(g.current_level().number(), 6);
    assert_eq!(g.current_mode(), Mode::LevelChange);
}

#[test]
fn conversation_won_at_last_level_goes_to_credits_not_level_change() {
    let mut g = game_at(Mode::Conversation, 10);
    g.conv_over(&no_conv_losses(), &vec![ConvWinEvent()]);
    assert_eq!(g.current_level().number(), 10);
    assert_eq!(g.current_mode(), Mode::Credits);
}

#[test]
fn conversation_lost_requests_fight_at_any_level() {
    for level in 1..=10 {
        let mut g = game_at(Mode::Conversation, level);
        let before = g.current_level().number();
        g.conv_over(&vec![ConvLossEvent()], &no_conv_wins());
        assert_eq!(g.current_mode(), Mode::Fight);
        assert_eq!(g.current_level().number(), before);
    }
}

#[test]
fn fight_lost_requests_credits_at_any_level() {
    for level in 1..=10 {
        let mut g = game_at(Mode::Fight, level);
        let before = g.current_level().number();
        g.fight_over(&vec![FightLossEvent()], &no_fight_wins());
        assert_eq!(g.current_mode(), Mode::Credits);
        assert_eq!(g.current_level().number(), before);
    }
}

#[test]
fn two_wins_in_one_tick_advance_the_level_twice() {
    let mut g = game_at(Mode::Fight, 3);
    g.fight_over(&no_fight_losses(), &vec![FightWinEvent(), FightWinEvent()]);
    assert_eq!(g.current_level().number(), 5);
    assert_eq!(g.current_mode(), Mode::LevelChange);
}

#[test]
fn first_applied_request_of_a_tick_wins() {
    let mut g = game_at(Mode::Conversation, 4);
    // a loss then a win in the same tick: the loss's request lands first
    g.conv_over(&vec![ConvLossEvent()], &vec![ConvWinEvent()]);
    assert_eq!(g.current_mode(), Mode::Fight);
    // the win still advanced the level
    assert_eq!(g.current_level().number(), 5);
    // a later request the same tick is dropped
    assert!(g.request_mode(Mode::Credits).is_ok());
    assert_eq!(g.current_mode(), Mode::Fight);
    // the next tick may transition again
    g.begin_tick();
    assert!(g.request_mode(Mode::Credits).is_ok());
    assert_eq!(g.current_mode(), Mode::Credits);
}

#[test]
fn requesting_the_current_mode_is_a_reported_no_op() {
    let mut g = Game::new();
    g.begin_tick();
    let r = g.request_mode(Mode::Start);
    assert!(r.is_err());
    assert_eq!(g.current_mode(), Mode::Start);
    assert!(!g.transition_done());
}
