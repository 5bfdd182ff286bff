use suburban_rumble::level::{Level, LevelOutcome, LevelTracker};
use suburban_rumble::mode::{Mode, ModeController};

#[test]
fn set_mode_applies_new_target() {
    let mut c = ModeController::new();
    assert_eq!(c.current(), Mode::Start);
    let r = c.set_mode(Mode::Fight);
    assert!(r.is_ok());
    assert_eq!(c.current(), Mode::Fight);
    let r = c.set_mode(Mode::Credits);
    assert!(r.is_ok());
    assert_eq!(c.current(), Mode::Credits);
}

#[test]
fn set_mode_same_target_reports_already_in_mode() {
    let mut c = ModeController::new();
    let r = c.set_mode(Mode::Start);
    assert!(r.is_err());
    assert_eq!(c.current(), Mode::Start);
    assert!(c.set_mode(Mode::Conversation).is_ok());
    let r = c.set_mode(Mode::Conversation);
    assert!(r.is_err());
    assert_eq!(c.current(), Mode::Conversation);
}

#[test]
fn every_mode_pair_is_legal_except_identity() {
    let modes = vec![
        Mode::Start,
        Mode::Credits,
        Mode::Conversation,
        Mode::Fight,
        Mode::LevelChange,
    ];
    for &from in &modes {
        for &to in &modes {
            let mut c = ModeController::new();
            if from != Mode::Start {
                assert!(c.set_mode(from).is_ok());
            }
            let r = c.set_mode(to);
            if to == from {
                assert!(r.is_err());
                assert_eq!(c.current(), from);
            } else {
                assert!(r.is_ok());
                assert_eq!(c.current(), to);
            }
        }
    }
}

#[test]
fn advance_walks_the_ten_levels_in_order() {
    let mut t = LevelTracker::new();
    assert_eq!(t.current(), Level::Level1);
    let expected = vec![
        Level::Level2,
        Level::Level3,
        Level::Level4,
        Level::Level5,
        Level::Level6,
        Level::Level7,
        Level::Level8,
        Level::Level9,
        Level::Level10,
    ];
    for (k, want) in expected.iter().enumerate() {
        let before = t.current().number();
        assert_eq!(before, (k + 1) as u64);
        match t.advance() {
            LevelOutcome::Advanced(next) => {
                assert_eq!(next, *want);
                assert_eq!(t.current(), *want);
                assert_eq!(t.current().number(), before + 1);
            }
            LevelOutcome::CampaignComplete => panic!("campaign ended early"),
        }
    }
}

#[test]
fn advance_at_last_level_reports_campaign_complete() {
    let mut t = LevelTracker::new();
    for _ in 0..9 {
        t.advance();
    }
    assert_eq!(t.current(), Level::Level10);
    assert_eq!(t.advance(), LevelOutcome::CampaignComplete);
    assert_eq!(t.current(), Level::Level10);
    // never decreases and never passes the last level, however often asked
    assert_eq!(t.advance(), LevelOutcome::CampaignComplete);
    assert_eq!(t.current().number(), 10);
}
