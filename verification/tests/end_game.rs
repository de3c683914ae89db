use hardback_server::codec::{GameState, Outgoing, Player};
use hardback_server::end_game::{first_to_60, show_result};

fn player(vp: usize, lit: usize, ink: usize) -> Player {
    let mut p = Player::new("p".to_owned());
    p.vp = vp;
    p.literacy_award = lit;
    p.ink = ink;
    p.hand = vec![1, 2];
    p
}

#[test]
fn first_to_60_records_the_last_seat_at_the_end_score() {
    let players = vec![player(60, 0, 0), player(10, 0, 0), player(50, 10, 0)];
    let mut p60 = None;
    let mut notified = false;
    let mut out = vec![];
    first_to_60(&players, 3, &mut p60, &mut notified, &mut out);
    assert_eq!(p60, Some(2));
    assert!(!notified);
    assert!(out.is_empty());
    first_to_60(&players, 3, &mut p60, &mut notified, &mut out);
    assert!(notified);
    assert_eq!(out.len(), 3);
    match &out[1] {
        Outgoing::Notification { to, text } => {
            assert_eq!(*to, 1);
            assert_eq!(text, "Player 3 has reached [60 vp] The game will end in this round.");
        }
        _ => panic!("expected the notice"),
    }
    first_to_60(&players, 3, &mut p60, &mut notified, &mut out);
    assert_eq!(out.len(), 3);
}

#[test]
fn no_one_at_the_end_score() {
    let players = vec![player(59, 0, 0), player(0, 12, 0)];
    let mut p60 = None;
    let mut notified = false;
    let mut out = vec![];
    first_to_60(&players, 2, &mut p60, &mut notified, &mut out);
    assert_eq!(p60, None);
}

#[test]
fn show_result_picks_most_points_then_most_ink() {
    let mut players = vec![player(40, 12, 1), player(52, 0, 5), player(30, 0, 9), player(50, 2, 3)];
    let mut gs = vec![GameState::PreDrawCard, GameState::Spell, GameState::Spell, GameState::Spell];
    let mut after = 1;
    let mut out = vec![];
    show_result(&mut players, &mut gs, 4, &Some(0), &mut after, 2, None, &mut out);
    assert_eq!(gs, vec![GameState::ShowResult(1); 4]);
    assert!(players.iter().all(|p| p.hand.is_empty()));
    assert_eq!(out.len(), 4);
}

#[test]
fn show_result_ties_go_to_the_first_seat() {
    let mut players = vec![player(10, 0, 2), player(10, 0, 2)];
    let mut gs = vec![GameState::PreDrawCard, GameState::Spell];
    let mut after = 1;
    let mut out = vec![];
    show_result(&mut players, &mut gs, 2, &Some(1), &mut after, 0, None, &mut out);
    assert_eq!(gs, vec![GameState::ShowResult(0); 2]);
}

#[test]
fn show_result_waits_for_the_round() {
    let mut players = vec![player(60, 0, 0), player(0, 0, 0)];
    let mut gs = vec![GameState::PreDrawCard, GameState::Spell];
    let mut after = 0;
    let mut out = vec![];
    show_result(&mut players, &mut gs, 2, &Some(0), &mut after, 0, None, &mut out);
    assert_eq!(after, 1);
    assert_eq!(gs, vec![GameState::PreDrawCard, GameState::Spell]);
    assert!(out.is_empty());
    let mut after2 = 0;
    show_result(&mut players, &mut gs, 2, &Some(0), &mut after2, 1, None, &mut out);
    assert_eq!(after2, 0);
}
