use hardback_server::codec::{GameCommand, GameState, Outgoing, Player, ReplyEffect, ReplyOption, WaitForSingleInput};
use hardback_server::drafttest::{TheAdventureDraftStruct, TheEndGameDraftStruct, TheHorrorDraftStruct, TheNormalDraftStruct, TheRomanceDraftStruct};
use hardback_server::game_engine::GameEngine;

fn two_player_game() -> GameEngine {
    let p = Player::new("DefaultPlayer".to_owned());
    let p2 = Player::new("Player 2".to_owned());
    let mut e = GameEngine::new(vec![p, p2], 2);
    let mut out = vec![];
    assert!(e.start(&TheEndGameDraftStruct {}, &mut out));
    assert!(out.is_empty());
    e
}

#[test]
fn endgame_start_deals_fixed_hands() {
    let e = two_player_game();
    assert_eq!(e.players[0].hand, vec![143, 135, 108, 110, 111]);
    assert_eq!(e.players[0].vp, 59);
    assert_eq!(e.players[1].hand, vec![90, 49, 2, 75, 159]);
    assert_eq!(e.unknown[0], vec![141, 148, 7, 177, 70]);
    assert_eq!(e.unknown[1], vec![84, 130, 12, 34, 91]);
    assert_eq!(e.gamestates, vec![GameState::TurnToSubmit, GameState::Spell]);
    assert_eq!(&e.remaining_cards[0..8], &[26, 23, 38, 80, 94, 98, 119, 1]);
    assert_eq!(e.remaining_cards[8], 179);
}

#[test]
fn endgame_flow() {
    let mut e = two_player_game();
    let mut out = vec![];
    e.tick(&mut out);
    assert!(out.is_empty());

    let mut k1 = GameCommand::new();
    k1.arranged = Some(vec![(143, false, None, false)]);
    assert_eq!(e.word_to_check(0, &k1), None);
    e.handle_command(0, &k1, false, &mut out);
    assert_eq!(e.players[0].arranged, vec![(143, false, None, false)]);
    // the layout is shown to both connections
    assert_eq!(out.len(), 2);
    for (c, m) in out.iter().enumerate() {
        match m {
            Outgoing::Board { to, board } => {
                assert_eq!(*to, c);
                assert_eq!(board.gamestates, vec![GameState::TurnToSubmit, GameState::Spell]);
                assert_eq!(board.offer_row, vec![26, 23, 38, 80, 94, 98, 119]);
                assert_eq!(board.players[0].arranged, vec![(143, false, None, false)]);
            }
            _ => panic!("expected the board"),
        }
    }
    out.clear();

    let mut k2 = GameCommand::new();
    k2.submit_word = Some(true);
    assert_eq!(e.word_to_check(0, &k2), Some("d".to_owned()));
    e.handle_command(0, &k2, true, &mut out);
    assert_eq!(e.players[0].vp, 60);
    assert_eq!(e.gamestates, vec![GameState::Buy, GameState::Spell]);
    assert_eq!(out.len(), 2);
    for (c, m) in out.iter().enumerate() {
        match m {
            Outgoing::Board { to, board } => {
                assert_eq!(*to, c);
                assert_eq!(board.gamestates, vec![GameState::Buy, GameState::Spell]);
                assert_eq!(board.offer_row, vec![26, 23, 38, 80, 94, 98, 119]);
                assert_eq!(board.turn_index, 0);
                assert_eq!(board.players[0].vp, 60);
                assert_eq!(board.players[0].skip_cards, vec![143]);
            }
            _ => panic!("expected the board"),
        }
    }
    out.clear();

    e.tick(&mut out);
    assert_eq!(e.player_60, Some(0));
    assert!(out.is_empty());

    let mut k3 = GameCommand::new();
    k3.buy_offer = Some((false, 0));
    e.handle_command(0, &k3, false, &mut out);
    assert_eq!(e.gamestates, vec![GameState::PreDrawCard, GameState::Spell]);
    assert!(out.is_empty());

    e.tick(&mut out);
    assert_eq!(out.len(), 2 + 1 + 4);
    for c in 0..2 {
        match &out[c] {
            Outgoing::Notification { to, text } => {
                assert_eq!(*to, c);
                assert_eq!(text, "Player 1 has reached [60 vp] The game will end in this round.");
            }
            _ => panic!("expected the notice"),
        }
    }
    match &out[2] {
        Outgoing::Hand { to, hand } => {
            assert_eq!(*to, 0);
            assert_eq!(hand, &vec![70, 177, 7, 148, 141]);
        }
        _ => panic!("expected the hand"),
    }
    match &out[3] {
        Outgoing::TurnIndex { to, index } => {
            assert_eq!(*to, 0);
            assert_eq!(*index, 1);
        }
        _ => panic!("expected the turn"),
    }
    assert_eq!(e.turn_index, 1);
    assert_eq!(e.gamestates, vec![GameState::Spell, GameState::TurnToSubmit]);
    assert_eq!(e.players[0].hand, vec![70, 177, 7, 148, 141]);
    assert!(e.players[0].arranged.is_empty());
    assert_eq!(e.turn_after_winner, 1);
    assert!(e.game_end_notified);
}

#[test]
fn commands_from_unknown_seats_are_ignored() {
    let mut e = two_player_game();
    let mut out = vec![];
    let mut k = GameCommand::new();
    k.killserver = Some(true);
    e.handle_command(7, &k, false, &mut out);
    assert!(out.is_empty());
    assert!(!e.wait_for_break);
    e.handle_command(1, &k, false, &mut out);
    assert!(e.wait_for_break);
    assert_eq!(e.count_rec, 1);
    let mut stops = 0;
    for _ in 0..20 {
        if e.end_of_loop() {
            stops += 1;
        }
    }
    assert_eq!(e.count_rec, 21);
    assert_eq!(stops, 7);
}

#[test]
fn invalid_word_is_not_resolved() {
    let mut e = two_player_game();
    let mut out = vec![];
    let mut k = GameCommand::new();
    k.arranged = Some(vec![(143, false, None, false)]);
    k.submit_word = Some(true);
    assert_eq!(e.word_to_check(0, &k), Some("d".to_owned()));
    e.handle_command(0, &k, false, &mut out);
    assert_eq!(e.players[0].vp, 59);
    assert_eq!(e.gamestates[0], GameState::TurnToSubmit);
    // only the layout is shown, to both connections
    assert_eq!(out.len(), 2);
    assert!(out.iter().all(|m| matches!(m, Outgoing::Board { .. })));
}

#[test]
fn normal_word_is_announced() {
    let p = Player::new("DefaultPlayer".to_owned());
    let mut e = GameEngine::new(vec![p], 1);
    let mut out = vec![];
    assert!(e.start(&TheNormalDraftStruct {}, &mut out));
    let mut k = GameCommand::new();
    k.arranged = Some(vec![(147, false, None, false), (154, false, None, false), (160, false, None, false), (174, false, None, false), (161, false, None, false)]);
    k.submit_word = Some(true);
    let w = e.word_to_check(0, &k);
    assert_eq!(w, Some("house".to_owned()));
    e.handle_command(0, &k, true, &mut out);
    assert_eq!(e.gamestates[0], GameState::Buy);
    let notices: Vec<&String> = out.iter().filter_map(|m| match m {
        Outgoing::Notification { text, .. } => Some(text),
        _ => None,
    }).collect();
    assert_eq!(notices, vec!["Player 1 has formed a word [house]"]);
    // the notice comes before the board that shows the player buying
    let notice_at = out.iter().position(|m| matches!(m, Outgoing::Notification { .. })).unwrap();
    let buy_board_at = out.iter().position(|m| match m {
        Outgoing::Board { board, .. } => board.gamestates == vec![GameState::Buy],
        _ => false,
    }).unwrap();
    assert!(notice_at < buy_board_at);
    assert_eq!(e.players[0].skip_cards, vec![147, 154, 160, 174, 161]);
    assert_eq!(e.players[0].vp, 3);
    assert_eq!(e.players[0].coin, 2);
}

#[test]
fn begin_without_draft_opens_turns() {
    let p = Player::new("A".to_owned());
    let p2 = Player::new("B".to_owned());
    let p3 = Player::new("C".to_owned());
    let mut e = GameEngine::new(vec![p, p2, p3], 3);
    let mut out = vec![];
    e.begin(vec![5, 6, 7], Some(30), false, true, true, &mut out);
    assert!(out.is_empty());
    assert_eq!(e.gamestates, vec![GameState::TurnToSubmit, GameState::Spell, GameState::Spell]);
    assert_eq!(e.remaining_cards, vec![5, 6, 7]);
    assert_eq!(e.ticks, Some(30));
    assert!(e.shuffle_seeded);
    assert!(e.push_notification);
}

#[test]
fn begin_with_draft_sends_indices_then_boards() {
    let p = Player::new("A".to_owned());
    let p2 = Player::new("B".to_owned());
    let mut e = GameEngine::new(vec![p, p2], 2);
    let mut out = vec![];
    e.begin(vec![1, 2], None, true, false, false, &mut out);
    assert_eq!(e.gamestates, vec![GameState::ShowDraft, GameState::ShowDraft]);
    assert_eq!(out.len(), 4);
    for c in 0..2 {
        match &out[c] {
            Outgoing::PlayerIndex { to, index } => {
                assert_eq!(*to, c);
                assert_eq!(*index, c);
            }
            _ => panic!("expected the index"),
        }
        match &out[2 + c] {
            Outgoing::Board { to, board } => {
                assert_eq!(*to, c);
                assert_eq!(board.gamestates, vec![GameState::ShowDraft, GameState::ShowDraft]);
                assert!(board.offer_row.is_empty());
            }
            _ => panic!("expected the board"),
        }
    }
}

#[test]
fn lockup_then_trash_return_to_buy() {
    let mut e = two_player_game();
    let mut out = vec![];
    e.gamestates[0] = GameState::LockUp;
    let first = e.remaining_cards[2];
    let n = e.remaining_cards.len();
    let mut k = GameCommand::new();
    k.lockup = Some((true, 2));
    e.handle_command(0, &k, false, &mut out);
    assert_eq!(e.players[0].lockup, vec![first]);
    assert_eq!(e.remaining_cards.len(), n - 1);
    assert_eq!(e.gamestates[0], GameState::Buy);
    // the mark pushed by the lock-up sends the board to both connections
    assert_eq!(out.len(), 2);
    assert!(e.wait_for_input[0].is_empty());

    out.clear();
    e.gamestates[0] = GameState::TrashOther(0);
    let hand = e.players[0].hand.clone();
    let coin = e.players[0].coin;
    let mut t = GameCommand::new();
    t.trash_other = Some((true, 1));
    e.handle_command(0, &t, false, &mut out);
    let mut expected = hand.clone();
    expected.remove(1);
    assert_eq!(e.players[0].hand, expected);
    assert_eq!(e.players[0].coin, coin + 1);
    assert_eq!(e.gamestates[0], GameState::Buy);
    assert!(out.is_empty());
}

#[test]
fn reply_applies_the_chosen_option() {
    let mut e = two_player_game();
    let mut out = vec![];
    let ink = e.players[0].ink;
    e.wait_for_input[0].push(Some(WaitForSingleInput {
        card_index: 3,
        wait_state: GameState::PreWaitForReply,
        header: "h".to_owned(),
        options: vec![
            ReplyOption { next_state: GameState::Buy, label: "gain".to_owned(), effect: ReplyEffect::GainInk },
            ReplyOption { next_state: GameState::DrawCard, label: "skip".to_owned(), effect: ReplyEffect::Nothing },
        ],
    }));
    e.wait_for_input[0].push(None);
    let mut k = GameCommand::new();
    k.reply = Some(0);
    e.handle_command(0, &k, false, &mut out);
    assert_eq!(e.players[0].ink, ink + 1);
    assert_eq!(e.gamestates[0], GameState::Buy);
    assert!(e.wait_for_input[0].is_empty());
    assert_eq!(out.len(), 2);
}

fn pile_of(e: &GameEngine, pid: usize) -> Vec<usize> {
    let mut all = e.remaining_cards.clone();
    all.extend(e.players[pid].discard.iter().cloned());
    all.extend(e.players[pid].lockup.iter().cloned());
    all.sort();
    all
}

#[test]
fn buying_keeps_the_cards() {
    let mut e = two_player_game();
    let mut out = vec![];
    e.gamestates[0] = GameState::Buy;
    e.players[0].coin = 30;
    let before = pile_of(&e, 0);
    let card = e.remaining_cards[0];
    let mut k = GameCommand::new();
    k.buy_offer = Some((true, 0));
    e.handle_command(0, &k, false, &mut out);
    assert_eq!(pile_of(&e, 0), before);
    assert_eq!(e.players[0].discard.last(), Some(&card));
    assert_eq!(e.gamestates[0], GameState::PreDrawCard);
}

#[test]
fn drawing_three_keeps_the_cards() {
    let mut e = two_player_game();
    let mut out = vec![];
    e.gamestates[0] = GameState::PutBackDiscard(2, 0);
    let before = pile_of(&e, 0);
    let taken = e.remaining_cards[8];
    let mut k = GameCommand::new();
    k.putback_discard = Some(true);
    e.handle_command(0, &k, false, &mut out);
    assert_eq!(pile_of(&e, 0), before);
    assert_eq!(e.players[0].discard.last(), Some(&taken));
    // the next step is requested
    assert_eq!(out.len(), 1);
    assert_eq!(e.gamestates[0], GameState::PreWaitForReply);
}

#[test]
fn a_long_word_takes_the_literacy_award() {
    let mut e = two_player_game();
    let mut out = vec![];
    e.players[1].literacy_award = 3;
    let mut k = GameCommand::new();
    k.arranged = Some(vec![
        (143, false, None, false),
        (135, false, None, false),
        (108, false, None, false),
        (110, false, None, false),
        (111, false, None, false),
        (141, false, None, false),
        (148, false, None, false),
    ]);
    k.submit_word = Some(true);
    let w = e.word_to_check(0, &k).unwrap();
    assert_eq!(w.chars().count(), 7);
    e.handle_command(0, &k, true, &mut out);
    assert_eq!(e.players[0].literacy_award, 7);
    assert_eq!(e.players[1].literacy_award, 0);
}

fn cards_of(e: &GameEngine, pid: usize) -> Vec<usize> {
    let mut all = e.players[pid].hand.clone();
    all.extend(e.players[pid].discard.iter().cloned());
    all.extend(e.unknown[pid].iter().cloned());
    all.sort();
    all
}

#[test]
fn refilling_the_hand_keeps_the_cards() {
    let mut e = two_player_game();
    let mut out = vec![];
    e.players[0].discard = vec![1, 2, 3];
    e.gamestates[0] = GameState::PreDrawCard;
    let before = cards_of(&e, 0);
    e.tick(&mut out);
    assert_eq!(cards_of(&e, 0), before);
    assert_eq!(e.players[0].hand.len(), 5);
    assert_eq!(e.players[0].hand, vec![70, 177, 7, 148, 141]);
    assert_eq!(e.turn_index, 1);
}

fn one_player_game<D: hardback_server::draft::TheDraft>(d: &D) -> GameEngine {
    let p = Player::new("DefaultPlayer".to_owned());
    let mut e = GameEngine::new(vec![p], 1);
    let mut out = vec![];
    assert!(e.start(d, &mut out));
    e
}

fn arranged(cards: &[(usize, Option<&str>)]) -> Vec<(usize, bool, Option<String>, bool)> {
    cards.iter().map(|(c, w)| (*c, false, w.map(|s| s.to_owned()), false)).collect()
}

#[test]
fn resolved_cards_are_recorded_and_doubled_once_more() {
    let mut e = one_player_game(&TheRomanceDraftStruct {});
    let mut out = vec![];
    let mut k = GameCommand::new();
    k.arranged = Some(arranged(&[(105, None), (135, None), (108, Some("a")), (110, Some("p")), (111, Some("t"))]));
    k.submit_word = Some(true);
    e.handle_command(0, &k, true, &mut out);
    assert_eq!(e.players[0].coin, 17);
    assert_eq!(e.players[0].vp, 2);
    assert_eq!(e.players[0].skip_cards, vec![105, 135]);
    let request = out.iter().find_map(|m| match m {
        Outgoing::Request { card, header, options, .. } => Some((*card, header.clone(), options.clone())),
        _ => None,
    });
    assert_eq!(request, Some((105, "There are a few valid cards adjacent to this card, can be doubled.".to_owned(), vec!["Continue".to_owned()])));
    let mut r = GameCommand::new();
    r.reply = Some(0);
    e.handle_command(0, &r, false, &mut out);
    // only card 135 pays out again, with its romance genre benefit
    assert_eq!(e.players[0].vp, 4);
    assert_eq!(e.players[0].coin, 20);
    assert_eq!(e.players[0].skip_cards, vec![105, 135]);
}

#[test]
fn adventure_trash_offers_say_yes_or_no() {
    let mut e = one_player_game(&TheAdventureDraftStruct {});
    let mut out = vec![];
    let mut k = GameCommand::new();
    k.arranged = Some(arranged(&[(7, Some("h")), (14, Some("o")), (20, Some("u")), (18, None), (4, None)]));
    k.submit_word = Some(true);
    e.handle_command(0, &k, true, &mut out);
    assert_eq!(e.players[0].skip_cards, vec![18, 4]);
    assert_eq!(e.players[0].vp, 5);
    let request = out.iter().find_map(|m| match m {
        Outgoing::Request { card, header, options, .. } => Some((*card, header.clone(), options.clone())),
        _ => None,
    });
    assert_eq!(request, Some((18, "Do you want to trash this card for the benefit?".to_owned(), vec!["Yes".to_owned(), "No".to_owned()])));
}

#[test]
fn adventure_card_gives_two_coins_per_adventure_card() {
    let mut e = one_player_game(&TheAdventureDraftStruct {});
    let mut out = vec![];
    let coin = e.players[0].coin;
    let mut k = GameCommand::new();
    // card 14 (two coins per adventure card) with adventure cards 18 and 4, all laid out
    k.arranged = Some(arranged(&[(14, None), (18, None), (4, None)]));
    k.submit_word = Some(true);
    e.handle_command(0, &k, true, &mut out);
    assert_eq!(e.players[0].coin, coin + 2 * 3);
}

#[test]
fn horror_genre_offers_points_or_coins() {
    let mut e = one_player_game(&TheHorrorDraftStruct {});
    let mut out = vec![];
    let mut k = GameCommand::new();
    k.arranged = Some(arranged(&[(41, Some("h")), (48, Some("o")), (54, Some("u")), (52, None), (38, None)]));
    k.submit_word = Some(true);
    e.handle_command(0, &k, true, &mut out);
    assert_eq!(e.players[0].skip_cards, vec![52, 38]);
    let queued: Vec<(usize, String, Vec<String>)> = e.wait_for_input[0].iter().filter_map(|w| w.as_ref().map(|w| {
        (w.card_index, w.header.clone(), w.options.iter().map(|o| o.label.clone()).collect())
    })).collect();
    assert!(queued.contains(&(38, "Choose between".to_owned(), vec!["2 vps".to_owned(), "2 coins".to_owned()])));
}

#[test]
fn romance_genre_uses_genre_abilities() {
    let mut e = one_player_game(&TheRomanceDraftStruct {});
    let mut out = vec![];
    let mut k = GameCommand::new();
    k.arranged = Some(arranged(&[(136, None), (110, None)]));
    k.submit_word = Some(true);
    e.handle_command(0, &k, true, &mut out);
    let mut all: Vec<usize> = vec![];
    for w in e.wait_for_input[0].iter().flatten() {
        assert_eq!(w.header, "Do you want to trash another card for one cent?");
        all.push(w.card_index);
    }
    all.sort();
    // 110's own ability and 136's genre ability, once each
    assert_eq!(all, vec![110, 136]);
}


#[test]
fn ink_loss_goes_only_to_other_players_with_ink() {
    let players: Vec<Player> = vec![Player::new("A".to_owned()), Player::new("B".to_owned()), Player::new("C".to_owned())];
    let mut e = GameEngine::new(players, 3);
    let mut out = vec![];
    assert!(e.start(&TheEndGameDraftStruct {}, &mut out));
    e.players[0].ink = 2;
    e.players[1].ink = 1;
    e.players[2].ink = 0;
    e.players[2].remover = 0;
    let mut k = GameCommand::new();
    // two horror cards: card 41's genre ability makes the others lose ink
    k.arranged = Some(arranged(&[(41, None), (42, None)]));
    k.submit_word = Some(true);
    e.handle_command(0, &k, true, &mut out);
    let asked = |q: &Vec<Option<hardback_server::codec::WaitForSingleInput>>| {
        q.iter().flatten().filter(|w| w.header == "Player 0 has played a card to force other players to lose a ink or ink remover.").count()
    };
    assert_eq!(asked(&e.wait_for_input[0]), 0);
    assert_eq!(asked(&e.wait_for_input[1]), 1);
    assert_eq!(asked(&e.wait_for_input[2]), 0);
}

fn no_card_twice(e: &GameEngine) -> bool {
    let mut all = e.remaining_cards.clone();
    for pid in 0..e.players.len() {
        let p = &e.players[pid];
        all.extend(p.hand.iter().cloned());
        all.extend(p.discard.iter().cloned());
        all.extend(p.draft.iter().cloned());
        all.extend(p.lockup.iter().cloned());
        all.extend(e.unknown[pid].iter().cloned());
    }
    let n = all.len();
    all.sort();
    all.dedup();
    all.len() == n
}

#[test]
fn commands_and_rounds_never_copy_a_card() {
    let mut e = two_player_game();
    let mut out = vec![];
    assert!(no_card_twice(&e));
    e.gamestates[0] = GameState::Buy;
    e.players[0].coin = 30;
    let mut k = GameCommand::new();
    k.buy_offer = Some((true, 0));
    e.handle_command(0, &k, false, &mut out);
    assert!(no_card_twice(&e));
    e.tick(&mut out);
    assert!(no_card_twice(&e));
    e.gamestates[1] = GameState::LockUp;
    let mut k = GameCommand::new();
    k.lockup = Some((true, 0));
    e.handle_command(1, &k, false, &mut out);
    assert!(no_card_twice(&e));
    assert_eq!(e.players[1].lockup.len(), 1);
    e.gamestates[0] = GameState::PutBackDiscard(2, 0);
    let mut k = GameCommand::new();
    k.putback_discard = Some(true);
    e.handle_command(0, &k, false, &mut out);
    assert!(no_card_twice(&e));
    e.tick(&mut out);
    assert!(no_card_twice(&e));
}

#[test]
fn the_starting_deal_puts_each_card_in_one_place() {
    let players: Vec<Player> = vec![Player::new("A".to_owned()), Player::new("B".to_owned()), Player::new("C".to_owned())];
    let mut e = GameEngine::new(players, 3);
    let mut out = vec![];
    assert!(e.start(&hardback_server::draft::TheStartingDraftStruct {}, &mut out));
    for p in &e.players {
        assert_eq!(p.hand.len(), 5);
    }
    assert!(no_card_twice(&e));
}
