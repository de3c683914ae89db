use hardback_server::cards;
use hardback_server::codec::Player;
use hardback_server::draft::{TheDraft, TheStartingDraftStruct};
use hardback_server::drafttest::TheNormalDraftStruct;

#[test]
fn tests_check_cardmeta() {
    let cardmeta = cards::populate();
    assert_eq!(cardmeta.len(), 180);
    for _k in cardmeta.iter().enumerate() {
        assert_eq!(_k.0, _k.1.id);
    }
}

#[test]
fn normal_check_cardmeta() {
    let cardmeta = cards::populate();
    for _k in cardmeta.iter().enumerate() {
        assert_eq!(_k.0, _k.1.id);
    }
}

#[test]
fn tests_player_starting() {
    let cardmeta = cards::populate();
    let mut remaining_deck = vec![];
    let mut _p = Player::new("defaultname".to_owned());
    let mut unknown = vec![];
    let starting = TheStartingDraftStruct {};
    starting.player_starting(&mut _p, &mut unknown, &cardmeta, &mut remaining_deck);
    assert_eq!(_p.draft.len(), 5);
    assert_eq!(_p.hand.len(), 5);
}

#[test]
fn normal_player_starting() {
    let cardmeta = cards::populate();
    let mut remaining_deck = vec![];
    let mut _p = Player::new("defaultname".to_owned());
    let _normal_draft = TheNormalDraftStruct {};
    let mut unknown = vec![];
    _normal_draft.player_starting(&mut _p, &mut unknown, &cardmeta, &mut remaining_deck);
    assert_eq!(_p.draft.len(), 5);
    assert_eq!(_p.hand.len(), 5);
}

#[test]
fn starting_hand_takes_one_coin_card_per_letter() {
    let cardmeta = cards::populate();
    let mut owned = vec![];
    let mut p = Player::new("a".to_owned());
    let mut unknown = vec![7];
    TheStartingDraftStruct {}.player_starting(&mut p, &mut unknown, &cardmeta, &mut owned);
    // the coin starters of letters a, e, i, l, n, r, s, t, in table order
    assert_eq!(&owned[0..8], &[140, 144, 148, 151, 153, 157, 158, 159]);
    let picks = &owned[8..10];
    assert_ne!(picks[0], picks[1]);
    for c in picks {
        assert_eq!(cardmeta[*c].genre, cards::Genre::NONE);
        assert!(matches!(cardmeta[*c].giveables, cards::GIVEABLE::VP(_)));
    }
    let mut dealt: Vec<usize> = p.hand.iter().chain(p.draft.iter()).cloned().collect();
    let mut taken: Vec<usize> = owned[0..10].to_vec();
    dealt.sort();
    taken.sort();
    assert_eq!(dealt, taken);
    assert_eq!(&owned[10..20], &[p.hand.clone(), p.draft.clone()].concat()[..]);
    assert_eq!(unknown, vec![7]);
}

#[test]
fn starting_deck_is_every_card_not_owned_from_the_end() {
    let cardmeta = cards::populate();
    let owned = vec![179, 0, 5];
    let deck = TheStartingDraftStruct {}.deck_starting(&cardmeta, &owned);
    assert_eq!(deck.len(), 177);
    assert_eq!(deck[0], 178);
    assert_eq!(deck[176], 1);
    assert!(!deck.contains(&5));
}
