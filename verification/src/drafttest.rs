use vstd::prelude::*;
use crate::cards::{self, ListCard};
use crate::codec::{self, Player, PlayerView};
use crate::draft::{self, TheDraft};

verus! {

/// Gives the player the hand and the unknown cards, empties the draft, and
/// records hand and unknown cards as owned.
fn deal_fixed(p: &mut Player, unknown: &mut Vec<usize>, owned_deck: &mut Vec<usize>, hand: Vec<usize>, u: Vec<usize>)
    ensures
        final(p)@ == (PlayerView { hand: hand@, draft: Seq::empty(), ..old(p)@ }),
        final(unknown)@ == u@,
        final(owned_deck)@ == old(owned_deck)@ + hand@ + u@,
{
    let mut h = codec::copy_ids(&hand);
    owned_deck.append(&mut h);
    let mut k = codec::copy_ids(&u);
    owned_deck.append(&mut k);
    p.hand = hand;
    p.draft = Vec::new();
    *unknown = u;
}

/// The seat being dealt when every seat before it owns ten cards.
pub open spec fn seat_of(owned: Seq<usize>) -> nat {
    owned.len() / 10
}

/// A fixed deal for trying out the game: the same hand and draft for every
/// player, the draft not shown, and formed words announced.
pub struct TheNormalDraftStruct {}

impl TheDraft for TheNormalDraftStruct {
    open spec fn start_ok(&self, owned: Seq<usize>) -> bool {
        true
    }

    fn can_start(&self, cardmeta: &Vec<ListCard>, owned_deck: &Vec<usize>) -> (b: bool) {
        true
    }

    open spec fn dealt(&self, p0: PlayerView, u0: Seq<usize>, o0: Seq<usize>, p1: PlayerView, u1: Seq<usize>, o1: Seq<usize>) -> bool {
        &&& p1 == (PlayerView { hand: seq![147usize, 154, 160, 174, 161], draft: seq![141usize, 148, 7, 177, 70], ..p0 })
        &&& u1 == u0
        &&& o1 == o0 + seq![147usize, 154, 160, 174, 161] + seq![141usize, 148, 7, 177, 70]
    }

    fn player_starting(&self, p: &mut Player, unknown: &mut Vec<usize>, cardmeta: &Vec<ListCard>, owned_deck: &mut Vec<usize>)
        ensures
            final(p)@ == (PlayerView { hand: seq![147usize, 154, 160, 174, 161], draft: seq![141usize, 148, 7, 177, 70], ..old(p)@ }),
            final(unknown)@ == old(unknown)@,
            final(owned_deck)@ == old(owned_deck)@ + seq![147usize, 154, 160, 174, 161] + seq![141usize, 148, 7, 177, 70],
    {
        p.hand = vec![147, 154, 160, 174, 161];
        p.draft = vec![141, 148, 7, 177, 70];
        let mut h = codec::copy_ids(&p.hand);
        owned_deck.append(&mut h);
        let mut d = codec::copy_ids(&p.draft);
        owned_deck.append(&mut d);
    }

    open spec fn deck_of(&self, owned: Seq<usize>) -> Seq<usize> {
        draft::deck_after(Seq::empty(), owned)
    }

    fn deck_starting(&self, cardmeta: &Vec<ListCard>, owned_deck: &Vec<usize>) -> (deck: Vec<usize>)
        ensures
            deck@ == draft::deck_after(Seq::empty(), owned_deck@),
    {
        draft::deck_with(Vec::new(), cardmeta, owned_deck)
    }

    open spec fn ticks_of(&self) -> Option<u16> {
        None
    }

    fn ticks(&self) -> (t: Option<u16>)
        ensures
            t is None,
    {
        None
    }

    open spec fn show_of(&self) -> (bool, bool) {
        (false, false)
    }

    fn show_draft(&self) -> (r: (bool, bool))
        ensures
            r == (false, false),
    {
        (false, false)
    }

    open spec fn push_of(&self) -> bool {
        true
    }

    fn push_notification(&self) -> (b: bool)
        ensures
            b,
    {
        true
    }
}

/// A fixed deal for trying out the game: ten cards in the draft, which is
/// shown and shuffled by the fixed seed.
pub struct TheNotifyDraftStruct {}

impl TheDraft for TheNotifyDraftStruct {
    open spec fn start_ok(&self, owned: Seq<usize>) -> bool {
        true
    }

    fn can_start(&self, cardmeta: &Vec<ListCard>, owned_deck: &Vec<usize>) -> (b: bool) {
        true
    }

    open spec fn dealt(&self, p0: PlayerView, u0: Seq<usize>, o0: Seq<usize>, p1: PlayerView, u1: Seq<usize>, o1: Seq<usize>) -> bool {
        &&& p1 == (PlayerView { draft: seq![141usize, 148, 7, 177, 70, 90, 14, 20, 18, 4], ..p0 })
        &&& u1 == u0
        &&& o1 == o0 + seq![141usize, 148, 7, 177, 70, 90, 14, 20, 18, 4]
    }

    fn player_starting(&self, p: &mut Player, unknown: &mut Vec<usize>, cardmeta: &Vec<ListCard>, owned_deck: &mut Vec<usize>)
        ensures
            final(p)@ == (PlayerView { draft: seq![141usize, 148, 7, 177, 70, 90, 14, 20, 18, 4], ..old(p)@ }),
            final(unknown)@ == old(unknown)@,
            final(owned_deck)@ == old(owned_deck)@ + seq![141usize, 148, 7, 177, 70, 90, 14, 20, 18, 4],
    {
        p.draft = vec![141, 148, 7, 177, 70, 90, 14, 20, 18, 4];
        let mut d = codec::copy_ids(&p.draft);
        owned_deck.append(&mut d);
    }

    open spec fn deck_of(&self, owned: Seq<usize>) -> Seq<usize> {
        draft::deck_after(seq![26usize, 23, 38, 80, 94, 98, 119, 1], owned)
    }

    fn deck_starting(&self, cardmeta: &Vec<ListCard>, owned_deck: &Vec<usize>) -> (deck: Vec<usize>)
        ensures
            deck@ == draft::deck_after(seq![26usize, 23, 38, 80, 94, 98, 119, 1], owned_deck@),
    {
        draft::deck_with(vec![26, 23, 38, 80, 94, 98, 119, 1], cardmeta, owned_deck)
    }

    open spec fn ticks_of(&self) -> Option<u16> {
        None
    }

    fn ticks(&self) -> (t: Option<u16>)
        ensures
            t is None,
    {
        None
    }

    open spec fn show_of(&self) -> (bool, bool) {
        (true, true)
    }

    fn show_draft(&self) -> (r: (bool, bool))
        ensures
            r == (true, true),
    {
        (true, true)
    }

    open spec fn push_of(&self) -> bool {
        false
    }

    fn push_notification(&self) -> (b: bool)
        ensures
            !b,
    {
        false
    }
}

/// A fixed deal for trying out timeless classics: the first seat starts with
/// three timeless classics and the others with one, all with ten coins.
pub struct TheTimelessDraftStruct {}

impl TheDraft for TheTimelessDraftStruct {
    open spec fn start_ok(&self, owned: Seq<usize>) -> bool {
        true
    }

    fn can_start(&self, cardmeta: &Vec<ListCard>, owned_deck: &Vec<usize>) -> (b: bool) {
        true
    }

    open spec fn dealt(&self, p0: PlayerView, u0: Seq<usize>, o0: Seq<usize>, p1: PlayerView, u1: Seq<usize>, o1: Seq<usize>) -> bool {
        &&& seat_of(o0) == 0 ==> {
            &&& p1 == (PlayerView { coin: 10, timeless_classic: seq![136usize, 96, 135], hand: seq![105usize, 99, 108, 110, 124], draft: Seq::empty(), ..p0 })
            &&& u1 == seq![141usize, 148, 7, 177, 70]
            &&& o1 == o0 + seq![105usize, 99, 108, 110, 124] + seq![141usize, 148, 7, 177, 70]
        }
        &&& seat_of(o0) != 0 ==> {
            &&& p1 == (PlayerView { coin: 10, timeless_classic: seq![101], hand: seq![90usize, 49, 2, 75, 77], draft: Seq::empty(), ..p0 })
            &&& u1 == seq![84usize, 130, 12, 34, 91]
            &&& o1 == o0 + seq![90usize, 49, 2, 75, 77] + seq![84usize, 130, 12, 34, 91]
        }
    }

    fn player_starting(&self, p: &mut Player, unknown: &mut Vec<usize>, cardmeta: &Vec<ListCard>, owned_deck: &mut Vec<usize>)
        ensures
            seat_of(old(owned_deck)@) == 0 ==> {
                &&& final(p)@ == (PlayerView { coin: 10, timeless_classic: seq![136usize, 96, 135], hand: seq![105usize, 99, 108, 110, 124], draft: Seq::empty(), ..old(p)@ })
                &&& final(unknown)@ == seq![141usize, 148, 7, 177, 70]
                &&& final(owned_deck)@ == old(owned_deck)@ + seq![105usize, 99, 108, 110, 124] + seq![141usize, 148, 7, 177, 70]
            },
            seat_of(old(owned_deck)@) != 0 ==> {
                &&& final(p)@ == (PlayerView { coin: 10, timeless_classic: seq![101], hand: seq![90usize, 49, 2, 75, 77], draft: Seq::empty(), ..old(p)@ })
                &&& final(unknown)@ == seq![84usize, 130, 12, 34, 91]
                &&& final(owned_deck)@ == old(owned_deck)@ + seq![90usize, 49, 2, 75, 77] + seq![84usize, 130, 12, 34, 91]
            },
    {
        if owned_deck.len() / 10 == 0 {
            p.timeless_classic = vec![136, 96, 135];
            p.coin = 10;
            deal_fixed(p, unknown, owned_deck, vec![105, 99, 108, 110, 124], vec![141, 148, 7, 177, 70]);
            assert(p@.timeless_classic =~= seq![136usize, 96, 135]);
        } else {
            p.timeless_classic = vec![101];
            p.coin = 10;
            deal_fixed(p, unknown, owned_deck, vec![90, 49, 2, 75, 77], vec![84, 130, 12, 34, 91]);
            assert(p@.timeless_classic =~= seq![101usize]);
        }
    }

    open spec fn deck_of(&self, owned: Seq<usize>) -> Seq<usize> {
        draft::deck_after(seq![26usize, 23, 38, 80, 94, 98, 119, 1], owned)
    }

    fn deck_starting(&self, cardmeta: &Vec<ListCard>, owned_deck: &Vec<usize>) -> (deck: Vec<usize>)
        ensures
            deck@ == draft::deck_after(seq![26usize, 23, 38, 80, 94, 98, 119, 1], owned_deck@),
    {
        draft::deck_with(vec![26, 23, 38, 80, 94, 98, 119, 1], cardmeta, owned_deck)
    }

    open spec fn ticks_of(&self) -> Option<u16> {
        None
    }

    fn ticks(&self) -> (t: Option<u16>)
        ensures
            t is None,
    {
        None
    }

    open spec fn show_of(&self) -> (bool, bool) {
        (false, false)
    }

    fn show_draft(&self) -> (r: (bool, bool))
        ensures
            r == (false, false),
    {
        (false, false)
    }

    open spec fn push_of(&self) -> bool {
        false
    }

    fn push_notification(&self) -> (b: bool)
        ensures
            !b,
    {
        false
    }
}

/// A fixed deal for two players.
pub struct TheTwoPlayerDraftStruct {}

impl TheDraft for TheTwoPlayerDraftStruct {
    open spec fn start_ok(&self, owned: Seq<usize>) -> bool {
        true
    }

    fn can_start(&self, cardmeta: &Vec<ListCard>, owned_deck: &Vec<usize>) -> (b: bool) {
        true
    }

    open spec fn dealt(&self, p0: PlayerView, u0: Seq<usize>, o0: Seq<usize>, p1: PlayerView, u1: Seq<usize>, o1: Seq<usize>) -> bool {
        &&& seat_of(o0) == 0 ==> {
            &&& p1 == (PlayerView { hand: seq![105usize, 135, 108, 110, 111], draft: Seq::empty(), ..p0 })
            &&& u1 == seq![141usize, 148, 7, 177, 70]
            &&& o1 == o0 + seq![105usize, 135, 108, 110, 111] + seq![141usize, 148, 7, 177, 70]
        }
        &&& seat_of(o0) != 0 ==> {
            &&& p1 == (PlayerView { hand: seq![90usize, 49, 2, 75, 77], draft: Seq::empty(), ..p0 })
            &&& u1 == seq![84usize, 130, 12, 34, 91]
            &&& o1 == o0 + seq![90usize, 49, 2, 75, 77] + seq![84usize, 130, 12, 34, 91]
        }
    }

    fn player_starting(&self, p: &mut Player, unknown: &mut Vec<usize>, cardmeta: &Vec<ListCard>, owned_deck: &mut Vec<usize>)
        ensures
            seat_of(old(owned_deck)@) == 0 ==> {
                &&& final(p)@ == (PlayerView { hand: seq![105usize, 135, 108, 110, 111], draft: Seq::empty(), ..old(p)@ })
                &&& final(unknown)@ == seq![141usize, 148, 7, 177, 70]
                &&& final(owned_deck)@ == old(owned_deck)@ + seq![105usize, 135, 108, 110, 111] + seq![141usize, 148, 7, 177, 70]
            },
            seat_of(old(owned_deck)@) != 0 ==> {
                &&& final(p)@ == (PlayerView { hand: seq![90usize, 49, 2, 75, 77], draft: Seq::empty(), ..old(p)@ })
                &&& final(unknown)@ == seq![84usize, 130, 12, 34, 91]
                &&& final(owned_deck)@ == old(owned_deck)@ + seq![90usize, 49, 2, 75, 77] + seq![84usize, 130, 12, 34, 91]
            },
    {
        if owned_deck.len() / 10 == 0 {
            deal_fixed(p, unknown, owned_deck, vec![105, 135, 108, 110, 111], vec![141, 148, 7, 177, 70]);
        } else {
            deal_fixed(p, unknown, owned_deck, vec![90, 49, 2, 75, 77], vec![84, 130, 12, 34, 91]);
        }
    }

    open spec fn deck_of(&self, owned: Seq<usize>) -> Seq<usize> {
        draft::deck_after(seq![26usize, 23, 38, 80, 94, 98, 119, 1], owned)
    }

    fn deck_starting(&self, cardmeta: &Vec<ListCard>, owned_deck: &Vec<usize>) -> (deck: Vec<usize>)
        ensures
            deck@ == draft::deck_after(seq![26usize, 23, 38, 80, 94, 98, 119, 1], owned_deck@),
    {
        draft::deck_with(vec![26, 23, 38, 80, 94, 98, 119, 1], cardmeta, owned_deck)
    }

    open spec fn ticks_of(&self) -> Option<u16> {
        None
    }

    fn ticks(&self) -> (t: Option<u16>)
        ensures
            t is None,
    {
        None
    }

    open spec fn show_of(&self) -> (bool, bool) {
        (false, false)
    }

    fn show_draft(&self) -> (r: (bool, bool))
        ensures
            r == (false, false),
    {
        (false, false)
    }

    open spec fn push_of(&self) -> bool {
        false
    }

    fn push_notification(&self) -> (b: bool)
        ensures
            !b,
    {
        false
    }
}

/// A fixed deal for trying out the end of the game: the first seat starts one
/// victory point short of the end score.
pub struct TheEndGameDraftStruct {}

impl TheDraft for TheEndGameDraftStruct {
    open spec fn start_ok(&self, owned: Seq<usize>) -> bool {
        true
    }

    fn can_start(&self, cardmeta: &Vec<ListCard>, owned_deck: &Vec<usize>) -> (b: bool) {
        true
    }

    open spec fn dealt(&self, p0: PlayerView, u0: Seq<usize>, o0: Seq<usize>, p1: PlayerView, u1: Seq<usize>, o1: Seq<usize>) -> bool {
        &&& seat_of(o0) == 0 ==> {
            &&& p1 == (PlayerView { vp: 59, hand: seq![143usize, 135, 108, 110, 111], draft: Seq::empty(), ..p0 })
            &&& u1 == seq![141usize, 148, 7, 177, 70]
            &&& o1 == o0 + seq![143usize, 135, 108, 110, 111] + seq![141usize, 148, 7, 177, 70]
        }
        &&& seat_of(o0) != 0 ==> {
            &&& p1 == (PlayerView { hand: seq![90usize, 49, 2, 75, 159], draft: Seq::empty(), ..p0 })
            &&& u1 == seq![84usize, 130, 12, 34, 91]
            &&& o1 == o0 + seq![90usize, 49, 2, 75, 159] + seq![84usize, 130, 12, 34, 91]
        }
    }

    fn player_starting(&self, p: &mut Player, unknown: &mut Vec<usize>, cardmeta: &Vec<ListCard>, owned_deck: &mut Vec<usize>)
        ensures
            seat_of(old(owned_deck)@) == 0 ==> {
                &&& final(p)@ == (PlayerView { vp: 59, hand: seq![143usize, 135, 108, 110, 111], draft: Seq::empty(), ..old(p)@ })
                &&& final(unknown)@ == seq![141usize, 148, 7, 177, 70]
                &&& final(owned_deck)@ == old(owned_deck)@ + seq![143usize, 135, 108, 110, 111] + seq![141usize, 148, 7, 177, 70]
            },
            seat_of(old(owned_deck)@) != 0 ==> {
                &&& final(p)@ == (PlayerView { hand: seq![90usize, 49, 2, 75, 159], draft: Seq::empty(), ..old(p)@ })
                &&& final(unknown)@ == seq![84usize, 130, 12, 34, 91]
                &&& final(owned_deck)@ == old(owned_deck)@ + seq![90usize, 49, 2, 75, 159] + seq![84usize, 130, 12, 34, 91]
            },
    {
        if owned_deck.len() / 10 == 0 {
            p.vp = 59;
            deal_fixed(p, unknown, owned_deck, vec![143, 135, 108, 110, 111], vec![141, 148, 7, 177, 70]);
        } else {
            deal_fixed(p, unknown, owned_deck, vec![90, 49, 2, 75, 159], vec![84, 130, 12, 34, 91]);
        }
    }

    open spec fn deck_of(&self, owned: Seq<usize>) -> Seq<usize> {
        draft::deck_after(seq![26usize, 23, 38, 80, 94, 98, 119, 1], owned)
    }

    fn deck_starting(&self, cardmeta: &Vec<ListCard>, owned_deck: &Vec<usize>) -> (deck: Vec<usize>)
        ensures
            deck@ == draft::deck_after(seq![26usize, 23, 38, 80, 94, 98, 119, 1], owned_deck@),
    {
        draft::deck_with(vec![26, 23, 38, 80, 94, 98, 119, 1], cardmeta, owned_deck)
    }

    open spec fn ticks_of(&self) -> Option<u16> {
        None
    }

    fn ticks(&self) -> (t: Option<u16>)
        ensures
            t is None,
    {
        None
    }

    open spec fn show_of(&self) -> (bool, bool) {
        (false, false)
    }

    fn show_draft(&self) -> (r: (bool, bool))
        ensures
            r == (false, false),
    {
        (false, false)
    }

    open spec fn push_of(&self) -> bool {
        false
    }

    fn push_notification(&self) -> (b: bool)
        ensures
            !b,
    {
        false
    }
}

/// A fixed deal for trying out the game: Adventure cards in hand.
pub struct TheAdventureDraftStruct {}

impl TheDraft for TheAdventureDraftStruct {
    open spec fn start_ok(&self, owned: Seq<usize>) -> bool {
        true
    }

    fn can_start(&self, cardmeta: &Vec<ListCard>, owned_deck: &Vec<usize>) -> (b: bool) {
        true
    }

    open spec fn dealt(&self, p0: PlayerView, u0: Seq<usize>, o0: Seq<usize>, p1: PlayerView, u1: Seq<usize>, o1: Seq<usize>) -> bool {
        &&& p1 == (PlayerView { hand: seq![7usize, 14, 20, 18, 4], draft: Seq::empty(), ..p0 })
        &&& u1 == seq![141usize, 148, 7, 177, 70]
        &&& o1 == o0 + seq![7usize, 14, 20, 18, 4] + seq![141usize, 148, 7, 177, 70]
    }

    fn player_starting(&self, p: &mut Player, unknown: &mut Vec<usize>, cardmeta: &Vec<ListCard>, owned_deck: &mut Vec<usize>)
        ensures
            final(p)@ == (PlayerView { hand: seq![7usize, 14, 20, 18, 4], draft: Seq::empty(), ..old(p)@ }),
            final(unknown)@ == seq![141usize, 148, 7, 177, 70],
            final(owned_deck)@ == old(owned_deck)@ + seq![7usize, 14, 20, 18, 4] + seq![141usize, 148, 7, 177, 70],
    {
        deal_fixed(p, unknown, owned_deck, vec![7, 14, 20, 18, 4], vec![141, 148, 7, 177, 70]);
    }

    open spec fn deck_of(&self, owned: Seq<usize>) -> Seq<usize> {
        draft::deck_after(seq![26usize, 23, 38, 80, 94, 98, 119, 1], owned)
    }

    fn deck_starting(&self, cardmeta: &Vec<ListCard>, owned_deck: &Vec<usize>) -> (deck: Vec<usize>)
        ensures
            deck@ == draft::deck_after(seq![26usize, 23, 38, 80, 94, 98, 119, 1], owned_deck@),
    {
        draft::deck_with(vec![26, 23, 38, 80, 94, 98, 119, 1], cardmeta, owned_deck)
    }

    open spec fn ticks_of(&self) -> Option<u16> {
        None
    }

    fn ticks(&self) -> (t: Option<u16>)
        ensures
            t is None,
    {
        None
    }

    open spec fn show_of(&self) -> (bool, bool) {
        (false, false)
    }

    fn show_draft(&self) -> (r: (bool, bool))
        ensures
            r == (false, false),
    {
        (false, false)
    }

    open spec fn push_of(&self) -> bool {
        false
    }

    fn push_notification(&self) -> (b: bool)
        ensures
            b == false,
    {
        false
    }
}

/// A fixed deal for trying out the game: Horror cards in hand and ten coins.
pub struct TheHorrorDraftStruct {}

impl TheDraft for TheHorrorDraftStruct {
    open spec fn start_ok(&self, owned: Seq<usize>) -> bool {
        true
    }

    fn can_start(&self, cardmeta: &Vec<ListCard>, owned_deck: &Vec<usize>) -> (b: bool) {
        true
    }

    open spec fn dealt(&self, p0: PlayerView, u0: Seq<usize>, o0: Seq<usize>, p1: PlayerView, u1: Seq<usize>, o1: Seq<usize>) -> bool {
        &&& p1 == (PlayerView { coin: 10, hand: seq![41usize, 48, 54, 52, 38], draft: Seq::empty(), ..p0 })
        &&& u1 == seq![141usize, 148, 7, 177, 70]
        &&& o1 == o0 + seq![41usize, 48, 54, 52, 38] + seq![141usize, 148, 7, 177, 70]
    }

    fn player_starting(&self, p: &mut Player, unknown: &mut Vec<usize>, cardmeta: &Vec<ListCard>, owned_deck: &mut Vec<usize>)
        ensures
            final(p)@ == (PlayerView { coin: 10, hand: seq![41usize, 48, 54, 52, 38], draft: Seq::empty(), ..old(p)@ }),
            final(unknown)@ == seq![141usize, 148, 7, 177, 70],
            final(owned_deck)@ == old(owned_deck)@ + seq![41usize, 48, 54, 52, 38] + seq![141usize, 148, 7, 177, 70],
    {
        p.coin = 10;
        deal_fixed(p, unknown, owned_deck, vec![41, 48, 54, 52, 38], vec![141, 148, 7, 177, 70]);
    }

    open spec fn deck_of(&self, owned: Seq<usize>) -> Seq<usize> {
        draft::deck_after(seq![26usize, 23, 38, 80, 94, 98, 119, 1], owned)
    }

    fn deck_starting(&self, cardmeta: &Vec<ListCard>, owned_deck: &Vec<usize>) -> (deck: Vec<usize>)
        ensures
            deck@ == draft::deck_after(seq![26usize, 23, 38, 80, 94, 98, 119, 1], owned_deck@),
    {
        draft::deck_with(vec![26, 23, 38, 80, 94, 98, 119, 1], cardmeta, owned_deck)
    }

    open spec fn ticks_of(&self) -> Option<u16> {
        None
    }

    fn ticks(&self) -> (t: Option<u16>)
        ensures
            t is None,
    {
        None
    }

    open spec fn show_of(&self) -> (bool, bool) {
        (false, false)
    }

    fn show_draft(&self) -> (r: (bool, bool))
        ensures
            r == (false, false),
    {
        (false, false)
    }

    open spec fn push_of(&self) -> bool {
        false
    }

    fn push_notification(&self) -> (b: bool)
        ensures
            b == false,
    {
        false
    }
}

/// A fixed deal for trying out the game: Mystery cards in hand and ten coins.
pub struct TheMysteryDraftStruct {}

impl TheDraft for TheMysteryDraftStruct {
    open spec fn start_ok(&self, owned: Seq<usize>) -> bool {
        true
    }

    fn can_start(&self, cardmeta: &Vec<ListCard>, owned_deck: &Vec<usize>) -> (b: bool) {
        true
    }

    open spec fn dealt(&self, p0: PlayerView, u0: Seq<usize>, o0: Seq<usize>, p1: PlayerView, u1: Seq<usize>, o1: Seq<usize>) -> bool {
        &&& p1 == (PlayerView { coin: 10, hand: seq![76usize, 83, 89, 87, 73], draft: Seq::empty(), ..p0 })
        &&& u1 == seq![141usize, 148, 7, 177, 70]
        &&& o1 == o0 + seq![76usize, 83, 89, 87, 73] + seq![141usize, 148, 7, 177, 70]
    }

    fn player_starting(&self, p: &mut Player, unknown: &mut Vec<usize>, cardmeta: &Vec<ListCard>, owned_deck: &mut Vec<usize>)
        ensures
            final(p)@ == (PlayerView { coin: 10, hand: seq![76usize, 83, 89, 87, 73], draft: Seq::empty(), ..old(p)@ }),
            final(unknown)@ == seq![141usize, 148, 7, 177, 70],
            final(owned_deck)@ == old(owned_deck)@ + seq![76usize, 83, 89, 87, 73] + seq![141usize, 148, 7, 177, 70],
    {
        p.coin = 10;
        deal_fixed(p, unknown, owned_deck, vec![76, 83, 89, 87, 73], vec![141, 148, 7, 177, 70]);
    }

    open spec fn deck_of(&self, owned: Seq<usize>) -> Seq<usize> {
        draft::deck_after(seq![26usize, 23, 38, 80, 94, 98, 119, 1], owned)
    }

    fn deck_starting(&self, cardmeta: &Vec<ListCard>, owned_deck: &Vec<usize>) -> (deck: Vec<usize>)
        ensures
            deck@ == draft::deck_after(seq![26usize, 23, 38, 80, 94, 98, 119, 1], owned_deck@),
    {
        draft::deck_with(vec![26, 23, 38, 80, 94, 98, 119, 1], cardmeta, owned_deck)
    }

    open spec fn ticks_of(&self) -> Option<u16> {
        None
    }

    fn ticks(&self) -> (t: Option<u16>)
        ensures
            t is None,
    {
        None
    }

    open spec fn show_of(&self) -> (bool, bool) {
        (false, false)
    }

    fn show_draft(&self) -> (r: (bool, bool))
        ensures
            r == (false, false),
    {
        (false, false)
    }

    open spec fn push_of(&self) -> bool {
        false
    }

    fn push_notification(&self) -> (b: bool)
        ensures
            b == false,
    {
        false
    }
}

/// A fixed deal for trying out the game: Mystery cards that uncover wild cards, and ten coins.
pub struct TheMysteryUnCoverDraftStruct {}

impl TheDraft for TheMysteryUnCoverDraftStruct {
    open spec fn start_ok(&self, owned: Seq<usize>) -> bool {
        true
    }

    fn can_start(&self, cardmeta: &Vec<ListCard>, owned_deck: &Vec<usize>) -> (b: bool) {
        true
    }

    open spec fn dealt(&self, p0: PlayerView, u0: Seq<usize>, o0: Seq<usize>, p1: PlayerView, u1: Seq<usize>, o1: Seq<usize>) -> bool {
        &&& p1 == (PlayerView { coin: 10, hand: seq![42usize, 72, 178, 82, 73], draft: Seq::empty(), ..p0 })
        &&& u1 == seq![141usize, 148, 7, 177, 70]
        &&& o1 == o0 + seq![42usize, 72, 178, 82, 73] + seq![141usize, 148, 7, 177, 70]
    }

    fn player_starting(&self, p: &mut Player, unknown: &mut Vec<usize>, cardmeta: &Vec<ListCard>, owned_deck: &mut Vec<usize>)
        ensures
            final(p)@ == (PlayerView { coin: 10, hand: seq![42usize, 72, 178, 82, 73], draft: Seq::empty(), ..old(p)@ }),
            final(unknown)@ == seq![141usize, 148, 7, 177, 70],
            final(owned_deck)@ == old(owned_deck)@ + seq![42usize, 72, 178, 82, 73] + seq![141usize, 148, 7, 177, 70],
    {
        p.coin = 10;
        deal_fixed(p, unknown, owned_deck, vec![42, 72, 178, 82, 73], vec![141, 148, 7, 177, 70]);
    }

    open spec fn deck_of(&self, owned: Seq<usize>) -> Seq<usize> {
        draft::deck_after(seq![26usize, 23, 38, 80, 94, 98, 119, 1], owned)
    }

    fn deck_starting(&self, cardmeta: &Vec<ListCard>, owned_deck: &Vec<usize>) -> (deck: Vec<usize>)
        ensures
            deck@ == draft::deck_after(seq![26usize, 23, 38, 80, 94, 98, 119, 1], owned_deck@),
    {
        draft::deck_with(vec![26, 23, 38, 80, 94, 98, 119, 1], cardmeta, owned_deck)
    }

    open spec fn ticks_of(&self) -> Option<u16> {
        None
    }

    fn ticks(&self) -> (t: Option<u16>)
        ensures
            t is None,
    {
        None
    }

    open spec fn show_of(&self) -> (bool, bool) {
        (false, false)
    }

    fn show_draft(&self) -> (r: (bool, bool))
        ensures
            r == (false, false),
    {
        (false, false)
    }

    open spec fn push_of(&self) -> bool {
        false
    }

    fn push_notification(&self) -> (b: bool)
        ensures
            b == false,
    {
        false
    }
}

/// A fixed deal for trying out the game: Romance cards in hand and ten coins.
pub struct TheRomanceDraftStruct {}

impl TheDraft for TheRomanceDraftStruct {
    open spec fn start_ok(&self, owned: Seq<usize>) -> bool {
        true
    }

    fn can_start(&self, cardmeta: &Vec<ListCard>, owned_deck: &Vec<usize>) -> (b: bool) {
        true
    }

    open spec fn dealt(&self, p0: PlayerView, u0: Seq<usize>, o0: Seq<usize>, p1: PlayerView, u1: Seq<usize>, o1: Seq<usize>) -> bool {
        &&& p1 == (PlayerView { coin: 10, hand: seq![105usize, 135, 108, 110, 111], draft: Seq::empty(), ..p0 })
        &&& u1 == seq![141usize, 148, 7, 177, 70]
        &&& o1 == o0 + seq![105usize, 135, 108, 110, 111] + seq![141usize, 148, 7, 177, 70]
    }

    fn player_starting(&self, p: &mut Player, unknown: &mut Vec<usize>, cardmeta: &Vec<ListCard>, owned_deck: &mut Vec<usize>)
        ensures
            final(p)@ == (PlayerView { coin: 10, hand: seq![105usize, 135, 108, 110, 111], draft: Seq::empty(), ..old(p)@ }),
            final(unknown)@ == seq![141usize, 148, 7, 177, 70],
            final(owned_deck)@ == old(owned_deck)@ + seq![105usize, 135, 108, 110, 111] + seq![141usize, 148, 7, 177, 70],
    {
        p.coin = 10;
        deal_fixed(p, unknown, owned_deck, vec![105, 135, 108, 110, 111], vec![141, 148, 7, 177, 70]);
    }

    open spec fn deck_of(&self, owned: Seq<usize>) -> Seq<usize> {
        draft::deck_after(seq![26usize, 23, 38, 80, 94, 98, 119, 1], owned)
    }

    fn deck_starting(&self, cardmeta: &Vec<ListCard>, owned_deck: &Vec<usize>) -> (deck: Vec<usize>)
        ensures
            deck@ == draft::deck_after(seq![26usize, 23, 38, 80, 94, 98, 119, 1], owned_deck@),
    {
        draft::deck_with(vec![26, 23, 38, 80, 94, 98, 119, 1], cardmeta, owned_deck)
    }

    open spec fn ticks_of(&self) -> Option<u16> {
        None
    }

    fn ticks(&self) -> (t: Option<u16>)
        ensures
            t is None,
    {
        None
    }

    open spec fn show_of(&self) -> (bool, bool) {
        (false, false)
    }

    fn show_draft(&self) -> (r: (bool, bool))
        ensures
            r == (false, false),
    {
        (false, false)
    }

    open spec fn push_of(&self) -> bool {
        false
    }

    fn push_notification(&self) -> (b: bool)
        ensures
            b == false,
    {
        false
    }
}

/// A fixed deal for trying out the game: Romance cards in hand, ten coins, three ink and two ink removers.
pub struct TheOverlayDraftStruct {}

impl TheDraft for TheOverlayDraftStruct {
    open spec fn start_ok(&self, owned: Seq<usize>) -> bool {
        true
    }

    fn can_start(&self, cardmeta: &Vec<ListCard>, owned_deck: &Vec<usize>) -> (b: bool) {
        true
    }

    open spec fn dealt(&self, p0: PlayerView, u0: Seq<usize>, o0: Seq<usize>, p1: PlayerView, u1: Seq<usize>, o1: Seq<usize>) -> bool {
        &&& p1 == (PlayerView { coin: 10, ink: 3, remover: 2, hand: seq![105usize, 135, 108, 110, 111], draft: Seq::empty(), ..p0 })
        &&& u1 == seq![141usize, 148, 7, 177, 70]
        &&& o1 == o0 + seq![105usize, 135, 108, 110, 111] + seq![141usize, 148, 7, 177, 70]
    }

    fn player_starting(&self, p: &mut Player, unknown: &mut Vec<usize>, cardmeta: &Vec<ListCard>, owned_deck: &mut Vec<usize>)
        ensures
            final(p)@ == (PlayerView { coin: 10, ink: 3, remover: 2, hand: seq![105usize, 135, 108, 110, 111], draft: Seq::empty(), ..old(p)@ }),
            final(unknown)@ == seq![141usize, 148, 7, 177, 70],
            final(owned_deck)@ == old(owned_deck)@ + seq![105usize, 135, 108, 110, 111] + seq![141usize, 148, 7, 177, 70],
    {
        p.coin = 10;
        p.ink = 3;
        p.remover = 2;
        deal_fixed(p, unknown, owned_deck, vec![105, 135, 108, 110, 111], vec![141, 148, 7, 177, 70]);
    }

    open spec fn deck_of(&self, owned: Seq<usize>) -> Seq<usize> {
        draft::deck_after(seq![26usize, 23, 38, 80, 94, 98, 119, 1], owned)
    }

    fn deck_starting(&self, cardmeta: &Vec<ListCard>, owned_deck: &Vec<usize>) -> (deck: Vec<usize>)
        ensures
            deck@ == draft::deck_after(seq![26usize, 23, 38, 80, 94, 98, 119, 1], owned_deck@),
    {
        draft::deck_with(vec![26, 23, 38, 80, 94, 98, 119, 1], cardmeta, owned_deck)
    }

    open spec fn ticks_of(&self) -> Option<u16> {
        None
    }

    fn ticks(&self) -> (t: Option<u16>)
        ensures
            t is None,
    {
        None
    }

    open spec fn show_of(&self) -> (bool, bool) {
        (false, false)
    }

    fn show_draft(&self) -> (r: (bool, bool))
        ensures
            r == (false, false),
    {
        (false, false)
    }

    open spec fn push_of(&self) -> bool {
        false
    }

    fn push_notification(&self) -> (b: bool)
        ensures
            b == false,
    {
        false
    }
}

} // verus!
