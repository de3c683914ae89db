use vstd::prelude::*;
use crate::board::{self, Board, BoardStruct, Scene};
use crate::cards::{self, GIVEABLE, Genre, ListCard, NUM_CARDS};
use crate::codec::{self, GameState, Player, PlayerView, ReplyEffect, ReplyOption, WaitForInputType, WaitForSingleInput, WaitView};

verus! {

/// The most cards a layout may hold for its benefits to be resolved.
pub const MAX_LAYOUT: usize = 1024;

/// An upper bound on the victory points or coins one resolution step adds.
pub const STEP_GAIN: usize = 2048;

/// The player after the outright part of a benefit.
pub open spec fn giveable_gain(p: PlayerView, g: GIVEABLE) -> PlayerView {
    match g {
        GIVEABLE::VP(x) => PlayerView { vp: (p.vp + x) as usize, ..p },
        GIVEABLE::COIN(x) => PlayerView { coin: (p.coin + x) as usize, ..p },
        GIVEABLE::VPCOIN(x1, x2) => PlayerView { vp: (p.vp + x1) as usize, coin: (p.coin + x2) as usize, ..p },
        GIVEABLE::COININK(x) => PlayerView { coin: (p.coin + x) as usize, ..p },
        GIVEABLE::VPINK(x) => PlayerView { vp: (p.vp + x) as usize, ..p },
        _ => p,
    }
}

/// The choice between an ink and an ink remover that comes with coins and ink.
pub open spec fn ink_choice_prompt(card: usize) -> WaitView {
    (card, GameState::PreWaitForReply, "Choose between"@,
        seq![(GameState::DrawCard, "Ink"@, ReplyEffect::GainInk), (GameState::DrawCard, "Ink Remover"@, ReplyEffect::GainRemover)])
}

/// The choice between victory points and coins, `x` of either.
pub open spec fn vp_or_coin_prompt(card: usize, x: usize) -> WaitView {
    (card, GameState::PreWaitForReply, "Choose between"@,
        seq![(GameState::Buy, codec::decimal(x as nat) + " vps"@, ReplyEffect::GainVp(x)),
             (GameState::Buy, codec::decimal(x as nat) + " coins"@, ReplyEffect::GainCoin(x))])
}

/// The request a benefit comes with, if any: the choice of an ink or an ink
/// remover with coins and ink, the choice of victory points or coins.
pub open spec fn giveable_request(s: Seq<Seq<Option<WaitView>>>, pid: usize, card: usize, g: GIVEABLE) -> Seq<Seq<Option<WaitView>>> {
    match g {
        GIVEABLE::COININK(_) => board::push_on(s, pid as int, ink_choice_prompt(card)),
        GIVEABLE::VPORCOIN(x) => board::push_on(s, pid as int, vp_or_coin_prompt(card, x)),
        _ => s,
    }
}

/// A benefit granted to a player, when that player exists.
pub open spec fn giveable_scene(s: Scene, pid: usize, card: usize, g: GIVEABLE) -> Scene {
    if pid < s.0.len() {
        let qs = giveable_request(s.1, pid, card, g);
        (s.0.update(pid as int, giveable_gain(s.0[pid as int], g)), qs)
    } else {
        s
    }
}

/// Grants a benefit: victory points and coins at once; for coins with ink a
/// request to choose between an ink and an ink remover; for victory points or
/// coins a request to choose between them.
pub fn giveable_match(z: &mut Player, player_id: usize, card_index: usize, giveables: &GIVEABLE, wait_for_input: &mut Vec<WaitForInputType>)
    requires
        (*giveables is COININK || *giveables is VPORCOIN) ==> player_id < old(wait_for_input)@.len(),
        old(z).vp + cards::vp_amount(*giveables) <= usize::MAX,
        old(z).coin + cards::coin_amount(*giveables) <= usize::MAX,
    ensures
        final(z)@ == giveable_gain(old(z)@, *giveables),
        codec::queues_view(*final(wait_for_input)) == giveable_request(codec::queues_view(*old(wait_for_input)), player_id, card_index, *giveables),
{
    match giveables {
        GIVEABLE::VP(x) => {
            z.vp += *x;
        },
        GIVEABLE::COIN(x) => {
            z.coin += *x;
        },
        GIVEABLE::VPCOIN(x1, x2) => {
            z.vp += *x1;
            z.coin += *x2;
        },
        GIVEABLE::COININK(x) => {
            z.coin += *x;
            let w = WaitForSingleInput {
                card_index,
                wait_state: GameState::PreWaitForReply,
                header: codec::owned("Choose between"),
                options: vec![
                    codec::reply_option(GameState::DrawCard, "Ink", ReplyEffect::GainInk),
                    codec::reply_option(GameState::DrawCard, "Ink Remover", ReplyEffect::GainRemover),
                ],
            };
            assert(w@.3 =~= seq![(GameState::DrawCard, "Ink"@, ReplyEffect::GainInk), (GameState::DrawCard, "Ink Remover"@, ReplyEffect::GainRemover)]);
            let ghost before = codec::queues_view(*wait_for_input);
            wait_for_input[player_id].push(Some(w));
            proof {
                assert(codec::queue_view(wait_for_input@[player_id as int]) =~= before[player_id as int].push(Some(w@)));
                assert(codec::queues_view(*wait_for_input) =~= board::push_on(before, player_id as int, ink_choice_prompt(card_index)));
            }
        },
        GIVEABLE::VPINK(x) => {
            z.vp += *x;
        },
        GIVEABLE::VPORCOIN(x) => {
            let mut l1 = codec::usize_to_string(*x);
            l1.append(" vps");
            let mut l2 = codec::usize_to_string(*x);
            l2.append(" coins");
            let w = WaitForSingleInput {
                card_index,
                wait_state: GameState::PreWaitForReply,
                header: codec::owned("Choose between"),
                options: vec![
                    ReplyOption { next_state: GameState::Buy, label: l1, effect: ReplyEffect::GainVp(*x) },
                    ReplyOption { next_state: GameState::Buy, label: l2, effect: ReplyEffect::GainCoin(*x) },
                ],
            };
            assert(w@.3 =~= vp_or_coin_prompt(card_index, *x).3);
            let ghost before = codec::queues_view(*wait_for_input);
            wait_for_input[player_id].push(Some(w));
            proof {
                assert(codec::queue_view(wait_for_input@[player_id as int]) =~= before[player_id as int].push(Some(w@)));
                assert(codec::queues_view(*wait_for_input) =~= board::push_on(before, player_id as int, vp_or_coin_prompt(card_index, *x)));
            }
        },
        _ => {},
    }
}

/// Puts a card of the table in the list of its genre.
pub fn track_genre(card_index: usize, cardmeta: &Vec<ListCard>, adv: &mut Vec<usize>, hor: &mut Vec<usize>, mys: &mut Vec<usize>, rom: &mut Vec<usize>)
    requires
        cards::is_card_table(cardmeta@),
        card_index < NUM_CARDS,
    ensures
        final(adv)@ == genre_step(old(adv)@, card_index, Genre::ADVENTURE),
        final(hor)@ == genre_step(old(hor)@, card_index, Genre::HORROR),
        final(mys)@ == genre_step(old(mys)@, card_index, Genre::MYSTERY),
        final(rom)@ == genre_step(old(rom)@, card_index, Genre::ROMANCE),
{
    match cardmeta[card_index].genre {
        Genre::ADVENTURE => adv.push(card_index),
        Genre::HORROR => hor.push(card_index),
        Genre::MYSTERY => mys.push(card_index),
        Genre::ROMANCE => rom.push(card_index),
        Genre::NONE => {},
    }
}

/// The genre list after one more card.
pub open spec fn genre_step(l: Seq<usize>, c: usize, g: Genre) -> Seq<usize> {
    if cards::card_spec(c).genre == g { l.push(c) } else { l }
}

/// The cards of `cs` of genre `g`, in order.
pub open spec fn genre_cards(cs: Seq<usize>, g: Genre) -> Seq<usize>
    decreases cs.len(),
{
    if cs.len() == 0 { Seq::empty() } else { genre_step(genre_cards(cs.drop_last(), g), cs.last(), g) }
}

/// The cards among the entries, in order.
pub open spec fn somes(vs: Seq<Option<usize>>) -> Seq<usize>
    decreases vs.len(),
{
    if vs.len() == 0 {
        Seq::empty()
    } else {
        match vs.last() {
            Some(c) => somes(vs.drop_last()).push(c),
            None => somes(vs.drop_last()),
        }
    }
}

/// A card played: its benefit, then its ability.
pub open spec fn resolve_giveable_scene(s: Scene, pid: usize, c: usize) -> Scene {
    let s1 = giveable_scene(s, pid, c, cards::card_spec(c).giveables);
    match cards::card_spec(c).giveablefn {
        Some(e) => board::effect_scene(s1, e, pid, c),
        None => s1,
    }
}

/// The cards played one after the other.
pub open spec fn play_cards_scene(s: Scene, pid: usize, cs: Seq<usize>) -> Scene
    decreases cs.len(),
{
    if cs.len() == 0 { s } else { resolve_giveable_scene(play_cards_scene(s, pid, cs.drop_last()), pid, cs.last()) }
}

/// The genre benefits of one genre list, granted when it holds two cards or more.
pub open spec fn genre_gain_scene(s: Scene, pid: usize, l: Seq<usize>, skip: Seq<usize>) -> Scene {
    if l.len() >= 2 { genre_gains_fold(s, pid, l, skip) } else { s }
}

pub open spec fn genre_gains_fold(s: Scene, pid: usize, l: Seq<usize>, skip: Seq<usize>) -> Scene
    decreases l.len(),
{
    if l.len() == 0 {
        s
    } else {
        let c = l.last();
        let s1 = genre_gains_fold(s, pid, l.drop_last(), skip);
        if skip.contains(c) { s1 } else { giveable_scene(s1, pid, c, cards::card_spec(c).genre_giveables) }
    }
}

/// The genre abilities of one genre list, used when it holds two cards or more.
pub open spec fn genre_effect_scene(s: Scene, pid: usize, l: Seq<usize>, skip: Seq<usize>) -> Scene {
    if l.len() >= 2 { genre_effects_fold(s, pid, l, skip) } else { s }
}

pub open spec fn genre_effects_fold(s: Scene, pid: usize, l: Seq<usize>, skip: Seq<usize>) -> Scene
    decreases l.len(),
{
    if l.len() == 0 {
        s
    } else {
        let c = l.last();
        let s1 = genre_effects_fold(s, pid, l.drop_last(), skip);
        match cards::card_spec(c).genrefn {
            Some(e) if !skip.contains(c) => board::effect_scene(s1, e, pid, c),
            _ => s1,
        }
    }
}

/// The cards the player `pid` has resolved already, if there is such a player.
pub open spec fn skip_of(s: Scene, pid: usize) -> Seq<usize> {
    if pid < s.0.len() { s.0[pid as int].skip_cards } else { Seq::empty() }
}

/// Whether the player `pid`, if there is one, can take `k` more resolution
/// steps: the layout holds table cards only, at most `MAX_LAYOUT` of them, and
/// `k` steps of gains fit in the tallies.
pub open spec fn budget_ok(s: Scene, pid: usize, k: int) -> bool {
    pid < s.0.len() ==> {
        let p = s.0[pid as int];
        &&& board::arranged_in_table(p.arranged)
        &&& p.arranged.len() <= MAX_LAYOUT
        &&& p.vp + k * STEP_GAIN <= usize::MAX
        &&& p.coin + k * STEP_GAIN <= usize::MAX
    }
}

/// Only player `pid` may change, and the queues keep their number.
pub open spec fn frame(s: Scene, t: Scene, pid: usize) -> bool {
    &&& t.0.len() == s.0.len()
    &&& t.1.len() == s.1.len()
    &&& forall|i: int| 0 <= i < s.0.len() && i != pid ==> t.0[i] == s.0[i]
    &&& pid < s.0.len() ==> t.0[pid as int].name == s.0[pid as int].name
}

proof fn lemma_uncover_keeps_cards(arr: Seq<codec::ArrangedView>, pc: int)
    requires
        board::arranged_in_table(arr),
    ensures
        board::uncover_beside(arr, pc).len() == arr.len(),
        board::arranged_in_table(board::uncover_beside(arr, pc)),
{
    let u = board::uncover_beside(arr, pc);
    assert forall|j: int| 0 <= j < u.len() implies (#[trigger] u[j]).0 < NUM_CARDS by {
        assert(u[j].0 == arr[j].0);
    }
}

/// A card ability costs at most one step of the budget and changes only its player.
pub proof fn lemma_effect_step(s: Scene, e: cards::CardEffect, pid: usize, c: usize, k: int)
    requires
        budget_ok(s, pid, k),
        k >= 1,
    ensures
        budget_ok(board::effect_scene(s, e, pid, c), pid, k - 1),
        frame(s, board::effect_scene(s, e, pid, c), pid),
{
    let t = board::effect_scene(s, e, pid, c);
    if pid < s.0.len() {
        let p = s.0[pid as int];
        board::lemma_counts_bounded(p.arranged);
        match board::first_position(p.arranged, c) {
            Some(pc) => lemma_uncover_keeps_cards(p.arranged, pc as int),
            None => {},
        }
    }
}

/// A benefit of at most five points or coins costs at most one step of the
/// budget and changes only its player.
pub proof fn lemma_giveable_step(s: Scene, pid: usize, c: usize, g: GIVEABLE, k: int)
    requires
        budget_ok(s, pid, k),
        k >= 1,
        cards::vp_amount(g) <= 5,
        cards::coin_amount(g) <= 5,
    ensures
        budget_ok(giveable_scene(s, pid, c, g), pid, k - 1),
        frame(s, giveable_scene(s, pid, c, g), pid),
{
}

/// Playing one card of the table costs at most two steps of the budget.
pub proof fn lemma_play_step(s: Scene, pid: usize, c: usize, k: int)
    requires
        budget_ok(s, pid, k),
        k >= 2,
        c < NUM_CARDS,
    ensures
        budget_ok(resolve_giveable_scene(s, pid, c), pid, k - 2),
        frame(s, resolve_giveable_scene(s, pid, c), pid),
{
    cards::lemma_table_amounts(c);
    let s1 = giveable_scene(s, pid, c, cards::card_spec(c).giveables);
    lemma_giveable_step(s, pid, c, cards::card_spec(c).giveables, k);
    match cards::card_spec(c).giveablefn {
        Some(e) => lemma_effect_step(s1, e, pid, c, k - 1),
        None => {},
    }
}

/// Plays a card of the table: its benefit, then its ability.
pub fn resolve_giveable(card_index: usize, cardmeta: &Vec<ListCard>, player_id: usize, board: &mut BoardStruct, wait_for_input: &mut Vec<WaitForInputType>)
    requires
        cards::is_card_table(cardmeta@),
        card_index < NUM_CARDS,
        budget_ok(board::scene_of(old(board).players, *old(wait_for_input)), player_id, 2),
        player_id < old(board).players@.len() ==> player_id < old(wait_for_input)@.len(),
    ensures
        final(board).offer_row@ == old(board).offer_row@,
        board::scene_of(final(board).players, *final(wait_for_input))
            == resolve_giveable_scene(board::scene_of(old(board).players, *old(wait_for_input)), player_id, card_index),
{
    let ghost s0 = board::scene_of(board.players, *wait_for_input);
    let info = cardmeta[card_index];
    assert(info == cards::card_spec(card_index));
    proof { cards::lemma_table_amounts(card_index); }
    if player_id < board.players.len() {
        let ghost before = codec::players_view(board.players);
        giveable_match(&mut board.players[player_id], player_id, card_index, &info.giveables, wait_for_input);
        proof {
            assert(codec::players_view(board.players) =~= before.update(player_id as int, giveable_gain(before[player_id as int], info.giveables)));
        }
    }
    let ghost s1 = board::scene_of(board.players, *wait_for_input);
    assert(s1 == giveable_scene(s0, player_id, card_index, info.giveables));
    proof { lemma_giveable_step(s0, player_id, card_index, info.giveables, 2); }
    if let Some(e) = info.giveablefn {
        board::apply_card_effect(board, e, player_id, card_index, wait_for_input);
    }
}

/// Grants the genre benefits of the cards of one list, when it holds two cards or more.
fn genre_gains(player_id: usize, board: &mut BoardStruct, wait_for_input: &mut Vec<WaitForInputType>, cardmeta: &Vec<ListCard>, l: &Vec<usize>, skip: &Vec<usize>, Ghost(k): Ghost<int>)
    requires
        cards::is_card_table(cardmeta@),
        forall|j: int| 0 <= j < l@.len() ==> #[trigger] l@[j] < NUM_CARDS,
        budget_ok(board::scene_of(old(board).players, *old(wait_for_input)), player_id, k),
        k >= l@.len(),
        player_id < old(board).players@.len() ==> player_id < old(wait_for_input)@.len(),
    ensures
        final(board).offer_row@ == old(board).offer_row@,
        board::scene_of(final(board).players, *final(wait_for_input))
            == genre_gain_scene(board::scene_of(old(board).players, *old(wait_for_input)), player_id, l@, skip@),
        budget_ok(board::scene_of(final(board).players, *final(wait_for_input)), player_id, k - l@.len()),
        frame(board::scene_of(old(board).players, *old(wait_for_input)), board::scene_of(final(board).players, *final(wait_for_input)), player_id),
{
    let ghost s0 = board::scene_of(board.players, *wait_for_input);
    if l.len() >= 2 {
        let mut i: usize = 0;
        while i < l.len()
            invariant
                cards::is_card_table(cardmeta@),
                forall|j: int| 0 <= j < l@.len() ==> #[trigger] l@[j] < NUM_CARDS,
                i <= l@.len(),
                k >= l@.len(),
                board.offer_row@ == old(board).offer_row@,
                board::scene_of(board.players, *wait_for_input) == genre_gains_fold(s0, player_id, l@.subrange(0, i as int), skip@),
                budget_ok(board::scene_of(board.players, *wait_for_input), player_id, k - i),
                frame(s0, board::scene_of(board.players, *wait_for_input), player_id),
                player_id < s0.0.len() ==> player_id < s0.1.len(),
            decreases l@.len() - i,
        {
            let c = l[i];
            let info = cardmeta[c];
            assert(info == cards::card_spec(c));
            proof { cards::lemma_table_amounts(c); }
            let ghost cur = board::scene_of(board.players, *wait_for_input);
            proof { lemma_giveable_step(cur, player_id, c, info.genre_giveables, k - i); }
            if player_id < board.players.len() && !codec::contains_id(skip, c) {
                let ghost before = codec::players_view(board.players);
                giveable_match(&mut board.players[player_id], player_id, c, &info.genre_giveables, wait_for_input);
                proof {
                    assert(codec::players_view(board.players) =~= before.update(player_id as int, giveable_gain(before[player_id as int], info.genre_giveables)));
                }
            }
            assert(l@.subrange(0, i + 1).drop_last() =~= l@.subrange(0, i as int));
            i = i + 1;
        }
        assert(l@.subrange(0, l@.len() as int) =~= l@);
    }
}

/// Uses the genre abilities of the cards of one list, when it holds two cards or more.
fn genre_effects(player_id: usize, board: &mut BoardStruct, wait_for_input: &mut Vec<WaitForInputType>, cardmeta: &Vec<ListCard>, l: &Vec<usize>, skip: &Vec<usize>, Ghost(k): Ghost<int>)
    requires
        cards::is_card_table(cardmeta@),
        forall|j: int| 0 <= j < l@.len() ==> #[trigger] l@[j] < NUM_CARDS,
        budget_ok(board::scene_of(old(board).players, *old(wait_for_input)), player_id, k),
        k >= l@.len(),
    ensures
        final(board).offer_row@ == old(board).offer_row@,
        board::scene_of(final(board).players, *final(wait_for_input))
            == genre_effect_scene(board::scene_of(old(board).players, *old(wait_for_input)), player_id, l@, skip@),
        budget_ok(board::scene_of(final(board).players, *final(wait_for_input)), player_id, k - l@.len()),
        frame(board::scene_of(old(board).players, *old(wait_for_input)), board::scene_of(final(board).players, *final(wait_for_input)), player_id),
{
    let ghost s0 = board::scene_of(board.players, *wait_for_input);
    if l.len() >= 2 {
        let mut i: usize = 0;
        while i < l.len()
            invariant
                cards::is_card_table(cardmeta@),
                forall|j: int| 0 <= j < l@.len() ==> #[trigger] l@[j] < NUM_CARDS,
                i <= l@.len(),
                k >= l@.len(),
                board.offer_row@ == old(board).offer_row@,
                board::scene_of(board.players, *wait_for_input) == genre_effects_fold(s0, player_id, l@.subrange(0, i as int), skip@),
                budget_ok(board::scene_of(board.players, *wait_for_input), player_id, k - i),
                frame(s0, board::scene_of(board.players, *wait_for_input), player_id),
            decreases l@.len() - i,
        {
            let c = l[i];
            let info = cardmeta[c];
            assert(info == cards::card_spec(c));
            let ghost cur = board::scene_of(board.players, *wait_for_input);
            if let Some(e) = info.genrefn {
                if !codec::contains_id(skip, c) {
                    proof { lemma_effect_step(cur, e, player_id, c, k - i); }
                    board::apply_card_effect(board, e, player_id, c, wait_for_input);
                }
            }
            assert(l@.subrange(0, i + 1).drop_last() =~= l@.subrange(0, i as int));
            i = i + 1;
        }
        assert(l@.subrange(0, l@.len() as int) =~= l@);
    }
}

/// The genre benefits of every list, then the genre abilities of every list.
pub open spec fn genre_benefits_scene(s: Scene, pid: usize, ls: Seq<Seq<usize>>, skip: Seq<usize>) -> Scene {
    effects_over_lists(gains_over_lists(s, pid, ls, skip), pid, ls, skip)
}

pub open spec fn gains_over_lists(s: Scene, pid: usize, ls: Seq<Seq<usize>>, skip: Seq<usize>) -> Scene
    decreases ls.len(),
{
    if ls.len() == 0 { s } else { genre_gain_scene(gains_over_lists(s, pid, ls.drop_last(), skip), pid, ls.last(), skip) }
}

pub open spec fn effects_over_lists(s: Scene, pid: usize, ls: Seq<Seq<usize>>, skip: Seq<usize>) -> Scene
    decreases ls.len(),
{
    if ls.len() == 0 { s } else { genre_effect_scene(effects_over_lists(s, pid, ls.drop_last(), skip), pid, ls.last(), skip) }
}

/// The number of cards in all the lists.
pub open spec fn total_len(ls: Seq<Seq<usize>>) -> nat
    decreases ls.len(),
{
    if ls.len() == 0 { 0 } else { total_len(ls.drop_last()) + ls.last().len() }
}

pub open spec fn lists_in_table(ls: Seq<Seq<usize>>) -> bool {
    forall|i: int, j: int| 0 <= i < ls.len() && 0 <= j < ls[i].len() ==> #[trigger] ls[i][j] < NUM_CARDS
}

/// Grants the genre benefits of every genre list with two cards or more, then
/// uses the genre abilities of the cards of those lists.
pub fn resolve_genre_giveable(player_id: usize, board: &mut BoardStruct, wait_for_input: &mut Vec<WaitForInputType>, cardmeta: &Vec<ListCard>, genre_vec: &Vec<Vec<usize>>)
    requires
        cards::is_card_table(cardmeta@),
        lists_in_table(genre_vec@.map_values(|l: Vec<usize>| l@)),
        budget_ok(board::scene_of(old(board).players, *old(wait_for_input)), player_id, 2 * total_len(genre_vec@.map_values(|l: Vec<usize>| l@)) as int),
        player_id < old(board).players@.len() ==> player_id < old(wait_for_input)@.len(),
    ensures
        final(board).offer_row@ == old(board).offer_row@,
        board::scene_of(final(board).players, *final(wait_for_input))
            == genre_benefits_scene(board::scene_of(old(board).players, *old(wait_for_input)), player_id, genre_vec@.map_values(|l: Vec<usize>| l@),
                skip_of(board::scene_of(old(board).players, *old(wait_for_input)), player_id)),
        frame(board::scene_of(old(board).players, *old(wait_for_input)), board::scene_of(final(board).players, *final(wait_for_input)), player_id),
{
    let ghost ls = genre_vec@.map_values(|l: Vec<usize>| l@);
    let ghost s0 = board::scene_of(board.players, *wait_for_input);
    let ghost total = total_len(ls);
    let skip = if player_id < board.players.len() { codec::copy_ids(&board.players[player_id].skip_cards) } else { Vec::new() };
    assert(skip@ == skip_of(s0, player_id));
    let mut i: usize = 0;
    while i < genre_vec.len()
        invariant
            cards::is_card_table(cardmeta@),
            ls == genre_vec@.map_values(|l: Vec<usize>| l@),
            lists_in_table(ls),
            total == total_len(ls),
            i <= genre_vec@.len(),
            board.offer_row@ == old(board).offer_row@,
            board::scene_of(board.players, *wait_for_input) == gains_over_lists(s0, player_id, ls.subrange(0, i as int), skip@),
            budget_ok(board::scene_of(board.players, *wait_for_input), player_id, 2 * total - total_len(ls.subrange(0, i as int))),
            total_len(ls.subrange(0, i as int)) <= total,
            frame(s0, board::scene_of(board.players, *wait_for_input), player_id),
            player_id < s0.0.len() ==> player_id < s0.1.len(),
        decreases genre_vec@.len() - i,
    {
        let ghost k = 2 * total - total_len(ls.subrange(0, i as int));
        proof {
            assert(ls.subrange(0, i + 1).drop_last() =~= ls.subrange(0, i as int));
            assert(ls.subrange(0, i + 1).last() == genre_vec@[i as int]@);
            lemma_total_prefix(ls, i as int + 1);
        }
        genre_gains(player_id, board, wait_for_input, cardmeta, &genre_vec[i], &skip, Ghost(k));
        i = i + 1;
    }
    assert(ls.subrange(0, ls.len() as int) =~= ls);
    let ghost s1 = board::scene_of(board.players, *wait_for_input);
    let mut i: usize = 0;
    while i < genre_vec.len()
        invariant
            cards::is_card_table(cardmeta@),
            ls == genre_vec@.map_values(|l: Vec<usize>| l@),
            lists_in_table(ls),
            total == total_len(ls),
            i <= genre_vec@.len(),
            board.offer_row@ == old(board).offer_row@,
            board::scene_of(board.players, *wait_for_input) == effects_over_lists(s1, player_id, ls.subrange(0, i as int), skip@),
            budget_ok(board::scene_of(board.players, *wait_for_input), player_id, total - total_len(ls.subrange(0, i as int))),
            total_len(ls.subrange(0, i as int)) <= total,
            frame(s0, board::scene_of(board.players, *wait_for_input), player_id),
        decreases genre_vec@.len() - i,
    {
        let ghost k = total - total_len(ls.subrange(0, i as int));
        proof {
            assert(ls.subrange(0, i + 1).drop_last() =~= ls.subrange(0, i as int));
            assert(ls.subrange(0, i + 1).last() == genre_vec@[i as int]@);
            lemma_total_prefix(ls, i as int + 1);
        }
        genre_effects(player_id, board, wait_for_input, cardmeta, &genre_vec[i], &skip, Ghost(k));
        i = i + 1;
    }
}

/// Prefix totals grow with the prefix and never exceed the whole total.
proof fn lemma_total_prefix(ls: Seq<Seq<usize>>, n: int)
    requires
        0 <= n <= ls.len(),
    ensures
        total_len(ls.subrange(0, n)) <= total_len(ls),
    decreases ls.len() - n,
{
    if n < ls.len() {
        lemma_total_prefix(ls, n + 1);
        assert(ls.subrange(0, n + 1).drop_last() =~= ls.subrange(0, n));
    } else {
        assert(ls.subrange(0, n) =~= ls);
    }
}

/// The queue `i` with a mark pushed, when there is such a queue.
pub open spec fn push_mark(qs: Seq<Seq<Option<WaitView>>>, i: int) -> Seq<Seq<Option<WaitView>>> {
    if 0 <= i < qs.len() { qs.update(i, qs[i].push(None)) } else { qs }
}

/// The request to trash a card for the benefit it gives when trashed.
pub open spec fn trash_prompt(card: usize, effect: ReplyEffect) -> WaitView {
    (card, GameState::PreWaitForReply, "Do you want to trash this card for the benefit?"@,
        seq![(GameState::Buy, "Yes"@, effect), (GameState::Buy, "No"@, ReplyEffect::Nothing)])
}

/// The effect of trashing a card, for the cards that give something when trashed.
pub open spec fn trash_effect(c: usize) -> Option<ReplyEffect> {
    match cards::card_spec(c).trash {
        GIVEABLE::VP(x) => Some(ReplyEffect::TrashForVp(c, x)),
        GIVEABLE::COIN(x) => Some(ReplyEffect::TrashForCoin(c, x)),
        _ => None,
    }
}

/// For each card that gives something when trashed, a request and a mark.
pub open spec fn trash_scene(s: Scene, pid: usize, cs: Seq<usize>) -> Scene
    decreases cs.len(),
{
    if cs.len() == 0 || pid >= s.0.len() {
        s
    } else {
        let t = trash_scene(s, pid, cs.drop_last());
        let c = cs.last();
        match trash_effect(c) {
            Some(e) => (t.0, push_mark(board::push_on(t.1, pid as int, trash_prompt(c, e)), pid as int)),
            None => t,
        }
    }
}

/// Offers to trash each valid card that gives something when trashed.
pub fn resolve_trash_giveable(player_id: usize, board: &mut BoardStruct, wait_for_input: &mut Vec<WaitForInputType>, cardmeta: &Vec<ListCard>, valid_card: &Vec<Option<usize>>)
    requires
        cards::is_card_table(cardmeta@),
        player_id < old(wait_for_input)@.len(),
        forall|j: int| 0 <= j < valid_card@.len() ==> (#[trigger] valid_card@[j] matches Some(c) ==> c < NUM_CARDS),
    ensures
        final(board).offer_row@ == old(board).offer_row@,
        codec::players_view(final(board).players) == codec::players_view(old(board).players),
        final(wait_for_input)@.len() == old(wait_for_input)@.len(),
        board::scene_of(final(board).players, *final(wait_for_input))
            == trash_scene(board::scene_of(old(board).players, *old(wait_for_input)), player_id, somes(valid_card@)),
{
    let ghost s0 = board::scene_of(board.players, *wait_for_input);
    if player_id < board.players.len() {
        let mut i: usize = 0;
        while i < valid_card.len()
            invariant
                cards::is_card_table(cardmeta@),
                player_id < board.players@.len(),
                player_id < wait_for_input@.len(),
                wait_for_input@.len() == old(wait_for_input)@.len(),
                forall|j: int| 0 <= j < valid_card@.len() ==> (#[trigger] valid_card@[j] matches Some(c) ==> c < NUM_CARDS),
                i <= valid_card@.len(),
                board.offer_row@ == old(board).offer_row@,
                codec::players_view(board.players) == s0.0,
                board::scene_of(board.players, *wait_for_input) == trash_scene(s0, player_id, somes(valid_card@.subrange(0, i as int))),
            decreases valid_card@.len() - i,
        {
            assert(valid_card@.subrange(0, i + 1).drop_last() =~= valid_card@.subrange(0, i as int));
            if let Some(c) = valid_card[i] {
                let info = cardmeta[c];
                assert(info == cards::card_spec(c));
                let effect = match info.trash {
                    GIVEABLE::VP(x) => Some(ReplyEffect::TrashForVp(c, x)),
                    GIVEABLE::COIN(x) => Some(ReplyEffect::TrashForCoin(c, x)),
                    _ => None,
                };
                let ghost cs = somes(valid_card@.subrange(0, i as int));
                assert(somes(valid_card@.subrange(0, i + 1)) == cs.push(c));
                assert(cs.push(c).drop_last() =~= cs);
                if let Some(e) = effect {
                    offer_trash(wait_for_input, player_id, c, e);
                }
            }
            i = i + 1;
        }
        assert(valid_card@.subrange(0, valid_card@.len() as int) =~= valid_card@);
    } else {
        assert(trash_scene(s0, player_id, somes(valid_card@)) == s0) by {
            lemma_trash_absent(s0, player_id, somes(valid_card@));
        }
    }
}

/// Pushes the request to trash a card, then a mark, on the player's queue.
fn offer_trash(wait_for_input: &mut Vec<WaitForInputType>, player_id: usize, c: usize, e: ReplyEffect)
    requires
        player_id < old(wait_for_input)@.len(),
    ensures
        final(wait_for_input)@.len() == old(wait_for_input)@.len(),
        codec::queues_view(*final(wait_for_input))
            == push_mark(board::push_on(codec::queues_view(*old(wait_for_input)), player_id as int, trash_prompt(c, e)), player_id as int),
{
    let w = WaitForSingleInput {
        card_index: c,
        wait_state: GameState::PreWaitForReply,
        header: codec::owned("Do you want to trash this card for the benefit?"),
        options: vec![
            codec::reply_option(GameState::Buy, "Yes", e),
            codec::reply_option(GameState::Buy, "No", ReplyEffect::Nothing),
        ],
    };
    assert(w@ == trash_prompt(c, e)) by {
        assert(w@.3 =~= trash_prompt(c, e).3);
    }
    let ghost before = codec::queues_view(*wait_for_input);
    wait_for_input[player_id].push(Some(w));
    wait_for_input[player_id].push(None);
    proof {
        let after = board::push_on(before, player_id as int, trash_prompt(c, e));
        assert(codec::queue_view(wait_for_input@[player_id as int]) =~= after[player_id as int].push(None));
        assert(codec::queues_view(*wait_for_input) =~= push_mark(after, player_id as int));
    }
}

proof fn lemma_trash_absent(s: Scene, pid: usize, cs: Seq<usize>)
    requires
        pid >= s.0.len(),
    ensures
        trash_scene(s, pid, cs) == s,
{
}

/// The budget of resolution steps a whole resolution may take.
pub const RESOLVE_STEPS: usize = 10 * MAX_LAYOUT;

/// For each entry, the card, unless it is played as a wild card or is among
/// the cards `skip` resolved already.
pub open spec fn fresh_cards(vs: Seq<Option<usize>>, skip: Seq<usize>) -> Seq<Option<usize>> {
    vs.map_values(|v: Option<usize>| match v {
        Some(c) => if skip.contains(c) { None } else { Some(c) },
        None => None,
    })
}

/// The cards of the player that are played for their benefits: the laid-out
/// cards that are not wild and not resolved already, in order; none when
/// there is no such player.
pub open spec fn played_cards(s: Scene, pid: usize) -> Seq<usize> {
    if pid < s.0.len() { somes(fresh_cards(board::valid_cards(s.0[pid as int].arranged), s.0[pid as int].skip_cards)) } else { Seq::empty() }
}

/// The cards of the player that count toward the genres: the laid-out cards
/// that are not wild, in order, resolved already or not.
pub open spec fn counted_cards(s: Scene, pid: usize) -> Seq<usize> {
    if pid < s.0.len() { somes(board::valid_cards(s.0[pid as int].arranged)) } else { Seq::empty() }
}

/// The genre lists of the played cards: adventure, horror, mystery, romance.
pub open spec fn genre_lists(cs: Seq<usize>) -> Seq<Seq<usize>> {
    seq![genre_cards(cs, Genre::ADVENTURE), genre_cards(cs, Genre::HORROR), genre_cards(cs, Genre::MYSTERY), genre_cards(cs, Genre::ROMANCE)]
}

/// The cards `cs` recorded as resolved by the player `pid`, if there is one.
pub open spec fn skip_added(s: Scene, pid: usize, cs: Seq<usize>) -> Scene {
    if pid < s.0.len() {
        let p = s.0[pid as int];
        (s.0.update(pid as int, PlayerView { skip_cards: p.skip_cards + cs, ..p }), s.1)
    } else {
        s
    }
}

/// A whole resolution of the player's layout: a mark on the queue; the cards
/// not resolved already played one by one; the genre benefits and genre
/// abilities of those cards, for each genre of two laid-out cards or more;
/// the offers to trash them; and the cards played recorded as resolved.
pub open spec fn resolve_cards_scene(s: Scene, pid: usize) -> Scene {
    let s1 = (s.0, push_mark(s.1, pid as int));
    let cs = played_cards(s, pid);
    let s2 = play_cards_scene(s1, pid, cs);
    let s3 = genre_benefits_scene(s2, pid, genre_lists(counted_cards(s, pid)), skip_of(s2, pid));
    let s4 = trash_scene(s3, pid, cs);
    skip_added(s4, pid, cs)
}

proof fn lemma_somes_len(vs: Seq<Option<usize>>)
    ensures
        somes(vs).len() <= vs.len(),
    decreases vs.len(),
{
    if vs.len() > 0 {
        lemma_somes_len(vs.drop_last());
    }
}

proof fn lemma_genre_cards(cs: Seq<usize>, g: Genre)
    ensures
        genre_cards(cs, g).len() <= cs.len(),
        forall|j: int| 0 <= j < genre_cards(cs, g).len() ==> cs.contains(#[trigger] genre_cards(cs, g)[j]),
    decreases cs.len(),
{
    if cs.len() > 0 {
        lemma_genre_cards(cs.drop_last(), g);
        let prev = genre_cards(cs.drop_last(), g);
        assert forall|j: int| 0 <= j < genre_cards(cs, g).len() implies cs.contains(#[trigger] genre_cards(cs, g)[j]) by {
            if j < prev.len() {
                assert(cs.drop_last().contains(prev[j]));
                let k = choose|k: int| 0 <= k < cs.drop_last().len() && cs.drop_last()[k] == prev[j];
                assert(cs[k] == prev[j]);
            } else {
                assert(cs[cs.len() - 1] == cs.last());
            }
        }
    }
}

proof fn lemma_lists_in_table(cs: Seq<usize>)
    requires
        forall|j: int| 0 <= j < cs.len() ==> #[trigger] cs[j] < NUM_CARDS,
    ensures
        lists_in_table(genre_lists(cs)),
        total_len(genre_lists(cs)) <= 4 * cs.len(),
{
    lemma_genre_cards(cs, Genre::ADVENTURE);
    lemma_genre_cards(cs, Genre::HORROR);
    lemma_genre_cards(cs, Genre::MYSTERY);
    lemma_genre_cards(cs, Genre::ROMANCE);
    let ls = genre_lists(cs);
    assert forall|i: int, j: int| 0 <= i < ls.len() && 0 <= j < ls[i].len() implies #[trigger] ls[i][j] < NUM_CARDS by {
        assert(cs.contains(ls[i][j]));
    }
    let l3 = ls.drop_last();
    let l2 = l3.drop_last();
    let l1 = l2.drop_last();
    let l0 = l1.drop_last();
    assert(l0 =~= Seq::<Seq<usize>>::empty());
    assert(total_len(l0) == 0);
    assert(total_len(l1) == l1.last().len());
    assert(total_len(l2) == total_len(l1) + l2.last().len());
    assert(total_len(l3) == total_len(l2) + l3.last().len());
    assert(total_len(ls) == total_len(l3) + ls.last().len());
}

proof fn lemma_budget_monotone(s: Scene, pid: usize, k: int, k2: int)
    requires
        budget_ok(s, pid, k),
        k2 <= k,
    ensures
        budget_ok(s, pid, k2),
{
}

/// Resolves the player's layout: every card that is not wild and not resolved
/// already gives its benefit and uses its ability; in each genre with two
/// laid-out cards or more those cards give their genre benefits and use their
/// genre abilities; each of them that gives something when trashed is offered
/// to be trashed; and they are recorded as resolved. A mark on the queue
/// comes first.
pub fn resolve_cards(board: &mut BoardStruct, player_id: usize, cardmeta: &Vec<ListCard>, wait_for_input: &mut Vec<WaitForInputType>)
    requires
        cards::is_card_table(cardmeta@),
        player_id < old(wait_for_input)@.len(),
        budget_ok(board::scene_of(old(board).players, *old(wait_for_input)), player_id, RESOLVE_STEPS as int),
    ensures
        final(board).offer_row@ == old(board).offer_row@,
        board::scene_of(final(board).players, *final(wait_for_input))
            == resolve_cards_scene(board::scene_of(old(board).players, *old(wait_for_input)), player_id),
        frame(board::scene_of(old(board).players, *old(wait_for_input)), board::scene_of(final(board).players, *final(wait_for_input)), player_id),
{
    let ghost s0 = board::scene_of(board.players, *wait_for_input);
    let ghost before = codec::queues_view(*wait_for_input);
    wait_for_input[player_id].push(None);
    proof {
        assert(codec::queue_view(wait_for_input@[player_id as int]) =~= before[player_id as int].push(None));
        assert(codec::queues_view(*wait_for_input) =~= push_mark(before, player_id as int));
    }
    let ghost s1 = board::scene_of(board.players, *wait_for_input);
    assert(s1 == (s0.0, push_mark(s0.1, player_id as int)));
    let mut valid_card: Vec<Option<usize>> = Vec::new();
    let mut skip: Vec<usize> = Vec::new();
    if player_id < board.players.len() {
        let ghost ps = codec::players_view(board.players);
        valid_card = board::get_valid_cards(&mut board.players[player_id]);
        skip = codec::copy_ids(&board.players[player_id].skip_cards);
        assert(codec::players_view(board.players) =~= ps);
    }
    assert(skip@ == skip_of(s0, player_id));
    assert(valid_card@ =~= if player_id < s0.0.len() { board::valid_cards(s0.0[player_id as int].arranged) } else { Seq::empty() });
    assert(valid_card@.len() <= MAX_LAYOUT);
    assert forall|j: int| 0 <= j < valid_card@.len() implies (#[trigger] valid_card@[j] matches Some(c) ==> c < NUM_CARDS) by {
        let arr = s0.0[player_id as int].arranged;
        assert(arr[j].0 < NUM_CARDS);
    }
    let mut fresh: Vec<Option<usize>> = Vec::new();
    let mut played: Vec<usize> = Vec::new();
    let mut adv: Vec<usize> = Vec::new();
    let mut hor: Vec<usize> = Vec::new();
    let mut mys: Vec<usize> = Vec::new();
    let mut rom: Vec<usize> = Vec::new();
    let mut i: usize = 0;
    while i < valid_card.len()
        invariant
            cards::is_card_table(cardmeta@),
            i <= valid_card@.len(),
            valid_card@.len() <= MAX_LAYOUT,
            forall|j: int| 0 <= j < valid_card@.len() ==> (#[trigger] valid_card@[j] matches Some(c) ==> c < NUM_CARDS),
            board.offer_row@ == old(board).offer_row@,
            player_id < s1.1.len(),
            fresh@ == fresh_cards(valid_card@.subrange(0, i as int), skip@),
            played@ == somes(fresh@),
            board::scene_of(board.players, *wait_for_input) == play_cards_scene(s1, player_id, played@),
            budget_ok(board::scene_of(board.players, *wait_for_input), player_id, RESOLVE_STEPS - 2 * i),
            frame(s1, board::scene_of(board.players, *wait_for_input), player_id),
            adv@ == genre_cards(somes(valid_card@.subrange(0, i as int)), Genre::ADVENTURE),
            hor@ == genre_cards(somes(valid_card@.subrange(0, i as int)), Genre::HORROR),
            mys@ == genre_cards(somes(valid_card@.subrange(0, i as int)), Genre::MYSTERY),
            rom@ == genre_cards(somes(valid_card@.subrange(0, i as int)), Genre::ROMANCE),
        decreases valid_card@.len() - i,
    {
        let ghost cs = somes(valid_card@.subrange(0, i as int));
        let ghost f0 = fresh@;
        let ghost pl0 = played@;
        assert(valid_card@.subrange(0, i + 1).drop_last() =~= valid_card@.subrange(0, i as int));
        let ghost cur = board::scene_of(board.players, *wait_for_input);
        if let Some(c) = valid_card[i] {
            assert(somes(valid_card@.subrange(0, i + 1)) == cs.push(c));
            assert(cs.push(c).drop_last() =~= cs);
            track_genre(c, cardmeta, &mut adv, &mut hor, &mut mys, &mut rom);
            if !codec::contains_id(&skip, c) {
                proof { lemma_play_step(cur, player_id, c, RESOLVE_STEPS - 2 * i); }
                resolve_giveable(c, cardmeta, player_id, board, wait_for_input);
                fresh.push(Some(c));
                played.push(c);
                assert(fresh@.drop_last() =~= f0);
                assert(played@.drop_last() =~= pl0);
            } else {
                proof { lemma_budget_monotone(cur, player_id, RESOLVE_STEPS - 2 * i, RESOLVE_STEPS - 2 * (i + 1)); }
                fresh.push(None);
                assert(fresh@.drop_last() =~= f0);
            }
        } else {
            proof { lemma_budget_monotone(cur, player_id, RESOLVE_STEPS - 2 * i, RESOLVE_STEPS - 2 * (i + 1)); }
            fresh.push(None);
            assert(fresh@.drop_last() =~= f0);
        }
        assert(fresh@ =~= fresh_cards(valid_card@.subrange(0, i + 1), skip@));
        i = i + 1;
    }
    assert(valid_card@.subrange(0, valid_card@.len() as int) =~= valid_card@);
    let ghost cs = somes(valid_card@);
    assert(cs == counted_cards(s0, player_id));
    assert(played@ == played_cards(s0, player_id));
    proof {
        lemma_somes_len(valid_card@);
        assert forall|j: int| 0 <= j < cs.len() implies #[trigger] cs[j] < NUM_CARDS by {
            lemma_somes_in_table(valid_card@, j);
        }
        lemma_lists_in_table(cs);
        assert forall|j: int| 0 <= j < fresh@.len() implies (#[trigger] fresh@[j] matches Some(c) ==> c < NUM_CARDS) by {
            assert(valid_card@[j] matches Some(c) ==> c < NUM_CARDS);
        }
    }
    let genre_vec = vec![adv, hor, mys, rom];
    assert(genre_vec@.map_values(|l: Vec<usize>| l@) =~= genre_lists(cs));
    let ghost s2 = board::scene_of(board.players, *wait_for_input);
    resolve_genre_giveable(player_id, board, wait_for_input, cardmeta, &genre_vec);
    let ghost s3 = board::scene_of(board.players, *wait_for_input);
    resolve_trash_giveable(player_id, board, wait_for_input, cardmeta, &fresh);
    let ghost s4 = board::scene_of(board.players, *wait_for_input);
    if player_id < board.players.len() {
        let ghost sk0 = board.players@[player_id as int].skip_cards@;
        let mut j: usize = 0;
        while j < played.len()
            invariant
                j <= played@.len(),
                player_id < board.players@.len(),
                board.offer_row@ == old(board).offer_row@,
                codec::queues_view(*wait_for_input) == s4.1,
                board.players@.len() == s4.0.len(),
                forall|k: int| 0 <= k < s4.0.len() && k != player_id ==> #[trigger] board.players@[k]@ == s4.0[k],
                board.players@[player_id as int]@ == (PlayerView { skip_cards: sk0 + played@.subrange(0, j as int), ..s4.0[player_id as int] }),
            decreases played@.len() - j,
        {
            let c = played[j];
            board.players[player_id].skip_cards.push(c);
            assert(played@.subrange(0, j + 1) =~= played@.subrange(0, j as int).push(c));
            assert(board.players@[player_id as int]@.skip_cards =~= sk0 + played@.subrange(0, j + 1));
            j = j + 1;
        }
        assert(played@.subrange(0, played@.len() as int) =~= played@);
        assert(codec::players_view(board.players) =~= skip_added(s4, player_id, played@).0);
    }
    proof {
        let s5 = board::scene_of(board.players, *wait_for_input);
        assert(s5 == skip_added(s4, player_id, played@));
        lemma_frame_trans(s1, s2, s3, player_id);
        assert(frame(s0, s1, player_id));
        lemma_frame_trans(s0, s1, s3, player_id);
        lemma_frame_trans(s0, s3, s4, player_id);
        lemma_frame_trans(s0, s4, s5, player_id);
    }
}

proof fn lemma_frame_trans(a: Scene, b: Scene, c: Scene, pid: usize)
    requires
        frame(a, b, pid),
        frame(b, c, pid),
    ensures
        frame(a, c, pid),
{
}

proof fn lemma_somes_in_table(vs: Seq<Option<usize>>, j: int)
    requires
        forall|k: int| 0 <= k < vs.len() ==> (#[trigger] vs[k] matches Some(c) ==> c < NUM_CARDS),
        0 <= j < somes(vs).len(),
    ensures
        somes(vs)[j] < NUM_CARDS,
    decreases vs.len(),
{
    lemma_somes_len(vs.drop_last());
    let prev = somes(vs.drop_last());
    if j < prev.len() {
        assert forall|k: int| 0 <= k < vs.drop_last().len() implies (#[trigger] vs.drop_last()[k] matches Some(c) ==> c < NUM_CARDS) by {
            assert(vs.drop_last()[k] == vs[k]);
        }
        lemma_somes_in_table(vs.drop_last(), j);
        match vs.last() {
            Some(c) => assert(somes(vs)[j] == prev[j]),
            None => {},
        }
    } else {
        assert(vs[vs.len() - 1] == vs.last());
    }
}

/// The coins a card gives when it is bought.
pub open spec fn purchase_coin(c: usize) -> nat {
    match cards::card_spec(c).purchase_giveables {
        GIVEABLE::COIN(x) => x as nat,
        _ => 0,
    }
}

/// The victory points a card gives when it is bought.
pub open spec fn purchase_vp(c: usize) -> nat {
    match cards::card_spec(c).purchase_giveables {
        GIVEABLE::VP(x) => x as nat,
        _ => 0,
    }
}

/// Grants the coins that a bought card gives.
pub fn resolve_purchase(card_index: usize, _p: &mut Player, cardmeta: &Vec<ListCard>)
    requires
        cards::is_card_table(cardmeta@),
        card_index < NUM_CARDS,
        old(_p).coin + 5 <= usize::MAX,
    ensures
        final(_p)@ == (PlayerView { coin: (old(_p)@.coin + purchase_coin(card_index)) as usize, ..old(_p)@ }),
{
    proof { cards::lemma_table_amounts(card_index); }
    match cardmeta[card_index].purchase_giveables {
        GIVEABLE::COIN(x) => {
            _p.coin += x;
        },
        _ => {},
    }
}

/// Grants the victory points that a bought card gives.
pub fn resolve_purchase_giveables(card_index: usize, cardmeta: &Vec<ListCard>, _p: &mut Player)
    requires
        cards::is_card_table(cardmeta@),
        card_index < NUM_CARDS,
        old(_p).vp + 5 <= usize::MAX,
    ensures
        final(_p)@ == (PlayerView { vp: (old(_p)@.vp + purchase_vp(card_index)) as usize, ..old(_p)@ }),
{
    proof { cards::lemma_table_amounts(card_index); }
    if let GIVEABLE::VP(_vp) = cardmeta[card_index].purchase_giveables {
        _p.vp += _vp;
    }
}

/// A benefit granted to a player: the victory points and coins rise by the
/// amounts it grants outright, and nothing else of any player changes; coins
/// with ink come with a request to choose an ink or an ink remover, and a
/// choice of points or coins with a request to choose `x` points or `x`
/// coins; no other benefit puts anything on a queue.
pub proof fn lemma_benefit_grants_its_amounts(s: Scene, pid: usize, card: usize, g: GIVEABLE)
    requires
        pid < s.0.len(),
        pid < s.1.len(),
        s.0[pid as int].vp + cards::vp_amount(g) <= usize::MAX,
        s.0[pid as int].coin + cards::coin_amount(g) <= usize::MAX,
    ensures
        ({
            let t = giveable_scene(s, pid, card, g);
            let p = s.0[pid as int];
            let q = t.0[pid as int];
            &&& q.vp == p.vp + cards::vp_amount(g)
            &&& q.coin == p.coin + cards::coin_amount(g)
            &&& q == (PlayerView { vp: q.vp, coin: q.coin, ..p })
            &&& t.0.len() == s.0.len()
            &&& forall|i: int| 0 <= i < s.0.len() && i != pid ==> t.0[i] == s.0[i]
            &&& t.1.len() == s.1.len()
            &&& forall|i: int| 0 <= i < s.1.len() && i != pid ==> t.1[i] == s.1[i]
            &&& match g {
                GIVEABLE::COININK(_) => t.1[pid as int].drop_last() == s.1[pid as int]
                    && (t.1[pid as int].last() matches Some(w) && w.3.len() == 2
                    && w.3[0].2 == ReplyEffect::GainInk && w.3[1].2 == ReplyEffect::GainRemover),
                GIVEABLE::VPORCOIN(x) => t.1[pid as int].drop_last() == s.1[pid as int]
                    && (t.1[pid as int].last() matches Some(w) && w.3.len() == 2
                    && w.3[0].2 == ReplyEffect::GainVp(x) && w.3[1].2 == ReplyEffect::GainCoin(x)),
                _ => t.1 == s.1,
            }
        }),
{
    let t = giveable_scene(s, pid, card, g);
    assert(t.1[pid as int].drop_last() =~= s.1[pid as int] || t.1 == s.1);
}

/// The cards played for their benefits are laid-out cards not played as wild
/// cards and not resolved already.
pub proof fn lemma_resolved_cards_are_not_played_again(s: Scene, pid: usize)
    requires
        pid < s.0.len(),
    ensures
        forall|j: int| 0 <= j < played_cards(s, pid).len() ==> !s.0[pid as int].skip_cards.contains(#[trigger] played_cards(s, pid)[j]),
{
    let p = s.0[pid as int];
    let vs = fresh_cards(board::valid_cards(p.arranged), p.skip_cards);
    assert forall|j: int| 0 <= j < somes(vs).len() implies !p.skip_cards.contains(#[trigger] somes(vs)[j]) by {
        lemma_somes_fresh(vs, p.skip_cards, j);
    }
}

proof fn lemma_somes_fresh(vs: Seq<Option<usize>>, skip: Seq<usize>, j: int)
    requires
        forall|k: int| 0 <= k < vs.len() ==> (#[trigger] vs[k] matches Some(c) ==> !skip.contains(c)),
        0 <= j < somes(vs).len(),
    ensures
        !skip.contains(somes(vs)[j]),
    decreases vs.len(),
{
    lemma_somes_len(vs.drop_last());
    let prev = somes(vs.drop_last());
    if j < prev.len() {
        assert forall|k: int| 0 <= k < vs.drop_last().len() implies (#[trigger] vs.drop_last()[k] matches Some(c) ==> !skip.contains(c)) by {
            assert(vs.drop_last()[k] == vs[k]);
        }
        lemma_somes_fresh(vs.drop_last(), skip, j);
        match vs.last() {
            Some(c) => assert(somes(vs)[j] == prev[j]),
            None => {},
        }
    } else {
        assert(vs[vs.len() - 1] == vs.last());
    }
}

/// The cards of `cs` whose genre is `g`, in order.
pub open spec fn of_genre(cs: Seq<usize>, g: Genre) -> Seq<usize> {
    cs.filter(|c: usize| cards::card_spec(c).genre == g)
}

/// A genre list holds exactly the played cards of that genre, in the order
/// they were laid out.
pub proof fn lemma_genre_list_is_the_cards_of_that_genre(cs: Seq<usize>, g: Genre)
    ensures
        genre_cards(cs, g) == of_genre(cs, g),
    decreases cs.len(),
{
    reveal(Seq::filter);
    if cs.len() > 0 {
        lemma_genre_list_is_the_cards_of_that_genre(cs.drop_last(), g);
    }
}

} // verus!
