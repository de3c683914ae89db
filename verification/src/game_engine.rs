use vstd::prelude::*;
use crate::board::{self, BoardStruct};
use crate::cards::{self, ListCard, NUM_CARDS};
use crate::codec::{self, Arranged, ArrangedView, GameState, Outgoing, Player, PlayerView, ReplyEffect, WaitForInputType, WaitView};
use crate::outbox;
use crate::resolve_cards;
use crate::codec::GameCommand;
use crate::command;
use crate::draft::TheDraft;
use crate::draw_card;
use crate::end_game;
use crate::purchase;
use crate::show_draft;
use crate::spell;

verus! {

/// What sending the first request of the queue `q` does to the player's
/// phase and the messages: when the queue starts with a request, it is sent
/// and the player is put in the phase it asks for; otherwise nothing changes.
pub open spec fn prob_sent(pid: usize, q: Seq<Option<WaitView>>, ticks: Option<u16>,
    g0: GameState, o0: Seq<Outgoing>, g1: GameState, o1: Seq<Outgoing>) -> bool
{
    if q.len() > 0 && q[0] is Some {
        let w = q[0]->Some_0;
        &&& g1 == w.1
        &&& o1.len() == o0.len() + 1
        &&& o1.drop_last() == o0
        &&& outbox::is_request_msg(o1.last(), pid, pid, w, ticks)
    } else {
        &&& g1 == g0
        &&& o1 == o0
    }
}

/// Sends the first request of the player's queue, if there is one, and puts
/// the player in the phase it asks for. Says whether a request was sent.
pub fn continue_to_prob(player_num: usize, wait_for_input_p: &WaitForInputType, _g: &mut GameState, outbox: &mut Vec<Outgoing>, ticks: Option<u16>) -> (sent: bool)
    ensures
        sent == (wait_for_input_p@.len() > 0 && wait_for_input_p@[0] is Some),
        prob_sent(player_num, codec::queue_view(*wait_for_input_p), ticks, *old(_g), old(outbox)@, *final(_g), final(outbox)@),
{
    if wait_for_input_p.len() > 0 {
        if let Some(w) = &wait_for_input_p[0] {
            *_g = w.wait_state;
            outbox.push(outbox::request_msg(player_num, player_num, w, ticks));
            assert(outbox@.drop_last() =~= old(outbox)@);
            return true;
        }
    }
    false
}

/// What a mark at the head of the queue `q0` does: it is taken off and the
/// board is sent to each of the first `nc` connections; without one nothing
/// changes.
pub open spec fn board_sent(q0: Seq<Option<WaitView>>, nc: usize, rm: Seq<usize>, ps: Seq<PlayerView>, gs: Seq<GameState>, ti: usize, ticks: Option<u16>,
    o0: Seq<Outgoing>, q1: Seq<Option<WaitView>>, o1: Seq<Outgoing>) -> bool
{
    if q0.len() > 0 && q0[0] is None {
        &&& q1 == q0.drop_first()
        &&& o1.len() == o0.len() + nc
        &&& o1.subrange(0, o0.len() as int) == o0
        &&& outbox::is_board_broadcast(o1.subrange(o0.len() as int, o1.len() as int), nc, ps, gs, board::offer_row_of(rm), ti, ticks)
    } else {
        &&& q1 == q0
        &&& o1 == o0
    }
}

/// When the player's queue starts with a mark, the mark is taken off and the
/// board is sent to every connection; otherwise nothing happens.
pub fn continue_to_broadcast(wait_for_input_p: &mut WaitForInputType, num_connections: usize, remaining_cards: &Vec<usize>, players: &Vec<Player>, gamestates: &Vec<GameState>, turn_index: usize, ticks: Option<u16>, outbox: &mut Vec<Outgoing>)
    ensures
        board_sent(codec::queue_view(*old(wait_for_input_p)), num_connections, remaining_cards@, codec::players_view(*players), gamestates@, turn_index, ticks,
            old(outbox)@, codec::queue_view(*final(wait_for_input_p)), final(outbox)@),
{
    let mut remove_first = false;
    if wait_for_input_p.len() > 0 {
        if wait_for_input_p[0].is_none() {
            remove_first = true;
            let offer = board::offer_row(remaining_cards);
            outbox::broadcast_board(outbox, num_connections, players, gamestates, &offer, turn_index, ticks);
        }
    }
    if remove_first {
        let ghost q = codec::queue_view(*wait_for_input_p);
        wait_for_input_p.remove(0);
        assert(codec::queue_view(*wait_for_input_p) =~= q.drop_first());
    }
}

/// The four empty queues of a fresh board.
pub open spec fn empty_queues() -> Seq<Seq<Option<WaitView>>> {
    seq![Seq::empty(), Seq::empty(), Seq::empty(), Seq::empty()]
}

/// The player with the skip cards of a doubling reply taken off.
pub open spec fn unskip(p: PlayerView, c1: usize, c2: Option<usize>) -> PlayerView {
    let s1 = board::remove_first(p.skip_cards, c1);
    let s2 = match c2 { Some(c) => board::remove_first(s1, c), None => s1 };
    PlayerView { skip_cards: s2, ..p }
}

/// Whether a reply with the given effect can be carried out without running
/// out of ink, removers, cards or room in the tallies.
pub open spec fn reply_allowed(p: PlayerView, rm: Seq<usize>, unknown: Seq<usize>, e: ReplyEffect) -> bool {
    match e {
        ReplyEffect::Nothing => true,
        ReplyEffect::LoseInk => p.ink >= 1,
        ReplyEffect::LoseRemover => p.remover >= 1,
        ReplyEffect::GainInk => p.ink < usize::MAX,
        ReplyEffect::GainRemover => p.remover < usize::MAX,
        ReplyEffect::GainVp(n) => p.vp + n <= usize::MAX,
        ReplyEffect::GainCoin(n) => p.coin + n <= usize::MAX,
        ReplyEffect::TrashForVp(c, x) => p.vp + x <= usize::MAX && p.hand.contains(c),
        ReplyEffect::TrashForCoin(c, x) => p.coin + x <= usize::MAX && p.hand.contains(c),
        ReplyEffect::TakeRemaining(c) => c < rm.len(),
        ReplyEffect::BuyLockupWithInk(cost, _card, position) =>
            p.coin <= cost && (cost - p.coin) * 3 <= p.ink && position < p.lockup.len(),
        ReplyEffect::RemoveInk(_r) => p.remover >= 1,
        ReplyEffect::TakeUnknownCard => unknown.len() > 0 && p.ink >= 1,
        ReplyEffect::DoubleAdjacent(pid, c1, c2) => pid < 4 && (pid == 0 ==>
            resolve_cards::budget_ok((seq![unskip(p, c1, c2)], empty_queues()), 0, resolve_cards::RESOLVE_STEPS as int)),
    }
}

/// The arranged cards with the ink taken off every entry of card `r`.
pub open spec fn clear_ink(arr: Seq<ArrangedView>, r: usize) -> Seq<ArrangedView> {
    arr.map_values(|a: ArrangedView| if a.0 == r { (a.0, false, a.2, a.3) } else { a })
}

/// What a reply does to the player, the remaining cards and the player's unknown cards.
pub open spec fn reply_result(p: PlayerView, rm: Seq<usize>, unknown: Seq<usize>, e: ReplyEffect) -> (PlayerView, Seq<usize>, Seq<usize>) {
    match e {
        ReplyEffect::Nothing => (p, rm, unknown),
        ReplyEffect::LoseInk => (PlayerView { ink: (p.ink - 1) as usize, ..p }, rm, unknown),
        ReplyEffect::LoseRemover => (PlayerView { remover: (p.remover - 1) as usize, ..p }, rm, unknown),
        ReplyEffect::GainInk => (PlayerView { ink: (p.ink + 1) as usize, ..p }, rm, unknown),
        ReplyEffect::GainRemover => (PlayerView { remover: (p.remover + 1) as usize, ..p }, rm, unknown),
        ReplyEffect::GainVp(n) => (PlayerView { vp: (p.vp + n) as usize, ..p }, rm, unknown),
        ReplyEffect::GainCoin(n) => (PlayerView { coin: (p.coin + n) as usize, ..p }, rm, unknown),
        ReplyEffect::TrashForVp(c, x) => (PlayerView { vp: (p.vp + x) as usize, hand: board::remove_first(p.hand, c), ..p }, rm, unknown),
        ReplyEffect::TrashForCoin(c, x) => (PlayerView { coin: (p.coin + x) as usize, hand: board::remove_first(p.hand, c), ..p }, rm, unknown),
        ReplyEffect::TakeRemaining(c) => (PlayerView { discard: p.discard.push(rm[c as int]), ..p }, rm.remove(c as int), unknown),
        ReplyEffect::BuyLockupWithInk(cost, card, position) => (PlayerView {
            coin: 0,
            ink: (p.ink - (cost - p.coin) * 3) as usize,
            discard: p.discard.push(card),
            lockup: p.lockup.remove(position as int),
            ..p
        }, rm, unknown),
        ReplyEffect::RemoveInk(r) => (PlayerView { remover: (p.remover - 1) as usize, arranged: clear_ink(p.arranged, r), ..p }, rm, unknown),
        ReplyEffect::TakeUnknownCard => (PlayerView {
            ink: (p.ink - 1) as usize,
            draftlen: (unknown.len() - 1) as usize,
            arranged: p.arranged.push((unknown[0], true, None, false)),
            ..p
        }, rm, unknown.remove(0)),
        ReplyEffect::DoubleAdjacent(pid, c1, c2) => {
            let p1 = unskip(p, c1, c2);
            if pid == 0 {
                (resolve_cards::resolve_cards_scene((seq![p1], empty_queues()), 0).0[0], rm, unknown)
            } else {
                (p1, rm, unknown)
            }
        },
    }
}

/// Removes the first occurrence of `x`, which is there.
fn remove_first_id(v: &mut Vec<usize>, x: usize)
    requires
        old(v)@.contains(x),
    ensures
        final(v)@ == board::remove_first(old(v)@, x),
{
    let ghost s = v@;
    let i = codec::position_of(v, x).unwrap();
    proof {
        let k = choose|k: int| 0 <= k < s.len() && s[k] == x && forall|j: int| 0 <= j < k ==> s[j] != x;
        assert(k == i) by {
            if k < i { } else if k > i { assert(s[i as int] == x); }
        }
    }
    v.remove(i);
}

/// Carries out the effect of the option a player chose.
pub fn apply_reply(p: &mut Player, rmcards: &mut Vec<usize>, unknown: &mut Vec<usize>, effect: ReplyEffect, cardmeta: &Vec<ListCard>)
    requires
        cards::is_card_table(cardmeta@),
        reply_allowed(old(p)@, old(rmcards)@, old(unknown)@, effect),
    ensures
        (final(p)@, final(rmcards)@, final(unknown)@) == reply_result(old(p)@, old(rmcards)@, old(unknown)@, effect),
{
    let ghost p0 = p@;
    match effect {
        ReplyEffect::Nothing => {},
        ReplyEffect::LoseInk => { p.ink -= 1; },
        ReplyEffect::LoseRemover => { p.remover -= 1; },
        ReplyEffect::GainInk => { p.ink += 1; },
        ReplyEffect::GainRemover => { p.remover += 1; },
        ReplyEffect::GainVp(n) => { p.vp += n; },
        ReplyEffect::GainCoin(n) => { p.coin += n; },
        ReplyEffect::TrashForVp(c, x) => {
            p.vp += x;
            remove_first_id(&mut p.hand, c);
        },
        ReplyEffect::TrashForCoin(c, x) => {
            p.coin += x;
            remove_first_id(&mut p.hand, c);
        },
        ReplyEffect::TakeRemaining(c) => {
            let card = rmcards.remove(c);
            p.discard.push(card);
        },
        ReplyEffect::BuyLockupWithInk(cost, card, position) => {
            let coin_left = p.coin;
            let remainder = cost - coin_left;
            p.coin = 0;
            p.ink -= remainder * 3;
            p.discard.push(card);
            p.lockup.remove(position);
        },
        ReplyEffect::RemoveInk(r) => {
            p.remover -= 1;
            let ghost arr0 = p@.arranged;
            let mut i: usize = 0;
            while i < p.arranged.len()
                invariant
                    i <= p.arranged@.len(),
                    p.arranged@.len() == arr0.len(),
                    p@ == (PlayerView { arranged: p@.arranged, ..p@ }),
                    p@.name == p0.name && p@.vp == p0.vp && p@.coin == p0.coin && p@.ink == p0.ink
                        && p@.remover == (p0.remover - 1) as usize && p@.literacy_award == p0.literacy_award
                        && p@.hand == p0.hand && p@.draft == p0.draft && p@.draftlen == p0.draftlen
                        && p@.discard == p0.discard && p@.lockup == p0.lockup && p@.timeless_classic == p0.timeless_classic
                        && p@.skip_cards == p0.skip_cards,
                    arr0 == p0.arranged,
                    forall|j: int| 0 <= j < i ==> #[trigger] codec::arranged_view(p.arranged@[j]) == clear_ink(arr0, r)[j],
                    forall|j: int| i <= j < arr0.len() ==> #[trigger] codec::arranged_view(p.arranged@[j]) == arr0[j],
                decreases p.arranged@.len() - i,
            {
                let ghost a = arr0[i as int];
                assert(clear_ink(arr0, r)[i as int] == (if a.0 == r { (a.0, false, a.2, a.3) } else { a }));
                if p.arranged[i].0 == r {
                    let c = p.arranged[i].0;
                    let timeless = p.arranged[i].3;
                    let wild = codec::copy_opt_string(&p.arranged[i].2);
                    let ghost before = p.arranged@;
                    p.arranged.set(i, (c, false, wild, timeless));
                    assert(forall|j: int| 0 <= j < before.len() && j != i ==> p.arranged@[j] == before[j]);
                    assert(codec::arranged_view(before[i as int]) == a);
                    assert(codec::arranged_view(p.arranged@[i as int]).2 == a.2);
                    assert(codec::arranged_view(p.arranged@[i as int]) == (a.0, false, a.2, a.3));
                }
                assert(codec::arranged_view(p.arranged@[i as int]) == clear_ink(arr0, r)[i as int]);
                i = i + 1;
            }
            assert(p@.arranged =~= clear_ink(arr0, r));
        },
        ReplyEffect::TakeUnknownCard => {
            let r = unknown.remove(0);
            p.ink -= 1;
            p.draftlen = unknown.len();
            p.arranged.push((r, true, None, false));
            assert(p@.arranged =~= p0.arranged.push((r, true, None::<Seq<char>>, false)));
        },
        ReplyEffect::DoubleAdjacent(pid, c1, c2) => {
            board::remove_skip_card(p, c1);
            if let Some(c) = c2 {
                board::remove_skip_card(p, c);
            }
            let ghost p1 = p@;
            assert(p1 == unskip(p0, c1, c2));
            let mut temp_players: Vec<Player> = Vec::new();
            temp_players.push(p.duplicate());
            let mut tempboard = BoardStruct::new(temp_players, rmcards);
            let mut wait_for_input: Vec<WaitForInputType> = vec![Vec::new(), Vec::new(), Vec::new(), Vec::new()];
            assert(codec::players_view(tempboard.players) =~= seq![p1]);
            assert(codec::queues_view(wait_for_input) =~= empty_queues()) by {
                assert(codec::queue_view(wait_for_input@[0]) =~= Seq::<Option<WaitView>>::empty());
                assert(codec::queue_view(wait_for_input@[1]) =~= Seq::<Option<WaitView>>::empty());
                assert(codec::queue_view(wait_for_input@[2]) =~= Seq::<Option<WaitView>>::empty());
                assert(codec::queue_view(wait_for_input@[3]) =~= Seq::<Option<WaitView>>::empty());
            }
            if pid == 0 {
                resolve_cards::resolve_cards(&mut tempboard, pid, cardmeta, &mut wait_for_input);
                assert(tempboard.players@.len() == 1);
                *p = tempboard.players[0].duplicate();
            }
        },
    }
}


/// What must hold of a player before the laid-out cards are resolved: every
/// laid-out card is a card of the table, the layout is not over-long, and the
/// tallies can take every gain of a resolution.
pub open spec fn player_budget(p: PlayerView) -> bool {
    &&& board::arranged_in_table(p.arranged)
    &&& p.arranged.len() <= resolve_cards::MAX_LAYOUT
    &&& p.vp + resolve_cards::RESOLVE_STEPS * resolve_cards::STEP_GAIN <= usize::MAX
    &&& p.coin + resolve_cards::RESOLVE_STEPS * resolve_cards::STEP_GAIN <= usize::MAX
}

/// Tests `player_budget`.
pub fn within_budget(p: &Player) -> (b: bool)
    ensures
        b == player_budget(p@),
{
    let gain: usize = resolve_cards::RESOLVE_STEPS * resolve_cards::STEP_GAIN;
    if p.arranged.len() > resolve_cards::MAX_LAYOUT || p.vp > usize::MAX - gain || p.coin > usize::MAX - gain {
        return false;
    }
    let ghost arr = p@.arranged;
    let mut i: usize = 0;
    while i < p.arranged.len()
        invariant
            i <= p.arranged@.len(),
            arr == p@.arranged,
            forall|j: int| 0 <= j < i ==> (#[trigger] arr[j]).0 < NUM_CARDS,
        decreases p.arranged@.len() - i,
    {
        assert(arr[i as int] == codec::arranged_view(p.arranged@[i as int]));
        if p.arranged[i].0 >= NUM_CARDS {
            return false;
        }
        i = i + 1;
    }
    true
}

/// Tests `reply_allowed`.
pub fn reply_ok(p: &Player, rm: &Vec<usize>, unknown: &Vec<usize>, e: ReplyEffect) -> (b: bool)
    ensures
        b == reply_allowed(p@, rm@, unknown@, e),
{
    match e {
        ReplyEffect::Nothing => true,
        ReplyEffect::LoseInk => p.ink >= 1,
        ReplyEffect::LoseRemover => p.remover >= 1,
        ReplyEffect::GainInk => p.ink < usize::MAX,
        ReplyEffect::GainRemover => p.remover < usize::MAX,
        ReplyEffect::GainVp(n) => p.vp <= usize::MAX - n,
        ReplyEffect::GainCoin(n) => p.coin <= usize::MAX - n,
        ReplyEffect::TrashForVp(c, x) => p.vp <= usize::MAX - x && codec::contains_id(&p.hand, c),
        ReplyEffect::TrashForCoin(c, x) => p.coin <= usize::MAX - x && codec::contains_id(&p.hand, c),
        ReplyEffect::TakeRemaining(c) => c < rm.len(),
        ReplyEffect::BuyLockupWithInk(cost, _card, position) => {
            if p.coin <= cost && position < p.lockup.len() {
                let missing = cost - p.coin;
                let ink = p.ink;
                assert((missing * 3 <= ink) == (missing <= ink / 3)) by (nonlinear_arith);
                missing <= p.ink / 3
            } else {
                false
            }
        },
        ReplyEffect::RemoveInk(_r) => p.remover >= 1,
        ReplyEffect::TakeUnknownCard => unknown.len() > 0 && p.ink >= 1,
        ReplyEffect::DoubleAdjacent(pid, c1, c2) => pid < 4 && (pid != 0 || within_budget(p)),
    }
}

/// Whether every card is a card of the table.
pub fn all_in_table(v: &Vec<usize>) -> (b: bool)
    ensures
        b == forall|j: int| 0 <= j < v@.len() ==> #[trigger] v@[j] < NUM_CARDS,
{
    let mut i: usize = 0;
    while i < v.len()
        invariant
            i <= v@.len(),
            forall|j: int| 0 <= j < i ==> #[trigger] v@[j] < NUM_CARDS,
        decreases v@.len() - i,
    {
        if v[i] >= NUM_CARDS {
            return false;
        }
        i = i + 1;
    }
    true
}

/// The unknown cards of each seat.
pub open spec fn unknown_view(us: Vec<Vec<usize>>) -> Seq<Seq<usize>> {
    us@.map_values(|u: Vec<usize>| u@)
}

/// Seats `0..n` dealt by `d`, from the players `ps0` and unknown cards `us0`
/// to `ps` and `us`: the owned cards grow along `os` from none, and each seat
/// is dealt when `start_ok` holds of the cards owned before it.
pub open spec fn seats_dealt<D: TheDraft>(d: D, ps0: Seq<PlayerView>, us0: Seq<Seq<usize>>, ps: Seq<PlayerView>, us: Seq<Seq<usize>>, os: Seq<Seq<usize>>, n: int) -> bool {
    &&& 0 <= n
    &&& os.len() == n + 1
    &&& os[0] == Seq::<usize>::empty()
    &&& forall|k: int| 0 <= k < n ==> #[trigger] seat_dealt(d, ps0, us0, ps, us, os, k)
}

/// Seat `k` dealt by `d` when the cards `os[k]` were owned, which allowed it,
/// leaving the cards `os[k + 1]` owned.
pub open spec fn seat_dealt<D: TheDraft>(d: D, ps0: Seq<PlayerView>, us0: Seq<Seq<usize>>, ps: Seq<PlayerView>, us: Seq<Seq<usize>>, os: Seq<Seq<usize>>, k: int) -> bool {
    &&& d.start_ok(os[k])
    &&& d.dealt(ps0[k], us0[k], os[k], ps[k], us[k], os[k + 1])
}

/// A deal by `d` that stopped at a seat that could not be dealt: from the
/// players `ps0` and unknown cards `us0` to `ps` and `us`, the seats before
/// that seat were dealt, and it and the seats after it, and the unknown piles
/// beyond the players, are left as they were.
pub open spec fn deal_refused<D: TheDraft>(d: D, ps0: Seq<PlayerView>, us0: Seq<Seq<usize>>, ps: Seq<PlayerView>, us: Seq<Seq<usize>>) -> bool {
    let n = ps0.len() as int;
    &&& forall|j: int| n <= j < us0.len() ==> #[trigger] us[j] == us0[j]
    &&& exists|os: Seq<Seq<usize>>, k: int|
        #[trigger] seats_dealt(d, ps0, us0, ps, us, os, k)
        && k < n
        && !d.start_ok(os[k])
        && forall|j: int| k <= j < n ==> #[trigger] ps[j] == ps0[j] && us[j] == us0[j]
}

/// Dealing one more seat extends the seats dealt.
proof fn lemma_deal_step<D: TheDraft>(d: D, ps0: Seq<PlayerView>, us0: Seq<Seq<usize>>, ps: Seq<PlayerView>, us: Seq<Seq<usize>>,
    os: Seq<Seq<usize>>, i: int, pv: PlayerView, uv: Seq<usize>, o: Seq<usize>)
    requires
        seats_dealt(d, ps0, us0, ps, us, os, i),
        i < ps.len(),
        i < us.len(),
        d.start_ok(os[i]),
        d.dealt(ps0[i], us0[i], os[i], pv, uv, o),
    ensures
        seats_dealt(d, ps0, us0, ps.update(i, pv), us.update(i, uv), os.push(o), i + 1),
{
    let ps2 = ps.update(i, pv);
    let us2 = us.update(i, uv);
    let os2 = os.push(o);
    assert forall|k: int| 0 <= k < i + 1 implies #[trigger] seat_dealt(d, ps0, us0, ps2, us2, os2, k) by {
        assert(os2[k] == os[k]);
        if k < i {
            assert(seat_dealt(d, ps0, us0, ps, us, os, k));
            assert(ps[k] == ps2[k]);
            assert(us[k] == us2[k]);
            assert(os2[k + 1] == os[k + 1]);
        }
    }
}

/// Deals the starting cards of every player in seat order, each seat taking
/// the unknown cards of the same index. Gives the cards owned after the deal,
/// or `None` when a seat could not be dealt; that seat and those after it are
/// left as they were.
pub fn give_outstarting<D: TheDraft>(players: &mut Vec<Player>, unknown: &mut Vec<Vec<usize>>, cardmeta: &Vec<ListCard>, debug_struct: &D) -> (owned: Option<Vec<usize>>)
    requires
        cards::is_card_table(cardmeta@),
        old(players)@.len() <= old(unknown)@.len(),
    ensures
        final(players)@.len() == old(players)@.len(),
        final(unknown)@.len() == old(unknown)@.len(),
        ({
            let ps0 = codec::players_view(*old(players));
            let us0 = unknown_view(*old(unknown));
            let ps = codec::players_view(*final(players));
            let us = unknown_view(*final(unknown));
            let n = ps0.len() as int;
            &&& forall|j: int| n <= j < us0.len() ==> #[trigger] us[j] == us0[j]
            &&& match owned {
                Some(o) => exists|os: Seq<Seq<usize>>| #[trigger] seats_dealt(*debug_struct, ps0, us0, ps, us, os, n) && o@ == os[n],
                None => exists|os: Seq<Seq<usize>>, k: int|
                    #[trigger] seats_dealt(*debug_struct, ps0, us0, ps, us, os, k)
                    && k < n
                    && !(*debug_struct).start_ok(os[k])
                    && forall|j: int| k <= j < n ==> #[trigger] ps[j] == ps0[j] && us[j] == us0[j],
            }
        }),
{
    let ghost ps0 = codec::players_view(*players);
    let ghost us0 = unknown_view(*unknown);
    let mut owned_deck: Vec<usize> = Vec::new();
    let ghost mut os: Seq<Seq<usize>> = seq![owned_deck@];
    let mut i: usize = 0;
    proof {
        assert(os[0] =~= Seq::<usize>::empty());
    }
    while i < players.len()
        invariant
            cards::is_card_table(cardmeta@),
            i <= players@.len(),
            players@.len() == old(players)@.len(),
            unknown@.len() == old(unknown)@.len(),
            players@.len() <= unknown@.len(),
            ps0 == codec::players_view(*old(players)),
            us0 == unknown_view(*old(unknown)),
            os.len() == i + 1,
            owned_deck@ == os[i as int],
            seats_dealt(*debug_struct, ps0, us0, codec::players_view(*players), unknown_view(*unknown), os, i as int),
            forall|j: int| i <= j < ps0.len() ==> #[trigger] codec::players_view(*players)[j] == ps0[j],
            forall|j: int| i <= j < us0.len() ==> #[trigger] unknown_view(*unknown)[j] == us0[j],
        decreases players@.len() - i,
    {
        if !debug_struct.can_start(cardmeta, &owned_deck) {
            proof {
                let ps = codec::players_view(*players);
                let us = unknown_view(*unknown);
                assert(forall|j: int| i <= j < ps0.len() ==> #[trigger] ps[j] == ps0[j] && us[j] == us0[j]);
                assert(seats_dealt(*debug_struct, ps0, us0, ps, us, os, i as int));
            }
            return None;
        }
        let ghost ps_before = codec::players_view(*players);
        let ghost us_before = unknown_view(*unknown);
        let ghost owned_before = owned_deck@;
        let mut p = players[i].duplicate();
        let mut u = codec::copy_ids(&unknown[i]);
        proof {
            assert(codec::players_view(*players)[i as int] == ps0[i as int]);
            assert(unknown_view(*unknown)[i as int] == us0[i as int]);
            assert(p@ == ps0[i as int]);
            assert(u@ == us0[i as int]);
        }
        debug_struct.player_starting(&mut p, &mut u, cardmeta, &mut owned_deck);
        let ghost pv = p@;
        let ghost uv = u@;
        players.set(i, p);
        unknown.set(i, u);
        proof {
            let ps = codec::players_view(*players);
            let us = unknown_view(*unknown);
            assert(ps =~= ps_before.update(i as int, pv));
            assert(us =~= us_before.update(i as int, uv));
            lemma_deal_step(*debug_struct, ps0, us0, ps_before, us_before, os, i as int, pv, uv, owned_deck@);
            os = os.push(owned_deck@);
        }
        i = i + 1;
    }
    proof {
        assert(seats_dealt(*debug_struct, ps0, us0, codec::players_view(*players), unknown_view(*unknown), os, ps0.len() as int));
    }
    Some(owned_deck)
}

/// The layout a command leaves the player with: the one of the personal
/// arrangement, else the one arranged, else the player's own.
pub open spec fn layout_after(p: PlayerView, cmd: GameCommand) -> Seq<ArrangedView> {
    match cmd.personal {
        Some(z) => z.arranged@.map_values(|a: Arranged| codec::arranged_view(a)),
        None => match cmd.arranged {
            Some(a) => a@.map_values(|a: Arranged| codec::arranged_view(a)),
            None => p.arranged,
        },
    }
}

/// The player as a command's arrangement leaves it.
pub open spec fn arranged_by(p: PlayerView, cmd: GameCommand) -> PlayerView {
    match cmd.personal {
        Some(z) => PlayerView { arranged: z.arranged@.map_values(|a: Arranged| codec::arranged_view(a)), hand: z.hand@, ..p },
        None => PlayerView { arranged: layout_after(p, cmd), ..p },
    }
}

/// The phases of the first turn: the first player submits a word, the others spell.
pub open spec fn opening(n: nat) -> Seq<GameState> {
    Seq::new(n, |i: int| if i == 0 { GameState::TurnToSubmit } else { GameState::Spell })
}

fn opening_states(n: usize) -> (gs: Vec<GameState>)
    ensures
        gs@ == opening(n as nat),
{
    let mut gs: Vec<GameState> = Vec::new();
    let mut i: usize = 0;
    while i < n
        invariant
            i <= n,
            gs@ == opening(i as nat),
        decreases n - i,
    {
        if i == 0 {
            gs.push(GameState::TurnToSubmit);
        } else {
            gs.push(GameState::Spell);
        }
        i = i + 1;
        assert(gs@ =~= opening(i as nat));
    }
    gs
}

/// Beginning a dealt game `e0` with the messages `o0`, to `e` and `o`: the
/// deck, the ticks and the options of the deal are recorded; when the draft
/// is shown, each of the first `nc` connections is told its index and then
/// each is sent the board of the draft; otherwise the first player goes on
/// to submit a word and the others to spell.
pub open spec fn begun(e0: GameEngine, o0: Seq<Outgoing>, deck: Seq<usize>, ticks: Option<u16>, show: bool, seeded: bool, push: bool,
    e: GameEngine, o: Seq<Outgoing>) -> bool
{
    let nc = e0.num_connections;
    &&& e == (GameEngine {
            remaining_cards: e.remaining_cards,
            gamestates: e.gamestates,
            ticks,
            shuffle_seeded: seeded,
            push_notification: push,
            ..e0
        })
    &&& e.remaining_cards@ == deck
    &&& if show {
        &&& e.gamestates@ == e0.gamestates@
        &&& o.len() == o0.len() + 2 * nc
        &&& o.subrange(0, o0.len() as int) == o0
        &&& forall|c: int| 0 <= c < nc ==> (#[trigger] o[o0.len() + c]) == (Outgoing::PlayerIndex { to: c as usize, index: c as usize })
        &&& outbox::is_board_broadcast(o.subrange(o0.len() + nc, o.len() as int), nc, codec::players_view(e0.players), e0.gamestates@, Seq::empty(), 0, None)
    } else {
        &&& e.gamestates@ == opening(e0.gamestates@.len())
        &&& o == o0
    }
}

/// A game in progress: the players, their phases and queues, the cards, and
/// the state of the end of the game.
pub struct GameEngine {
    pub players: Vec<Player>,
    pub num_connections: usize,
    pub gamestates: Vec<GameState>,
    pub unknown: Vec<Vec<usize>>,
    pub cardmeta: Vec<ListCard>,
    pub remaining_cards: Vec<usize>,
    pub wait_for_input: Vec<WaitForInputType>,
    pub turn_index: usize,
    pub ticks: Option<u16>,
    pub shuffle_seeded: bool,
    pub push_notification: bool,
    pub player_60: Option<usize>,
    pub game_end_notified: bool,
    pub turn_after_winner: usize,
    pub wait_for_break: bool,
    pub count_rec: usize,
}

/// The number of seats a game has room for.
pub const MAX_SEATS: usize = 4;

impl GameEngine {
    /// The shape every engine keeps: the card table, at most four seated
    /// players each with a connection and a phase, four unknown piles and
    /// four queues, and seat numbers in range.
    pub open spec fn wf(&self) -> bool {
        &&& cards::is_card_table(self.cardmeta@)
        &&& self.players@.len() <= MAX_SEATS
        &&& self.players@.len() <= self.num_connections
        &&& self.gamestates@.len() == self.players@.len()
        &&& self.unknown@.len() == MAX_SEATS
        &&& self.wait_for_input@.len() == MAX_SEATS
        &&& self.turn_index < MAX_SEATS
        &&& self.player_60 matches Some(i) ==> i < MAX_SEATS
    }

    /// A game for the given players, each in the draft phase, with the given
    /// number of connections.
    pub fn new(players: Vec<Player>, num_connections: usize) -> (e: GameEngine)
        requires
            players@.len() <= MAX_SEATS,
            players@.len() <= num_connections,
        ensures
            e.wf(),
            codec::players_view(e.players) == codec::players_view(players),
            e.num_connections == num_connections,
            e.gamestates@ == Seq::new(players@.len(), |i: int| GameState::ShowDraft),
            forall|i: int| 0 <= i < MAX_SEATS ==> (#[trigger] e.unknown@[i])@ == Seq::<usize>::empty(),
            codec::queues_view(e.wait_for_input) == empty_queues(),
            e.remaining_cards@ == Seq::<usize>::empty(),
            e.turn_index == 0,
            e.ticks is None,
            !e.shuffle_seeded && !e.push_notification,
            e.player_60 is None && !e.game_end_notified && e.turn_after_winner == 0,
            !e.wait_for_break && e.count_rec == 0,
    {
        let mut gamestates: Vec<GameState> = Vec::new();
        let mut i: usize = 0;
        while i < players.len()
            invariant
                i <= players@.len(),
                gamestates@ == Seq::new(i as nat, |k: int| GameState::ShowDraft),
            decreases players@.len() - i,
        {
            gamestates.push(GameState::ShowDraft);
            i = i + 1;
            assert(gamestates@ =~= Seq::new(i as nat, |k: int| GameState::ShowDraft));
        }
        let wait_for_input: Vec<WaitForInputType> = vec![Vec::new(), Vec::new(), Vec::new(), Vec::new()];
        assert(codec::queues_view(wait_for_input) =~= empty_queues()) by {
            assert(codec::queue_view(wait_for_input@[0]) =~= Seq::<Option<WaitView>>::empty());
            assert(codec::queue_view(wait_for_input@[1]) =~= Seq::<Option<WaitView>>::empty());
            assert(codec::queue_view(wait_for_input@[2]) =~= Seq::<Option<WaitView>>::empty());
            assert(codec::queue_view(wait_for_input@[3]) =~= Seq::<Option<WaitView>>::empty());
        }
        GameEngine {
            players,
            num_connections,
            gamestates,
            unknown: vec![Vec::new(), Vec::new(), Vec::new(), Vec::new()],
            cardmeta: cards::populate(),
            remaining_cards: Vec::new(),
            wait_for_input,
            turn_index: 0,
            ticks: None,
            shuffle_seeded: false,
            push_notification: false,
            player_60: None,
            game_end_notified: false,
            turn_after_winner: 0,
            wait_for_break: false,
            count_rec: 0,
        }
    }

    /// Begins a dealt game with the deck `deck`, the ticks and the options of
    /// the deal. When the draft is shown every connection is told its index
    /// and then sent the board of the draft; otherwise the first player
    /// submits a word and the others spell.
    pub fn begin(&mut self, deck: Vec<usize>, ticks: Option<u16>, show: bool, seeded: bool, push: bool, outbox: &mut Vec<Outgoing>)
        requires
            old(self).wf(),
        ensures
            final(self).wf(),
            outbox::extends(final(outbox)@, old(outbox)@),
            begun(*old(self), old(outbox)@, deck@, ticks, show, seeded, push, *final(self), final(outbox)@),
    {
        proof { outbox::lemma_extends_refl(outbox@); }
        self.remaining_cards = deck;
        self.ticks = ticks;
        self.shuffle_seeded = seeded;
        self.push_notification = push;
        if show {
            show_draft::give_player_index(self.num_connections, outbox);
            let ghost mid = outbox@;
            show_draft::broadcast(seeded, &self.gamestates, self.num_connections, &self.players, outbox);
            proof {
                outbox::lemma_extends_trans(old(outbox)@, mid, outbox@);
                let o0 = old(outbox)@;
                let o = outbox@;
                let nc = self.num_connections;
                assert(o.subrange(0, o0.len() as int) =~= mid.subrange(0, o0.len() as int));
                assert forall|c: int| 0 <= c < nc implies (#[trigger] o[o0.len() + c]) == (Outgoing::PlayerIndex { to: c as usize, index: c as usize }) by {
                    assert(o[o0.len() + c] == mid[o0.len() + c]);
                }
                assert(o.subrange(o0.len() + nc, o.len() as int) =~= o.subrange(mid.len() as int, o.len() as int));
            }
        } else {
            self.gamestates = opening_states(self.gamestates.len());
        }
    }

    /// Deals the game: the starting cards of every player in seat order, then
    /// the deck, the ticks and the options of the deal, and begins it (see
    /// `begin`). Gives `false`, with nothing sent and nothing begun, exactly
    /// when a seat cannot be dealt: the seats before it are dealt, and it and
    /// the seats after it are left as they were.
    pub fn start<D: TheDraft>(&mut self, debug_struct: &D, outbox: &mut Vec<Outgoing>) -> (ok: bool)
        requires
            old(self).wf(),
        ensures
            final(self).wf(),
            outbox::extends(final(outbox)@, old(outbox)@),
            ({
                let d = *debug_struct;
                let ps0 = codec::players_view(old(self).players);
                let us0 = unknown_view(old(self).unknown);
                let n = ps0.len() as int;
                if ok {
                    exists|e1: GameEngine, os: Seq<Seq<usize>>|
                        #![trigger seats_dealt(d, ps0, us0, codec::players_view(e1.players), unknown_view(e1.unknown), os, n)]
                        {
                            &&& e1 == (GameEngine { players: e1.players, unknown: e1.unknown, ..*old(self) })
                            &&& e1.wf()
                            &&& seats_dealt(d, ps0, us0, codec::players_view(e1.players), unknown_view(e1.unknown), os, n)
                            &&& forall|j: int| n <= j < us0.len() ==> #[trigger] unknown_view(e1.unknown)[j] == us0[j]
                            &&& begun(e1, old(outbox)@, d.deck_of(os[n]), d.ticks_of(), d.show_of().0, d.show_of().1, d.push_of(),
                                    *final(self), final(outbox)@)
                        }
                } else {
                    &&& final(outbox)@ == old(outbox)@
                    &&& *final(self) == (GameEngine { players: final(self).players, unknown: final(self).unknown, ..*old(self) })
                    &&& deal_refused(d, ps0, us0, codec::players_view(final(self).players), unknown_view(final(self).unknown))
                }
            }),
    {
        proof { outbox::lemma_extends_refl(outbox@); }
        let owned = give_outstarting(&mut self.players, &mut self.unknown, &self.cardmeta, debug_struct);
        let owned_deck = match owned {
            Some(o) => o,
            None => {
                proof {
                    assert(*self == (GameEngine { players: self.players, unknown: self.unknown, ..*old(self) }));
                    assert(deal_refused(*debug_struct, codec::players_view(old(self).players), unknown_view(old(self).unknown),
                        codec::players_view(self.players), unknown_view(self.unknown)));
                }
                return false;
            },
        };
        let ghost e1 = *self;
        let deck = debug_struct.deck_starting(&self.cardmeta, &owned_deck);
        let ticks = debug_struct.ticks();
        let (show, seeded) = debug_struct.show_draft();
        let push = debug_struct.push_notification();
        let ghost d = deck@;
        self.begin(deck, ticks, show, seeded, push, outbox);
        proof {
            let ps0 = codec::players_view(old(self).players);
            let us0 = unknown_view(old(self).unknown);
            let n = ps0.len() as int;
            let os = choose|os: Seq<Seq<usize>>| #[trigger] seats_dealt(*debug_struct, ps0, us0, codec::players_view(e1.players), unknown_view(e1.unknown), os, n)
                && owned_deck@ == os[n];
            assert(seats_dealt(*debug_struct, ps0, us0, codec::players_view(e1.players), unknown_view(e1.unknown), os, n));
            assert(e1 == (GameEngine { players: e1.players, unknown: e1.unknown, ..*old(self) }));
            assert(e1.wf());
            assert(forall|j: int| n <= j < us0.len() ==> #[trigger] unknown_view(e1.unknown)[j] == us0[j]);
            assert(begun(e1, old(outbox)@, (*debug_struct).deck_of(os[n]), (*debug_struct).ticks_of(), (*debug_struct).show_of().0,
                (*debug_struct).show_of().1, (*debug_struct).push_of(), *self, outbox@));
        }
        true
    }
}

/// Whether every seat about to draw can take its coins into its ink.
pub open spec fn redraw_room(ps: Seq<Player>, gs: Seq<GameState>) -> bool {
    forall|i: int| #![trigger gs[i]] 0 <= i < ps.len() && i < gs.len() && gs[i] == GameState::PreDrawCard ==> ps[i].ink + ps[i].coin <= usize::MAX
}

fn redraw_fits(players: &Vec<Player>, gamestates: &Vec<GameState>) -> (b: bool)
    ensures
        b == redraw_room(players@, gamestates@),
{
    let mut i: usize = 0;
    while i < players.len()
        invariant
            i <= players@.len(),
            forall|j: int| #![trigger gamestates@[j]] 0 <= j < i && j < gamestates@.len() && gamestates@[j] == GameState::PreDrawCard ==> players@[j].ink + players@[j].coin <= usize::MAX,
        decreases players@.len() - i,
    {
        if i < gamestates.len() && gamestates[i] == GameState::PreDrawCard {
            if players[i].ink > usize::MAX - players[i].coin {
                return false;
            }
        }
        i = i + 1;
    }
    true
}

fn uncover_fits(players: &Vec<Player>, gamestates: &Vec<GameState>) -> (b: bool)
    ensures
        b == forall|j: int| 0 <= j < players@.len() && j < gamestates@.len() && (#[trigger] gamestates@[j]) is ResolveAgain ==> player_budget(players@[j]@),
{
    let mut i: usize = 0;
    while i < players.len()
        invariant
            i <= players@.len(),
            forall|j: int| 0 <= j < i && j < gamestates@.len() && (#[trigger] gamestates@[j]) is ResolveAgain ==> player_budget(players@[j]@),
        decreases players@.len() - i,
    {
        if i < gamestates.len() {
            if let GameState::ResolveAgain(_, _) = gamestates[i] {
                if !within_budget(&players[i]) {
                    return false;
                }
            }
        }
        i = i + 1;
    }
    true
}

/// What a round of the game loop works on: the players, their phases, their
/// unknown cards and queues, the seat on turn, the state of the end of the
/// game, and the messages sent.
#[verifier::ext_equal]
pub struct Stage {
    pub ps: Seq<PlayerView>,
    pub gs: Seq<GameState>,
    pub us: Seq<Seq<usize>>,
    pub qs: Seq<Seq<Option<WaitView>>>,
    pub ti: usize,
    pub p60: Option<usize>,
    pub notified: bool,
    pub taw: usize,
    pub out: Seq<Outgoing>,
}

pub open spec fn stage_of(e: GameEngine, out: Seq<Outgoing>) -> Stage {
    Stage {
        ps: codec::players_view(e.players),
        gs: e.gamestates@,
        us: e.unknown@.map_values(|u: Vec<usize>| u@),
        qs: codec::queues_view(e.wait_for_input),
        ti: e.turn_index,
        p60: e.player_60,
        notified: e.game_end_notified,
        taw: e.turn_after_winner,
        out,
    }
}

/// The end of the game is watched for.
pub open spec fn end_watched(a: Stage, b: Stage, nc: usize) -> bool {
    &&& end_game::watch_end(a.ps, nc, a.p60, a.notified, a.out, b.p60, b.notified, b.out)
    &&& b == (Stage { p60: b.p60, notified: b.notified, out: b.out, ..a })
}

/// The result is shown when the last round has come round.
pub open spec fn result_step(a: Stage, b: Stage, nc: usize, ticks: Option<u16>) -> bool {
    &&& end_game::result_shown(a.ps, a.gs, nc, a.p60, a.taw, a.ti, ticks, a.out, b.ps, b.gs, b.taw, b.out)
    &&& b == (Stage { ps: b.ps, gs: b.gs, taw: b.taw, out: b.out, ..a })
}

/// Whether every seat about to draw can take its coins into its ink.
pub open spec fn refill_room(ps: Seq<PlayerView>, gs: Seq<GameState>) -> bool {
    forall|i: int| #![trigger gs[i]] 0 <= i < ps.len() && i < gs.len() && gs[i] == GameState::PreDrawCard ==> ps[i].ink + ps[i].coin <= usize::MAX
}

/// The seats about to draw refill their hands, when their tallies allow it.
pub open spec fn refilled(a: Stage, b: Stage) -> bool {
    if refill_room(a.ps, a.gs) {
        &&& b.ps.len() == a.ps.len()
        &&& b.us.len() == a.us.len()
        &&& forall|i: int| 0 <= i < a.ps.len() ==>
            if i < a.gs.len() && a.gs[i] == GameState::PreDrawCard {
                draw_card::redrawn(a.ps[i], a.us[i], #[trigger] b.ps[i], b.us[i])
            } else {
                b.ps[i] == a.ps[i]
            }
        &&& forall|i: int| 0 <= i < a.us.len() && !(i < a.ps.len() && i < a.gs.len() && a.gs[i] == GameState::PreDrawCard)
            ==> #[trigger] b.us[i] == a.us[i]
        &&& b == (Stage { ps: b.ps, us: b.us, ..a })
    } else {
        b == a
    }
}

/// Whether every seat whose cards were uncovered can have them resolved again.
pub open spec fn uncover_room(ps: Seq<PlayerView>, gs: Seq<GameState>) -> bool {
    forall|j: int| 0 <= j < ps.len() && j < gs.len() && (#[trigger] gs[j]) is ResolveAgain ==> player_budget(ps[j])
}

/// The seats whose cards were uncovered resolve them again, when their
/// tallies allow it, and the last of them is sent its next request.
pub open spec fn uncovered(a: Stage, b: Stage, nc: usize, ticks: Option<u16>) -> bool {
    if uncover_room(a.ps, a.gs) {
        let m = vstd::math::min(a.ps.len() as int, a.gs.len() as int) as nat;
        let s1 = draw_card::uncover_scene((a.ps, a.qs), a.gs, m);
        let g1 = draw_card::uncover_phases(a.gs, m);
        &&& b.ps == s1.0
        &&& b.qs == s1.1
        &&& match draw_card::uncover_prompt(a.gs, m, s1.1, nc) {
            Some(w) => {
                let r = draw_card::last_resolve(a.gs, m)->Some_0;
                &&& b.gs == g1.update(r as int, w.1)
                &&& b.out.len() == a.out.len() + 1
                &&& b.out.drop_last() == a.out
                &&& outbox::is_request_msg(b.out.last(), r, r, w, ticks)
            },
            None => {
                &&& b.gs == g1
                &&& b.out == a.out
            },
        }
        &&& b == (Stage { ps: b.ps, qs: b.qs, gs: b.gs, out: b.out, ..a })
    } else {
        b == a
    }
}

/// The phases move on.
pub open spec fn moved_on(a: Stage, b: Stage, nc: usize, rem: Seq<usize>, ticks: Option<u16>) -> bool {
    &&& draw_card::phases_moved_on(a.gs, a.ti, a.qs, a.ps, rem, nc, ticks, a.out, b.gs, b.ti, b.qs, b.out)
    &&& b == (Stage { gs: b.gs, ti: b.ti, qs: b.qs, out: b.out, ..a })
}

/// One round of the game loop, from the engine `e0` and the messages `o0`
/// to the engine `e` and the messages `o`: the end of the game is watched
/// for, the result is shown when due, hands are refilled, uncovered cards
/// are resolved again, and the phases move on; nothing else changes.
pub open spec fn round_played(e0: GameEngine, o0: Seq<Outgoing>, e: GameEngine, o: Seq<Outgoing>) -> bool {
    &&& exists|s1: Stage, s2: Stage, s3: Stage, s4: Stage|
        #![trigger result_step(s1, s2, e0.num_connections, e0.ticks), refilled(s2, s3), uncovered(s3, s4, e0.num_connections, e0.ticks)]
        end_watched(stage_of(e0, o0), s1, e0.num_connections)
        && result_step(s1, s2, e0.num_connections, e0.ticks)
        && refilled(s2, s3)
        && uncovered(s3, s4, e0.num_connections, e0.ticks)
        && moved_on(s4, stage_of(e, o), e0.num_connections, e0.remaining_cards@, e0.ticks)
    &&& e.num_connections == e0.num_connections
    &&& e.cardmeta@ == e0.cardmeta@
    &&& e.remaining_cards@ == e0.remaining_cards@
    &&& e.ticks == e0.ticks
    &&& e.shuffle_seeded == e0.shuffle_seeded
    &&& e.push_notification == e0.push_notification
    &&& e.wait_for_break == e0.wait_for_break
    &&& e.count_rec == e0.count_rec
}

impl GameEngine {
    /// One round of the game loop: the end of the game is watched for and,
    /// when due, the result is shown; seats about to draw refill their hands;
    /// seats whose cards were uncovered resolve them again; and the phases
    /// move on. A refill or a resolution that the tallies cannot take is left
    /// out.
    pub fn tick(&mut self, outbox: &mut Vec<Outgoing>)
        requires
            old(self).wf(),
        ensures
            final(self).wf(),
            round_played(*old(self), old(outbox)@, *final(self), final(outbox)@),
            outbox::extends(final(outbox)@, old(outbox)@),
    {
        let ghost o0 = outbox@;
        let ghost st0 = stage_of(*self, outbox@);
        let nc = self.num_connections;
        end_game::first_to_60(&self.players, nc, &mut self.player_60, &mut self.game_end_notified, outbox);
        proof {
            end_game::lemma_last_at_end(codec::players_view(self.players), self.players@.len());
        }
        let ghost o1 = outbox@;
        let ghost st1 = stage_of(*self, outbox@);
        assert(end_watched(st0, st1, nc)) by {
            assert(st1 =~= (Stage { p60: st1.p60, notified: st1.notified, out: st1.out, ..st0 }));
        }
        assert(outbox::extends(o1, o0)) by {
            if o1 =~= o0 {
                assert(o1.subrange(0, o0.len() as int) =~= o0);
            }
        }
        end_game::show_result(&mut self.players, &mut self.gamestates, nc, &self.player_60, &mut self.turn_after_winner, self.turn_index, self.ticks, outbox);
        let ghost o2 = outbox@;
        let ghost st2 = stage_of(*self, outbox@);
        assert(result_step(st1, st2, nc, self.ticks)) by {
            assert(st2 =~= (Stage { ps: st2.ps, gs: st2.gs, taw: st2.taw, out: st2.out, ..st1 }));
        }
        assert(outbox::extends(o2, o1)) by {
            if o2 =~= o1 {
                assert(o2.subrange(0, o1.len() as int) =~= o1);
            }
        }
        proof { outbox::lemma_extends_trans(o0, o1, o2); }
        assert(self.players@.len() == codec::players_view(self.players).len());
        assert(self.players@.len() <= MAX_SEATS);
        let ghost ps2 = self.players@;
        let ghost us2 = self.unknown@;
        assert(redraw_room(self.players@, self.gamestates@) == refill_room(st2.ps, st2.gs)) by {
            assert forall|i: int| 0 <= i < self.players@.len() implies #[trigger] st2.ps[i] == self.players@[i]@ by {}
        }
        if redraw_fits(&self.players, &self.gamestates) {
            draw_card::redraw_cards_to_hand_size(&mut self.players, &mut self.unknown, &mut self.gamestates, &mut self.turn_index);
        }
        let ghost st3 = stage_of(*self, outbox@);
        assert(refilled(st2, st3)) by {
            if refill_room(st2.ps, st2.gs) {
                assert forall|i: int| 0 <= i < st2.ps.len() implies
                    (if i < st2.gs.len() && st2.gs[i] == GameState::PreDrawCard {
                        draw_card::redrawn(st2.ps[i], st2.us[i], #[trigger] st3.ps[i], st3.us[i])
                    } else {
                        st3.ps[i] == st2.ps[i]
                    }) by {
                    assert(st2.ps[i] == ps2[i]@);
                    assert(st3.ps[i] == self.players@[i]@);
                    assert(st2.us[i] == us2[i]@);
                    assert(st3.us[i] == self.unknown@[i]@);
                }
                assert forall|i: int| 0 <= i < st2.us.len() && !(i < st2.ps.len() && i < st2.gs.len() && st2.gs[i] == GameState::PreDrawCard)
                    implies #[trigger] st3.us[i] == st2.us[i] by {
                    assert(st2.us[i] == us2[i]@);
                    assert(st3.us[i] == self.unknown@[i]@);
                }
                assert(st3 =~= (Stage { ps: st3.ps, us: st3.us, ..st2 }));
            } else {
                assert(st3 =~= st2);
            }
        }
        assert(uncover_room(st3.ps, st3.gs) == (forall|j: int| 0 <= j < self.players@.len() && j < self.gamestates@.len()
            && (#[trigger] self.gamestates@[j]) is ResolveAgain ==> player_budget(self.players@[j]@))) by {
            assert forall|i: int| 0 <= i < self.players@.len() implies #[trigger] st3.ps[i] == self.players@[i]@ by {}
        }
        if uncover_fits(&self.players, &self.gamestates) {
            let ghost s0 = board::scene_of(self.players, self.wait_for_input);
            let ghost m = vstd::math::min(self.players@.len() as int, self.gamestates@.len() as int) as nat;
            assert(draw_card::uncover_budget(s0, self.gamestates@, m));
            draw_card::uncover_cards(&mut self.players, &mut self.gamestates, nc, &self.cardmeta, &self.remaining_cards, &mut self.wait_for_input, self.ticks, outbox);
            assert(codec::players_view(self.players).len() == self.players@.len());
        }
        let ghost o3 = outbox@;
        let ghost st4 = stage_of(*self, outbox@);
        assert(uncovered(st3, st4, nc, self.ticks)) by {
            if uncover_room(st3.ps, st3.gs) {
                assert(st4 =~= (Stage { ps: st4.ps, qs: st4.qs, gs: st4.gs, out: st4.out, ..st3 }));
            } else {
                assert(st4 =~= st3);
            }
        }
        assert(outbox::extends(o3, o2)) by {
            assert(o3.subrange(0, o2.len() as int) =~= o2);
        }
        proof { outbox::lemma_extends_trans(o0, o2, o3); }
        draw_card::update_gamestates(&mut self.gamestates, nc, &self.players, &self.remaining_cards, &mut self.wait_for_input, &mut self.turn_index, self.ticks, outbox);
        let ghost st5 = stage_of(*self, outbox@);
        assert(moved_on(st4, st5, nc, self.remaining_cards@, self.ticks)) by {
            assert(st5 =~= (Stage { gs: st5.gs, ti: st5.ti, qs: st5.qs, out: st5.out, ..st4 }));
        }
        proof {
            assert(outbox::extends(outbox@, o3));
            outbox::lemma_extends_trans(o0, o3, outbox@);
            assert(end_watched(st0, st1, nc) && result_step(st1, st2, nc, self.ticks) && refilled(st2, st3)
                && uncovered(st3, st4, nc, self.ticks) && moved_on(st4, st5, nc, self.remaining_cards@, self.ticks));
        }
    }

    /// The end of one round of the game loop: the rounds since the last
    /// command are counted, and the loop stops once the server was asked to
    /// close and fifteen rounds have passed.
    pub fn end_of_loop(&mut self) -> (stop: bool)
        requires
            old(self).wf(),
        ensures
            *final(self) == (GameEngine { count_rec: if old(self).count_rec < usize::MAX { (old(self).count_rec + 1) as usize } else { old(self).count_rec }, ..*old(self) }),
            stop == (final(self).wait_for_break && final(self).count_rec >= 15),
    {
        if self.count_rec < usize::MAX {
            self.count_rec = self.count_rec + 1;
        }
        self.wait_for_break && self.count_rec >= 15
    }
}

/// Whether a command submits a word to be checked: it is no reply, it comes
/// from a seated player with a connection whose turn it is to submit, it asks
/// to submit, and the layout it leaves can be resolved.
pub open spec fn submits(e: GameEngine, player_id: usize, cmd: GameCommand) -> bool {
    &&& player_id < MAX_SEATS
    &&& cmd.reply is None
    &&& player_id < e.num_connections
    &&& player_id < e.players@.len()
    &&& e.gamestates@[player_id as int] == GameState::TurnToSubmit
    &&& cmd.submit_word == Some(true)
    &&& player_budget(arranged_by(e.players@[player_id as int]@, cmd))
}

/// The notice that a player formed a word; players are counted from one.
pub open spec fn formed_notice(player_id: usize, word: Seq<char>) -> Seq<char> {
    "Player "@ + codec::decimal(player_id as nat + 1) + " has formed a word ["@ + word + "]"@
}

fn formed_word_notice(player_id: usize, word: &String) -> (s: String)
    requires
        player_id < MAX_SEATS,
    ensures
        s@ == formed_notice(player_id, word@),
{
    let mut st = codec::owned("Player ");
    let n = codec::usize_to_string(player_id + 1);
    st.append(n.as_str());
    st.append(" has formed a word [");
    st.append(word.as_str());
    st.append("]");
    st
}

fn copy_removers(v: &Option<Vec<usize>>) -> (r: Option<Vec<usize>>)
    ensures
        match (r, *v) {
            (Some(a), Some(b)) => a@ == b@,
            (None, None) => true,
            _ => false,
        },
{
    match v {
        Some(x) => Some(codec::copy_ids(x)),
        None => None,
    }
}

/// When the command lays out cards, the board is sent to each of the first
/// `nc` connections.
fn send_layout(cmd: &GameCommand, players: &Vec<Player>, gamestates: &Vec<GameState>, offer: &Vec<usize>, nc: usize, ti: usize, ticks: Option<u16>, outbox: &mut Vec<Outgoing>)
    ensures
        command::layout_sent(*cmd, codec::players_view(*players), gamestates@, offer@, nc, ti, ticks, old(outbox)@, final(outbox)@),
        outbox::extends(final(outbox)@, old(outbox)@),
{
    proof { outbox::lemma_extends_refl(outbox@); }
    if cmd.arranged.is_some() || cmd.personal.is_some() {
        outbox::broadcast_board(outbox, nc, players, gamestates, offer, ti, ticks);
    }
}

/// The steps of a spelling player: asking for an unknown card with ink,
/// spending ink removers, and laying out cards.
fn spell_steps(board: &mut BoardStruct, player_id: usize, cmd: &GameCommand, unknown: &mut Vec<usize>, wait_for_input: &mut Vec<WaitForInputType>, outbox: &mut Vec<Outgoing>)
    requires
        player_id < old(wait_for_input)@.len(),
    ensures
        final(board).offer_row@ == old(board).offer_row@,
        final(wait_for_input)@.len() == old(wait_for_input)@.len(),
        final(unknown)@ == old(unknown)@,
        outbox::extends(final(outbox)@, old(outbox)@),
        command::spelled(codec::players_view(old(board).players), old(unknown)@, codec::queues_view(*old(wait_for_input)), old(outbox)@, player_id, *cmd,
            codec::players_view(final(board).players), codec::queues_view(*final(wait_for_input)), final(outbox)@),
{
    let ghost o0 = outbox@;
    let ghost ps0 = codec::players_view(board.players);
    spell::take_card_use_ink(board, player_id, outbox, &cmd.take_card_use_ink, unknown, wait_for_input);
    assert(wait_for_input@.len() == codec::queues_view(*wait_for_input).len());
    assert(board::push_on(codec::queues_view(*old(wait_for_input)), player_id as int, spell::ink_card_prompt(0)).len() == old(wait_for_input)@.len());
    let ghost o1 = outbox@;
    let ghost q1 = codec::queues_view(*wait_for_input);
    let removers = copy_removers(&cmd.use_remover);
    assert(spell::ids_of(removers) == spell::ids_of(cmd.use_remover));
    spell::use_remover(board, player_id, outbox, removers, wait_for_input);
    assert(wait_for_input@.len() == codec::queues_view(*wait_for_input).len());
    let ghost o2 = outbox@;
    assert(codec::players_view(board.players) == ps0);
    if player_id < board.players.len() {
        assert(board.players@[player_id as int]@ == ps0[player_id as int]);
    }
    spell::arrange(board, player_id, &cmd.arranged, wait_for_input);
    assert(wait_for_input@.len() == codec::queues_view(*wait_for_input).len());
    let ghost ps2 = codec::players_view(board.players);
    proof {
        if player_id < ps0.len() {
            let p = ps0[player_id as int];
            assert(ps2.len() == ps0.len());
            assert(ps2[player_id as int] == PlayerView { arranged: layout_after(p, GameCommand { personal: None, ..*cmd }), ..p });
            assert(board.players@[player_id as int]@ == ps2[player_id as int]);
        }
    }
    spell::personal(board, player_id, &cmd.personal, wait_for_input);
    assert(wait_for_input@.len() == codec::queues_view(*wait_for_input).len());
    proof {
        assert(o1.subrange(0, o0.len() as int) =~= o0);
        assert(o2.subrange(0, o1.len() as int) =~= o1);
        outbox::lemma_extends_trans(o0, o1, o2);
        assert(outbox@ == o2);
        if player_id < ps0.len() {
            let p = ps0[player_id as int];
            let ps3 = codec::players_view(board.players);
            assert(ps3.len() == ps0.len());
            assert(ps3[player_id as int] == arranged_by(p, *cmd));
            assert(ps3 =~= ps0.update(player_id as int, arranged_by(p, *cmd)));
        } else {
            assert(codec::players_view(board.players) == ps0);
        }
        assert(spell::ink_asked(ps0, player_id, cmd.take_card_use_ink, old(unknown)@, codec::queues_view(*old(wait_for_input)), o0, q1, o1));
    }
}

impl GameEngine {
    /// The word a command submits, which is to be checked before the command
    /// is handled; `None` when the command submits nothing.
    pub fn word_to_check(&self, player_id: usize, cmd: &GameCommand) -> (w: Option<String>)
        requires
            self.wf(),
        ensures
            match w {
                Some(s) => submits(*self, player_id, *cmd) && s@ == spell::word_of(layout_after(self.players@[player_id as int]@, *cmd)),
                None => !submits(*self, player_id, *cmd),
            },
    {
        if player_id >= MAX_SEATS || cmd.reply.is_some() || player_id >= self.num_connections || player_id >= self.players.len() {
            return None;
        }
        if self.gamestates[player_id] != GameState::TurnToSubmit {
            return None;
        }
        match cmd.submit_word {
            Some(true) => {},
            _ => { return None; },
        }
        let mut p = self.players[player_id].duplicate();
        if let Some(a) = &cmd.arranged {
            p.arranged = codec::copy_arranged(a);
        }
        if let Some(z) = &cmd.personal {
            p.arranged = codec::copy_arranged(&z.arranged);
            p.hand = codec::copy_ids(&z.hand);
        }
        assert(p@ =~= arranged_by(self.players@[player_id as int]@, *cmd));
        if !within_budget(&p) {
            return None;
        }
        Some(spell::spelled_word(&p.arranged, &self.cardmeta))
    }
}

impl GameEngine {
    /// Acts on the player's phase as a command that is no reply asks;
    /// the players are changed on `board`. Gives the notice to announce, if any.
    #[verifier::loop_isolation(false)]
    #[verifier::rlimit(50)]
    fn play_phase(&mut self, player_id: usize, cmd: &GameCommand, word_valid: bool, board: &mut BoardStruct, type_is_reply: &mut bool, outbox: &mut Vec<Outgoing>) -> (notice: Option<String>)
        requires
            old(self).wf(),
            player_id < MAX_SEATS,
            player_id < old(self).gamestates@.len(),
            old(board).players@.len() == old(self).players@.len(),
            old(board).offer_row@ == board::offer_row_of(old(self).remaining_cards@),
            !*old(type_is_reply),
        ensures
            final(self).wf(),
            *final(self) == (GameEngine {
                gamestates: final(self).gamestates,
                unknown: final(self).unknown,
                wait_for_input: final(self).wait_for_input,
                remaining_cards: final(self).remaining_cards,
                ..*old(self)
            }),
            final(board).players@.len() == old(board).players@.len(),
            final(board).offer_row@ == old(board).offer_row@,
            !*final(type_is_reply),
            outbox::extends(final(outbox)@, old(outbox)@),
            command::phase_played(
                command::play_with(codec::players_view(old(board).players), *old(self), old(outbox)@),
                command::play_with(codec::players_view(final(board).players), *final(self), final(outbox)@),
                command::text_of(notice), player_id, *cmd, word_valid, old(self).push_notification, old(self).ticks,
                old(self).num_connections, old(self).turn_index),
    {
        let ghost o0 = outbox@;
        let ghost a = command::play_with(codec::players_view(board.players), *self, outbox@);
        let mut notification: Option<String> = None;
        proof {
            assert(board.players@.len() == codec::players_view(board.players).len());
        }
        let ghost mut ps1 = a.ps;
        let ghost mut qs1 = a.qs;
        let ghost mut o_sp = a.out;
        let mut g = self.gamestates[player_id];
        match g {
            GameState::ShowDraft => {
                let asked = match cmd.go_to_shuffle { Some(true) => true, _ => false };
                if !asked || board.players[player_id].draft.len() >= 5 {
                    let ghost u0 = self.unknown@;
                    show_draft::go_to_shuffle(self.shuffle_seeded, board, player_id, &mut g, &cmd.go_to_shuffle, &mut self.unknown[player_id], self.ticks, outbox);
                    proof {
                        assert(board.players@.len() == codec::players_view(board.players).len());
                        assert(self.unknown@.map_values(|u: Vec<usize>| u@) =~= a.us.update(player_id as int, self.unknown@[player_id as int]@));
                    }
                }
            },
            GameState::Spell => {
                spell_steps(board, player_id, cmd, &mut self.unknown[player_id], &mut self.wait_for_input, outbox);
                proof { o_sp = outbox@; }
                send_layout(cmd, &board.players, &self.gamestates, &board.offer_row, self.num_connections, self.turn_index, self.ticks, outbox);
                proof {
                    assert(self.unknown@.map_values(|u: Vec<usize>| u@) =~= a.us);
                    assert(board.players@.len() == codec::players_view(board.players).len());
                }
            },
            GameState::TurnToSubmit => {
                spell_steps(board, player_id, cmd, &mut self.unknown[player_id], &mut self.wait_for_input, outbox);
                proof {
                    ps1 = codec::players_view(board.players);
                    qs1 = codec::queues_view(self.wait_for_input);
                    o_sp = outbox@;
                }
                send_layout(cmd, &board.players, &self.gamestates, &board.offer_row, self.num_connections, self.turn_index, self.ticks, outbox);
                proof {
                    assert(self.unknown@.map_values(|u: Vec<usize>| u@) =~= a.us);
                }
                assert(board.players@.len() == codec::players_view(board.players).len());
                if within_budget(&board.players[player_id]) {
                    let word = spell::turn_to_submit(board, player_id, &self.cardmeta, &cmd.submit_word);
                    assert(board.players@.len() == codec::players_view(board.players).len());
                    if let Some(k) = word {
                        if word_valid && within_budget(&board.players[player_id]) {
                            resolve_cards::resolve_cards(board, player_id, &self.cardmeta, &mut self.wait_for_input);
                            assert(board.players@.len() == codec::players_view(board.players).len());
                            assert(self.wait_for_input@.len() == codec::queues_view(self.wait_for_input).len());
                            if self.wait_for_input[player_id].len() == 1 && self.wait_for_input[player_id][0].is_none() {
                                g = GameState::Buy;
                                if self.push_notification {
                                    notification = Some(formed_word_notice(player_id, &k));
                                }
                            }
                            proof {
                                let qv = codec::queues_view(self.wait_for_input);
                                assert(qv[player_id as int].len() == self.wait_for_input@[player_id as int]@.len());
                                if self.wait_for_input@[player_id as int]@.len() > 0 {
                                    assert(qv[player_id as int][0] == codec::entry_view(self.wait_for_input@[player_id as int]@[0]));
                                }
                            }
                        }
                    }
                }
                proof {
                    assert(command::spelled(a.ps, a.us[player_id as int], a.qs, a.out, player_id, *cmd, ps1, qs1, o_sp));
                    let r = command::submit_result(ps1, qs1, player_id, *cmd, word_valid, self.push_notification);
                    assert(codec::players_view(board.players) == r.0);
                    assert(codec::queues_view(self.wait_for_input) == r.1);
                    assert(command::text_of(notification) == r.3);
                    assert(g == if r.2 { GameState::Buy } else { GameState::TurnToSubmit });
                }
            },
            GameState::Buy => {
                match cmd.buy_offer {
                    Some((true, z)) => {
                        g = GameState::PreDrawCard;
                        if all_in_table(&self.remaining_cards) && board.players[player_id].coin <= usize::MAX - 5 {
                            purchase::buy_card_from(z, &mut self.remaining_cards, &self.cardmeta, board, player_id, &mut self.wait_for_input);
                            assert(board.players@.len() == codec::players_view(board.players).len());
                            assert(self.wait_for_input@.len() == codec::queues_view(self.wait_for_input).len());
                        }
                        let ghost q2 = codec::queues_view(self.wait_for_input);
                        assert(q2[player_id as int].len() == self.wait_for_input@[player_id as int]@.len());
                        if self.wait_for_input[player_id].len() == 0 {
                            self.wait_for_input[player_id].push(None);
                            proof {
                                assert(codec::queue_view(self.wait_for_input@[player_id as int]) =~= q2[player_id as int].push(None));
                                assert(codec::queues_view(self.wait_for_input) =~= q2.update(player_id as int, q2[player_id as int].push(None)));
                            }
                        }
                    },
                    _ => {
                        g = GameState::PreDrawCard;
                    },
                }
            },
            GameState::LockUp => {
                if let Some((true, z)) = cmd.lockup {
                    if z < self.remaining_cards.len() {
                        purchase::lockup_a_card(z, board, player_id, &mut self.remaining_cards, &mut self.wait_for_input, type_is_reply);
                        assert(board.players@.len() == codec::players_view(board.players).len());
                        assert(self.wait_for_input@.len() == codec::queues_view(self.wait_for_input).len());
                    }
                }
                g = GameState::Buy;
            },
            GameState::TrashOther(_) => {
                if let Some((true, z)) = cmd.trash_other {
                    if z < board.players[player_id].hand.len() && board.players[player_id].coin < usize::MAX {
                        purchase::trash_another_card(z, board, player_id, &mut self.wait_for_input, type_is_reply);
                        assert(board.players@.len() == codec::players_view(board.players).len());
                        assert(self.wait_for_input@.len() == codec::queues_view(self.wait_for_input).len());
                    }
                    g = GameState::Buy;
                }
            },
            GameState::PutBackDiscard(ind, responsible) => {
                let asked = match cmd.putback_discard { Some(true) => true, _ => false };
                if asked {
                    let fits = match purchase::putback_position(ind, &self.remaining_cards, &board.players[player_id].discard) {
                        Some(k) => k < self.remaining_cards.len(),
                        None => true,
                    };
                    if fits {
                        purchase::putback_discard(ind, responsible, board, player_id, &mut self.remaining_cards, &mut self.wait_for_input, type_is_reply);
                        assert(board.players@.len() == codec::players_view(board.players).len());
                        assert(self.wait_for_input@.len() == codec::queues_view(self.wait_for_input).len());
                    }
                }
            },
            _ => {},
        }
        self.gamestates.set(player_id, g);
        proof {
            assert(outbox@.subrange(0, o0.len() as int) =~= o0);
            assert(outbox::extends(outbox@, o0));
            let b = command::play_with(codec::players_view(board.players), *self, outbox@);
            assert(b.gs =~= a.gs.update(player_id as int, g));
            if g == a.gs[player_id as int] {
                assert(b.gs =~= a.gs);
            }
            match a.gs[player_id as int] {
                GameState::ShowDraft => {
                    if !(cmd.go_to_shuffle != Some(true) || a.ps[player_id as int].draft.len() >= 5) {
                        assert(b =~= a);
                    }
                    assert(command::phase_played(a, b, command::text_of(notification), player_id, *cmd, word_valid, self.push_notification, self.ticks, self.num_connections, self.turn_index));
                },
                GameState::Buy => {
                    let r = command::buy_step(a, player_id, cmd.buy_offer);
                    assert(b =~= (command::Play { rm: r.0, ps: r.1, qs: r.2, gs: a.gs.update(player_id as int, GameState::PreDrawCard), ..a }));
                    assert(command::phase_played(a, b, command::text_of(notification), player_id, *cmd, word_valid, self.push_notification, self.ticks, self.num_connections, self.turn_index));
                },
                GameState::LockUp => {
                    let r = match cmd.lockup {
                        Some(o) if o.0 && o.1 < a.rm.len() => purchase::lockup_result(o.1, a.rm, a.ps, a.qs, player_id),
                        _ => (a.rm, a.ps, a.qs),
                    };
                    assert(b =~= (command::Play { rm: r.0, ps: r.1, qs: r.2, gs: a.gs.update(player_id as int, GameState::Buy), ..a }));
                    assert(command::phase_played(a, b, command::text_of(notification), player_id, *cmd, word_valid, self.push_notification, self.ticks, self.num_connections, self.turn_index));
                },
                GameState::TrashOther(_) => {
                    match cmd.trash_other {
                        Some(o) if o.0 => {
                            let ps = if o.1 < a.ps[player_id as int].hand.len() && a.ps[player_id as int].coin < usize::MAX { purchase::trash_result(o.1, a.ps, player_id) } else { a.ps };
                            assert(b =~= (command::Play { ps, gs: a.gs.update(player_id as int, GameState::Buy), ..a }));
                        },
                        _ => { assert(b =~= a); },
                    }
                    assert(command::phase_played(a, b, command::text_of(notification), player_id, *cmd, word_valid, self.push_notification, self.ticks, self.num_connections, self.turn_index));
                },
                GameState::PutBackDiscard(ind, responsible) => {
                    let fits = match purchase::putback_index(ind, a.rm, a.ps[player_id as int].discard) {
                        Some(k) => k < a.rm.len(),
                        None => true,
                    };
                    if cmd.putback_discard == Some(true) && fits {
                        let r = purchase::putback_result(ind, responsible, a.rm, a.ps, a.qs, player_id);
                        assert(b =~= (command::Play { rm: r.0, ps: r.1, qs: r.2, ..a }));
                    } else {
                        assert(b =~= a);
                    }
                    assert(command::phase_played(a, b, command::text_of(notification), player_id, *cmd, word_valid, self.push_notification, self.ticks, self.num_connections, self.turn_index));
                },
                GameState::Spell => {
                    assert(command::spelled(a.ps, a.us[player_id as int], a.qs, a.out, player_id, *cmd, b.ps, b.qs, o_sp));
                    assert(command::phase_played(a, b, command::text_of(notification), player_id, *cmd, word_valid, self.push_notification, self.ticks, self.num_connections, self.turn_index));
                },
                GameState::TurnToSubmit => {
                    assert(command::spelled(a.ps, a.us[player_id as int], a.qs, a.out, player_id, *cmd, ps1, qs1, o_sp));
                    assert(command::layout_sent(*cmd, ps1, a.gs, board::offer_row_of(a.rm), self.num_connections, self.turn_index, self.ticks, o_sp, b.out));
                    let r = command::submit_result(ps1, qs1, player_id, *cmd, word_valid, self.push_notification);
                    assert(b.ps == r.0);
                    assert(b.qs == r.1);
                    assert(command::text_of(notification) == r.3);
                    assert(b.gs == if r.2 { a.gs.update(player_id as int, GameState::Buy) } else { a.gs });
                    assert(command::phase_played(a, b, command::text_of(notification), player_id, *cmd, word_valid, self.push_notification, self.ticks, self.num_connections, self.turn_index));
                },
                _ => { assert(b =~= a); assert(command::phase_played(a, b, command::text_of(notification), player_id, *cmd, word_valid, self.push_notification, self.ticks, self.num_connections, self.turn_index)); },
            }
        }
        notification
    }

    /// Sends the board if the player's queue starts with a mark, and then the
    /// player's next request, if the player has a connection.
    fn send_after(&mut self, player_id: usize, outbox: &mut Vec<Outgoing>)
        requires
            old(self).wf(),
            player_id < MAX_SEATS,
        ensures
            final(self).wf(),
            *final(self) == (GameEngine { gamestates: final(self).gamestates, wait_for_input: final(self).wait_for_input, ..*old(self) }),
            outbox::extends(final(outbox)@, old(outbox)@),
            command::sent_after(command::play_of(*old(self), old(outbox)@), command::play_of(*final(self), final(outbox)@),
                player_id, old(self).num_connections, old(self).turn_index, old(self).ticks),
    {
        let ghost o0 = outbox@;
        let ghost a = command::play_of(*self, outbox@);
        let nc = self.num_connections;
        continue_to_broadcast(&mut self.wait_for_input[player_id], nc, &self.remaining_cards, &self.players, &self.gamestates, self.turn_index, self.ticks, outbox);
        let ghost o1 = outbox@;
        let ghost q1 = codec::queue_view(self.wait_for_input@[player_id as int]);
        proof {
            assert(codec::queues_view(self.wait_for_input) =~= a.qs.update(player_id as int, q1));
        }
        if player_id < self.gamestates.len() && player_id < nc {
            let mut g = self.gamestates[player_id];
            continue_to_prob(player_id, &self.wait_for_input[player_id], &mut g, outbox, self.ticks);
            self.gamestates.set(player_id, g);
        }
        proof {
            assert(o1.subrange(0, o0.len() as int) =~= o0);
            assert(outbox::extends(o1, o0));
            assert(outbox::extends(outbox@, o1)) by {
                assert(outbox@.subrange(0, o1.len() as int) =~= o1);
            }
            outbox::lemma_extends_trans(o0, o1, outbox@);
            let b = command::play_of(*self, outbox@);
            assert(board_sent(a.qs[player_id as int], nc, a.rm, a.ps, a.gs, self.turn_index, self.ticks, a.out, q1, o1));
            if player_id < a.gs.len() && player_id < nc {
                assert(b.gs =~= a.gs.update(player_id as int, b.gs[player_id as int]));
            } else {
                assert(b.gs =~= a.gs);
            }
            assert(b.us =~= a.us);
        }
    }

    /// Carries out the option `reply` of the player's first request: the
    /// request leaves the queue, its effect is applied when the player's
    /// tallies and cards allow it, and when only the mark is left the player
    /// moves to the phase of the option (or to drawing). Then the board and
    /// the next request are sent.
    fn reply_step(&mut self, player_id: usize, reply: usize, outbox: &mut Vec<Outgoing>)
        requires
            old(self).wf(),
            player_id < MAX_SEATS,
        ensures
            final(self).wf(),
            *final(self) == (GameEngine {
                players: final(self).players,
                gamestates: final(self).gamestates,
                unknown: final(self).unknown,
                wait_for_input: final(self).wait_for_input,
                remaining_cards: final(self).remaining_cards,
                ..*old(self)
            }),
            outbox::extends(final(outbox)@, old(outbox)@),
            command::replied(command::play_of(*old(self), old(outbox)@), command::play_of(*final(self), final(outbox)@),
                player_id, reply, old(self).num_connections, old(self).turn_index, old(self).ticks),
    {
        let ghost a = command::play_of(*self, outbox@);
        let mut next = GameState::DrawCard;
        if player_id < self.players.len() && self.wait_for_input[player_id].len() > 0 {
            let ghost q0 = codec::queue_view(self.wait_for_input@[player_id as int]);
            let first = self.wait_for_input[player_id].remove(0);
            proof {
                assert(codec::queue_view(self.wait_for_input@[player_id as int]) =~= q0.drop_first());
                assert(codec::queues_view(self.wait_for_input) =~= a.qs.update(player_id as int, q0.drop_first()));
                assert(codec::entry_view(first) == a.qs[player_id as int][0]);
            }
            if let Some(w) = first {
                if reply < w.options.len() {
                    let e = w.options[reply].effect;
                    proof {
                        assert(w@.3[reply as int] == w.options@[reply as int]@);
                    }
                    if reply_ok(&self.players[player_id], &self.remaining_cards, &self.unknown[player_id], e) {
                        let ghost ps0 = self.players@;
                        let ghost us0 = self.unknown@;
                        apply_reply(&mut self.players[player_id], &mut self.remaining_cards, &mut self.unknown[player_id], e, &self.cardmeta);
                        proof {
                            let x = reply_result(a.ps[player_id as int], a.rm, a.us[player_id as int], e);
                            assert(codec::players_view(self.players) =~= a.ps.update(player_id as int, x.0));
                            assert(self.unknown@.map_values(|u: Vec<usize>| u@) =~= a.us.update(player_id as int, x.2));
                        }
                    } else {
                        proof {
                            assert(codec::players_view(self.players) =~= a.ps.update(player_id as int, a.ps[player_id as int]));
                            assert(a.us =~= a.us.update(player_id as int, a.us[player_id as int]));
                        }
                    }
                    next = w.options[reply].next_state;
                }
            }
        }
        let ghost m = command::play_of(*self, outbox@);
        proof {
            let ra = command::reply_applied(a, player_id, reply);
            assert(m =~= ra.0);
            assert(next == ra.1);
        }
        if self.wait_for_input[player_id].len() == 1 && player_id < self.gamestates.len() {
            self.gamestates.set(player_id, next);
        }
        proof {
            assert(codec::queues_view(self.wait_for_input)[player_id as int].len() == self.wait_for_input@[player_id as int]@.len());
            let m2 = if m.qs[player_id as int].len() == 1 && player_id < m.gs.len() { command::Play { gs: m.gs.update(player_id as int, next), ..m } } else { m };
            assert(command::play_of(*self, outbox@) =~= m2);
        }
        self.send_after(player_id, outbox);
    }

    /// Handles a command of a player. `word_valid` is the dictionary's answer
    /// for the word that `word_to_check` gives for this command, if any.
    ///
    /// A command that is no reply acts on the player's phase: ending the
    /// draft, spelling (a layout is shown to every connection), submitting a
    /// word (resolved when the word is valid, and the player then buys),
    /// buying (and then drawing), locking up, trashing, or putting back drawn
    /// cards. The offer row is refilled, the notice of a formed word is sent,
    /// and then the board and the player's next request. A reply carries out
    /// the option chosen in the player's first request. Commands from seats
    /// beyond the table are ignored; steps the tallies or cards cannot take
    /// are left out.
    #[verifier::rlimit(40)]
    pub fn handle_command(&mut self, player_id: usize, cmd: &GameCommand, word_valid: bool, outbox: &mut Vec<Outgoing>)
        requires
            old(self).wf(),
        ensures
            final(self).wf(),
            outbox::extends(final(outbox)@, old(outbox)@),
            command::command_handled(*old(self), old(outbox)@, player_id, *cmd, word_valid, *final(self), final(outbox)@),
    {
        proof { outbox::lemma_extends_refl(outbox@); }
        if player_id >= MAX_SEATS {
            return;
        }
        let ghost o0 = outbox@;
        let ghost e0 = *self;
        let ghost a = command::play_of(*self, outbox@);
        self.count_rec = 1;
        let nc = self.num_connections;
        let mut board = BoardStruct::new(outbox::copy_players(&self.players), &self.remaining_cards);
        let mut type_is_reply = cmd.reply.is_some();
        let mut notification: Option<String> = None;
        proof {
            assert(board.players@.len() == codec::players_view(board.players).len());
            assert(self.players@.len() == codec::players_view(self.players).len());
        }
        if !type_is_reply && player_id < nc && player_id < self.gamestates.len() {
            notification = self.play_phase(player_id, cmd, word_valid, &mut board, &mut type_is_reply, outbox);
        }
        let ghost o1 = outbox@;
        let ghost s1 = command::play_with(codec::players_view(board.players), *self, outbox@);
        let ghost n = command::text_of(notification);
        proof {
            assert(o1.subrange(0, o0.len() as int) =~= o0);
            if !(cmd.reply is None && player_id < nc && player_id < a.gs.len()) {
                assert(s1 =~= a);
            }
            assert(command::phase_step(a, s1, n, player_id, *cmd, word_valid, nc, e0.push_notification, e0.ticks, e0.turn_index));
        }
        self.players = board.players;
        let missing = 7 - board.offer_row.len();
        let ghost rm1 = self.remaining_cards@;
        let ghost e1 = *self;
        let mut m: usize = 0;
        while m < missing
            invariant
                m <= missing,
                self.wf(),
                *self == (GameEngine { remaining_cards: self.remaining_cards, ..e1 }),
                self.remaining_cards@ == command::popped(rm1, m as int),
            decreases missing - m,
        {
            let ghost before = self.remaining_cards@;
            if let Some(x) = self.remaining_cards.pop() {
                board.offer_row.push(x);
                assert(self.remaining_cards@ =~= command::popped(rm1, m + 1));
            } else {
                assert(command::popped(rm1, m + 1) =~= Seq::<usize>::empty());
            }
            m = m + 1;
        }
        let ghost s2 = command::play_of(*self, outbox@);
        proof {
            assert(s2 =~= (command::Play { rm: command::popped(s1.rm, command::refill_count(a.rm)), ..s1 }));
        }
        let ghost o2s = outbox@;
        if let Some(s) = &notification {
            let mut c: usize = 0;
            while c < nc
                invariant
                    c <= nc,
                    outbox@.len() == o2s.len() + c,
                    outbox@.subrange(0, o2s.len() as int) == o2s,
                    forall|k: int| 0 <= k < c ==> end_game::is_notice_msg(#[trigger] outbox@[o2s.len() + k], k as usize, s@),
                decreases nc - c,
            {
                let ghost before = outbox@;
                outbox.push(Outgoing::Notification { to: c, text: s.clone() });
                assert(outbox@.subrange(0, o2s.len() as int) =~= before.subrange(0, o2s.len() as int));
                c = c + 1;
            }
        }
        let ghost o2 = outbox@;
        let ghost s3 = command::play_of(*self, outbox@);
        proof {
            assert(o2.subrange(0, o1.len() as int) =~= o1);
            assert(o2.subrange(0, o2.len() as int) =~= o2);
            match n {
                Some(t) => {
                    let tail = o2.subrange(o1.len() as int, o2.len() as int);
                    assert forall|k: int| 0 <= k < nc implies end_game::is_notice_msg(#[trigger] tail[k], k as usize, t) by {
                        assert(tail[k] == o2[o1.len() + k]);
                    }
                    assert(s3 =~= (command::Play { out: s3.out, ..s2 }));
                },
                None => {
                    assert(s3 =~= s2);
                },
            }
            assert(command::notified(s2, s3, n, nc));
        }
        if !type_is_reply {
            self.send_after(player_id, outbox);
        }
        let ghost o3 = outbox@;
        let ghost s4 = command::play_of(*self, outbox@);
        proof {
            assert(o3.subrange(0, o2.len() as int) =~= o2);
            assert(o3.subrange(0, o3.len() as int) =~= o3);
            assert(command::send_step(s3, s4, player_id, *cmd, nc, e0.turn_index, e0.ticks));
        }
        if type_is_reply {
            if let Some(reply) = cmd.reply {
                self.reply_step(player_id, reply, outbox);
            }
        }
        if cmd.killserver == Some(true) {
            self.wait_for_break = true;
        }
        proof {
            assert(outbox::extends(o1, o0));
            assert(outbox::extends(o2, o1));
            assert(outbox::extends(o3, o2));
            assert(outbox::extends(outbox@, o3)) by {
                assert(outbox@.subrange(0, o3.len() as int) =~= o3);
            }
            outbox::lemma_extends_trans(o0, o1, o2);
            outbox::lemma_extends_trans(o0, o2, o3);
            outbox::lemma_extends_trans(o0, o3, outbox@);
            if cmd.reply is None {
                assert(command::play_of(*self, outbox@) =~= s4);
            }
            assert(command::reply_done(s4, command::play_of(*self, outbox@), player_id, *cmd, nc, e0.turn_index, e0.ticks));
        }
    }
}

/// What an answer does, for each effect it carries, when it is allowed:
/// - nothing changes for `Nothing`;
/// - `LoseInk`, `LoseRemover`, `GainInk`, `GainRemover`, `GainVp`, `GainCoin`
///   take one ink or remover, give one, or add the points or coins named;
/// - trashing a card for points or coins takes that card out of the hand and
///   adds the points or coins named;
/// - taking a remaining card moves it from the remaining cards to the top of
///   the discard pile;
/// - buying a locked-up card with ink spends every coin and three ink for each
///   coin missing, and moves the card from the locked-up cards to the discard pile;
/// - spending an ink remover takes one remover and clears the ink mark of
///   every laid-out copy of the card;
/// - taking an unknown card with ink takes one ink and lays out the first
///   unknown card, marked as inked.
/// No other tally or pile changes.
pub proof fn lemma_reply_effects(p: PlayerView, rm: Seq<usize>, u: Seq<usize>, e: ReplyEffect)
    requires
        reply_allowed(p, rm, u, e),
        u.len() <= usize::MAX,
    ensures
        ({
            let x = reply_result(p, rm, u, e);
            let q = x.0;
            match e {
                ReplyEffect::Nothing => x == (p, rm, u),
                ReplyEffect::LoseInk => q.ink + 1 == p.ink && q == (PlayerView { ink: q.ink, ..p }) && x.1 == rm && x.2 == u,
                ReplyEffect::LoseRemover => q.remover + 1 == p.remover && q == (PlayerView { remover: q.remover, ..p }) && x.1 == rm && x.2 == u,
                ReplyEffect::GainInk => q.ink == p.ink + 1 && q == (PlayerView { ink: q.ink, ..p }) && x.1 == rm && x.2 == u,
                ReplyEffect::GainRemover => q.remover == p.remover + 1 && q == (PlayerView { remover: q.remover, ..p }) && x.1 == rm && x.2 == u,
                ReplyEffect::GainVp(n) => q.vp == p.vp + n && q == (PlayerView { vp: q.vp, ..p }) && x.1 == rm && x.2 == u,
                ReplyEffect::GainCoin(n) => q.coin == p.coin + n && q == (PlayerView { coin: q.coin, ..p }) && x.1 == rm && x.2 == u,
                ReplyEffect::TrashForVp(c, v) => {
                    &&& q.vp == p.vp + v
                    &&& q.hand.len() + 1 == p.hand.len()
                    &&& q.hand.to_multiset().insert(c) == p.hand.to_multiset()
                    &&& q == (PlayerView { vp: q.vp, hand: q.hand, ..p })
                    &&& x.1 == rm && x.2 == u
                },
                ReplyEffect::TrashForCoin(c, v) => {
                    &&& q.coin == p.coin + v
                    &&& q.hand.len() + 1 == p.hand.len()
                    &&& q.hand.to_multiset().insert(c) == p.hand.to_multiset()
                    &&& q == (PlayerView { coin: q.coin, hand: q.hand, ..p })
                    &&& x.1 == rm && x.2 == u
                },
                ReplyEffect::TakeRemaining(c) => {
                    &&& q.discard == p.discard.push(rm[c as int])
                    &&& x.1 == rm.subrange(0, c as int) + rm.subrange(c + 1, rm.len() as int)
                    &&& q == (PlayerView { discard: q.discard, ..p })
                    &&& x.2 == u
                },
                ReplyEffect::BuyLockupWithInk(cost, card, position) => {
                    &&& q.coin == 0
                    &&& q.ink + 3 * (cost - p.coin) == p.ink
                    &&& q.discard == p.discard.push(card)
                    &&& q.lockup == p.lockup.subrange(0, position as int) + p.lockup.subrange(position + 1, p.lockup.len() as int)
                    &&& q == (PlayerView { coin: q.coin, ink: q.ink, discard: q.discard, lockup: q.lockup, ..p })
                    &&& x.1 == rm && x.2 == u
                },
                ReplyEffect::RemoveInk(r) => {
                    &&& q.remover + 1 == p.remover
                    &&& q.arranged.len() == p.arranged.len()
                    &&& forall|j: int| 0 <= j < p.arranged.len() ==> (#[trigger] q.arranged[j]) == if p.arranged[j].0 == r {
                        (p.arranged[j].0, false, p.arranged[j].2, p.arranged[j].3) } else { p.arranged[j] }
                    &&& q == (PlayerView { remover: q.remover, arranged: q.arranged, ..p })
                    &&& x.1 == rm && x.2 == u
                },
                ReplyEffect::TakeUnknownCard => {
                    &&& q.ink + 1 == p.ink
                    &&& q.arranged == p.arranged.push((u[0], true, None, false))
                    &&& x.2 == u.subrange(1, u.len() as int)
                    &&& q.draftlen + 1 == u.len()
                    &&& q == (PlayerView { ink: q.ink, arranged: q.arranged, draftlen: q.draftlen, ..p })
                    &&& x.1 == rm
                },
                ReplyEffect::DoubleAdjacent(..) => x.1 == rm && x.2 == u,
            }
        }),
{
    broadcast use vstd::seq_lib::group_to_multiset_ensures;
    broadcast use vstd::multiset::group_multiset_axioms;
    let x = reply_result(p, rm, u, e);
    match e {
        ReplyEffect::TrashForVp(c, v) => {
            crate::piles::lemma_remove_first_fewer(p.hand, c);
            let h = board::remove_first(p.hand, c);
            assert(h.to_multiset().len() == h.len());
            assert(p.hand.to_multiset().len() == p.hand.len());
        },
        ReplyEffect::TrashForCoin(c, v) => {
            crate::piles::lemma_remove_first_fewer(p.hand, c);
            let h = board::remove_first(p.hand, c);
            assert(h.to_multiset().len() == h.len());
            assert(p.hand.to_multiset().len() == p.hand.len());
        },
        ReplyEffect::TakeRemaining(c) => {
            assert(rm.remove(c as int) =~= rm.subrange(0, c as int) + rm.subrange(c + 1, rm.len() as int));
        },
        ReplyEffect::BuyLockupWithInk(cost, card, position) => {
            assert(p.lockup.remove(position as int) =~= p.lockup.subrange(0, position as int) + p.lockup.subrange(position + 1, p.lockup.len() as int));
        },
        ReplyEffect::TakeUnknownCard => {
            assert(u.remove(0) =~= u.subrange(1, u.len() as int));
        },
        _ => {},
    }
}

} // verus!
