use vstd::prelude::*;
use crate::board::{self, BoardStruct};
use crate::codec::{self, BoardCodec, GameState, Outgoing, Player, PlayerView, WaitForInputType};
use crate::outbox;
use crate::random;
use crate::cards::{self, ListCard};
use crate::game_engine;
use crate::resolve_cards;

verus! {

broadcast use vstd::seq_lib::group_to_multiset_ensures;

/// The player after refilling the hand: the old hand goes to the discard pile,
/// five cards are drawn from the end of the unknown cards, and when these run
/// out the discard pile is shuffled into them. Layout and skip list are
/// cleared, and unused coins become ink.
pub open spec fn redrawn(p0: PlayerView, u0: Seq<usize>, p: PlayerView, u: Seq<usize>) -> bool {
    let d0 = p0.discard + p0.hand;
    &&& p.hand.len() == if u0.len() + d0.len() < 5 { u0.len() + d0.len() } else { 5 }
    &&& if u0.len() >= 5 {
        &&& p.hand == u0.subrange(u0.len() - 5, u0.len() as int).reverse()
        &&& u == u0.subrange(0, u0.len() - 5)
        &&& p.discard == d0
    } else {
        &&& p.discard == Seq::<usize>::empty()
        &&& p.hand.subrange(0, u0.len() as int) == u0.reverse()
        &&& p.hand.to_multiset().add(u.to_multiset()) == u0.to_multiset().add(d0.to_multiset())
    }
    &&& p == PlayerView {
        hand: p.hand,
        discard: p.discard,
        skip_cards: Seq::empty(),
        arranged: Seq::empty(),
        draftlen: u.len() as usize,
        ink: (p0.ink + p0.coin) as usize,
        coin: 0,
        ..p0
    }
}

/// Refills the hand of one player from the unknown cards.
pub fn redraw_player(_p: &mut Player, unknown: &mut Vec<usize>)
    requires
        old(_p).ink + old(_p).coin <= usize::MAX,
    ensures
        redrawn(old(_p)@, old(unknown)@, final(_p)@, final(unknown)@),
{
    let ghost p0 = _p@;
    let ghost u0 = unknown@;
    let ghost d0 = p0.discard + p0.hand;
    let old_hand = codec::copy_ids(&_p.hand);
    let mut k: usize = 0;
    while k < old_hand.len()
        invariant
            k <= old_hand@.len(),
            old_hand@ == p0.hand,
            _p.discard@ == p0.discard + p0.hand.subrange(0, k as int),
            _p@ == (PlayerView { discard: _p.discard@, ..p0 }),
        decreases old_hand@.len() - k,
    {
        _p.discard.push(old_hand[k]);
        assert(p0.hand.subrange(0, k + 1) =~= p0.hand.subrange(0, k as int).push(old_hand@[k as int]));
        k = k + 1;
    }
    assert(p0.hand.subrange(0, k as int) =~= p0.hand);
    _p.hand = Vec::new();
    let ghost mut refilled = false;
    let mut i: usize = 0;
    while i < 5
        invariant
            i <= 5,
            d0 == p0.discard + p0.hand,
            _p@ == (PlayerView { discard: _p.discard@, hand: _p.hand@, ..p0 }),
            !refilled ==> {
                &&& i <= u0.len()
                &&& _p.hand@ == u0.subrange(u0.len() - i, u0.len() as int).reverse()
                &&& unknown@ == u0.subrange(0, u0.len() - i)
                &&& _p.discard@ == d0
            },
            refilled ==> u0.len() < i,
            refilled ==> u0.len() <= _p.hand@.len(),
            refilled ==> _p.discard@ == Seq::<usize>::empty(),
            refilled ==> _p.hand@.subrange(0, u0.len() as int) == u0.reverse(),
            refilled ==> _p.hand@.to_multiset().add(unknown@.to_multiset()) == u0.to_multiset().add(d0.to_multiset()),
            refilled ==> _p.hand@.len() == if u0.len() + d0.len() < i { u0.len() + d0.len() } else { i as nat },
            refilled ==> _p.hand@.len() + unknown@.len() == u0.len() + d0.len(),
        decreases 5 - i,
    {
        let ghost hand_before = _p.hand@;
        let ghost unknown_before = unknown@;
        if let Some(n) = unknown.pop() {
            _p.hand.push(n);
            proof {
                if !refilled {
                    assert(_p.hand@ =~= u0.subrange(u0.len() - (i + 1), u0.len() as int).reverse());
                    assert(unknown@ =~= u0.subrange(0, u0.len() - (i + 1)));
                } else {
                    let before_u = unknown@.push(n);
                    assert(before_u =~= unknown_before);
                    assert(before_u.to_multiset() =~= unknown@.to_multiset().insert(n));
                    assert(_p.hand@.to_multiset() =~= hand_before.to_multiset().insert(n));
                    assert(_p.hand@.to_multiset().add(unknown@.to_multiset()) =~= hand_before.to_multiset().add(before_u.to_multiset()));
                    assert(_p.hand@.subrange(0, u0.len() as int) =~= hand_before.subrange(0, u0.len() as int));
                    assert(_p.hand@.len() + unknown@.len() == u0.len() + d0.len()) by {
                        assert(_p.hand@.to_multiset().add(unknown@.to_multiset()).len() == u0.to_multiset().add(d0.to_multiset()).len());
                    }
                }
            }
        } else {
            proof {
                if refilled {
                    assert(hand_before.len() + 0 == u0.len() + d0.len()) by {
                        assert(hand_before.to_multiset().add(unknown@.to_multiset()).len() == u0.to_multiset().add(d0.to_multiset()).len());
                    }
                }
            }
            let ghost was_refilled = refilled;
            proof {
                if !was_refilled {
                    assert(i == u0.len());
                    assert(u0.subrange(u0.len() - i, u0.len() as int) =~= u0);
                }
            }
            let ghost hand_mid = _p.hand@;
            *unknown = codec::copy_ids(&_p.discard);
            _p.discard = Vec::new();
            random::shuffle_random(unknown);
            proof {
                if !was_refilled {
                    refilled = true;
                    assert(_p.hand@.to_multiset() =~= u0.to_multiset()) by {
                        u0.lemma_reverse_to_multiset();
                    }
                    assert(_p.hand@.subrange(0, u0.len() as int) =~= u0.reverse());
                } else {
                    assert(unknown@.len() == 0);
                }
            }
            let ghost unknown_mid = unknown@;
            proof {
                if !was_refilled {
                    assert(unknown_mid.to_multiset() =~= d0.to_multiset());
                    assert(hand_mid.to_multiset().add(unknown_mid.to_multiset()) =~= u0.to_multiset().add(d0.to_multiset()));
                }
            }
            if let Some(n) = unknown.pop() {
                _p.hand.push(n);
                proof {
                    let before_u = unknown@.push(n);
                    assert(before_u =~= unknown_mid);
                    assert(unknown_mid.to_multiset() =~= unknown@.to_multiset().insert(n));
                    assert(_p.hand@.to_multiset() =~= hand_mid.to_multiset().insert(n));
                    assert(_p.hand@.to_multiset().add(unknown@.to_multiset()) =~= u0.to_multiset().add(d0.to_multiset()));
                    assert(_p.hand@.subrange(0, u0.len() as int) =~= hand_mid.subrange(0, u0.len() as int));
                    assert(_p.hand@.len() + unknown@.len() == u0.len() + d0.len()) by {
                        assert(_p.hand@.to_multiset().add(unknown@.to_multiset()).len() == u0.to_multiset().add(d0.to_multiset()).len());
                    }
                }
            } else {
                proof {
                    assert(unknown_mid =~= Seq::<usize>::empty());
                    if !was_refilled {
                        assert(unknown_mid.to_multiset() =~= vstd::multiset::Multiset::<usize>::empty());
                        assert(_p.hand@ == hand_mid);
                        assert(unknown@ == unknown_mid);
                    }
                    assert(_p.hand@.len() + 0 == u0.len() + d0.len()) by {
                        assert(_p.hand@.to_multiset().add(unknown@.to_multiset()).len() == u0.to_multiset().add(d0.to_multiset()).len());
                    }
                }
            }
        }
        i = i + 1;
    }
    _p.skip_cards = Vec::new();
    _p.arranged = Vec::new();
    _p.draftlen = unknown.len();
    _p.ink += _p.coin;
    _p.coin = 0;
    proof {
        if !refilled {
            assert(u0.len() >= 5);
        } else {
            assert(_p.hand@.len() == if u0.len() + d0.len() < 5 { u0.len() + d0.len() } else { 5 });
        }
        assert(_p@.arranged =~= Seq::<codec::ArrangedView>::empty());
    }
}

/// Every player whose phase is `PreDrawCard` refills the hand from the
/// unknown cards kept for that player; the others stay as they are.
pub fn redraw_cards_to_hand_size(players: &mut Vec<Player>, unknown: &mut Vec<Vec<usize>>, gamestates: &mut Vec<GameState>, turn_index: &mut usize)
    requires
        forall|i: int| #![trigger old(gamestates)@[i]] 0 <= i < old(players)@.len() && i < old(gamestates)@.len() && old(gamestates)@[i] == GameState::PreDrawCard ==> {
            &&& i < old(unknown)@.len()
            &&& old(players)@[i].ink + old(players)@[i].coin <= usize::MAX
        },
    ensures
        final(gamestates)@ == old(gamestates)@,
        *final(turn_index) == *old(turn_index),
        final(players)@.len() == old(players)@.len(),
        final(unknown)@.len() == old(unknown)@.len(),
        forall|i: int| 0 <= i < old(players)@.len() ==>
            if i < old(gamestates)@.len() && old(gamestates)@[i] == GameState::PreDrawCard {
                redrawn(old(players)@[i]@, old(unknown)@[i]@, #[trigger] final(players)@[i]@, final(unknown)@[i]@)
            } else {
                final(players)@[i]@ == old(players)@[i]@
            },
        forall|i: int| 0 <= i < old(unknown)@.len() && !(i < old(players)@.len() && i < old(gamestates)@.len() && old(gamestates)@[i] == GameState::PreDrawCard)
            ==> #[trigger] final(unknown)@[i] == old(unknown)@[i],
{
    let ghost ps0 = players@;
    let ghost us0 = unknown@;
    let mut i: usize = 0;
    while i < players.len()
        invariant
            i <= players@.len(),
            players@.len() == ps0.len(),
            unknown@.len() == us0.len(),
            gamestates@ == old(gamestates)@,
            forall|k: int| #![trigger gamestates@[k]] 0 <= k < ps0.len() && k < gamestates@.len() && gamestates@[k] == GameState::PreDrawCard ==> {
                &&& k < us0.len()
                &&& ps0[k].ink + ps0[k].coin <= usize::MAX
            },
            forall|k: int| #![trigger players@[k]] 0 <= k < ps0.len() ==>
                if k < i && k < gamestates@.len() && gamestates@[k] == GameState::PreDrawCard {
                    redrawn(ps0[k]@, us0[k]@, players@[k]@, unknown@[k]@)
                } else {
                    players@[k] == ps0[k]
                },
            forall|k: int| 0 <= k < us0.len() && !(k < i && k < ps0.len() && k < gamestates@.len() && gamestates@[k] == GameState::PreDrawCard)
                ==> #[trigger] unknown@[k] == us0[k],
        decreases players@.len() - i,
    {
        if i < gamestates.len() && gamestates[i] == GameState::PreDrawCard {
            assert(players@[i as int] == ps0[i as int]);
            assert(unknown@[i as int] == us0[i as int]);
            let ghost before_p = players@;
            let ghost before_u = unknown@;
            redraw_player(&mut players[i], &mut unknown[i]);
            assert(forall|k: int| 0 <= k < before_p.len() && k != i ==> players@[k] == before_p[k]);
            assert(forall|k: int| 0 <= k < before_u.len() && k != i ==> unknown@[k] == before_u[k]);
        }
        i = i + 1;
    }
}

/// Whether some player is in the given phase.
pub open spec fn any_state(gs: Seq<GameState>, g: GameState) -> bool {
    exists|i: int| 0 <= i < gs.len() && gs[i] == g
}

/// The phases with player `ti`, if there is one, put in phase `g`.
pub open spec fn set_at(gs: Seq<GameState>, ti: usize, g: GameState) -> Seq<GameState> {
    if ti < gs.len() { gs.update(ti as int, g) } else { gs }
}

/// The phases after waiting requests are noticed.
pub open spec fn after_wait(gs: Seq<GameState>, ti: usize) -> Seq<GameState> {
    if any_state(gs, GameState::PreWaitForReply) { set_at(gs, ti, GameState::WaitForReply) } else { gs }
}

/// Whether some player is in a `PreTrashOther` phase.
pub open spec fn any_pre_trash_state(gs: Seq<GameState>) -> bool {
    exists|i: int| 0 <= i < gs.len() && gs[i] is PreTrashOther
}

/// Whether some player is in a `PrePutBackDiscard` phase.
pub open spec fn any_pre_putback_state(gs: Seq<GameState>) -> bool {
    exists|i: int| 0 <= i < gs.len() && gs[i] is PrePutBackDiscard
}

/// The phase that follows a `Pre` phase carrying values.
pub open spec fn taken_up(g: GameState) -> GameState {
    match g {
        GameState::PreTrashOther(z) => GameState::TrashOther(z),
        GameState::PrePutBackDiscard(z, j) => GameState::PutBackDiscard(z, j),
        _ => g,
    }
}

/// Whether the player on turn takes up a trash phase.
pub open spec fn takes_trash(gs: Seq<GameState>, ti: usize) -> bool {
    any_pre_trash_state(gs) && ti < gs.len() && gs[ti as int] is PreTrashOther
}

/// Whether the player on turn takes up a put-back phase.
pub open spec fn takes_putback(gs: Seq<GameState>, ti: usize) -> bool {
    any_pre_putback_state(gs) && ti < gs.len() && gs[ti as int] is PrePutBackDiscard
}

/// The phases after the plain `Pre` phases, for the player on turn.
pub open spec fn after_plain(gs1: Seq<GameState>, ti: usize) -> Seq<GameState> {
    let gs2 = if any_state(gs1, GameState::PreBuy) { set_at(gs1, ti, GameState::Buy) } else { gs1 };
    let gs3 = if any_state(gs2, GameState::PreTurnToSubmit) { set_at(gs2, ti, GameState::TurnToSubmit) } else { gs2 };
    if any_state(gs3, GameState::PreSpell) { set_at(gs3, ti, GameState::Spell) } else { gs3 }
}

/// Whether a plain `Pre` phase was taken up.
pub open spec fn plain_taken(gs1: Seq<GameState>, ti: usize) -> bool {
    let gs2 = if any_state(gs1, GameState::PreBuy) { set_at(gs1, ti, GameState::Buy) } else { gs1 };
    let gs3 = if any_state(gs2, GameState::PreTurnToSubmit) { set_at(gs2, ti, GameState::TurnToSubmit) } else { gs2 };
    (any_state(gs1, GameState::PreBuy) || any_state(gs2, GameState::PreTurnToSubmit) || any_state(gs3, GameState::PreSpell)) && ti < gs1.len()
}

/// The phases after the trash phase of the player on turn is taken up.
pub open spec fn after_trash(gs4: Seq<GameState>, ti: usize) -> Seq<GameState> {
    if takes_trash(gs4, ti) { gs4.update(ti as int, taken_up(gs4[ti as int])) } else { gs4 }
}

/// The phases after the put-back phase of the player on turn is taken up.
pub open spec fn after_putback(gs5: Seq<GameState>, ti: usize) -> Seq<GameState> {
    if takes_putback(gs5, ti) { gs5.update(ti as int, taken_up(gs5[ti as int])) } else { gs5 }
}

/// The phases after the `Pre` phases of the player on turn are taken up,
/// with whether the board is to be sent again.
pub open spec fn after_pre(gs1: Seq<GameState>, ti: usize) -> (Seq<GameState>, bool) {
    let gs4 = after_plain(gs1, ti);
    let gs5 = after_trash(gs4, ti);
    (after_putback(gs5, ti), plain_taken(gs1, ti) || takes_trash(gs4, ti) || takes_putback(gs5, ti))
}

/// Whether the turn passes: someone is in `PreDrawCard` and so is the player on turn.
pub open spec fn turn_passes(gs6: Seq<GameState>, ti: usize, n: nat) -> bool {
    any_state(gs6, GameState::PreDrawCard) && ti < n && ti < gs6.len() && gs6[ti as int] == GameState::PreDrawCard
}

/// The next player on turn among `n` players.
pub open spec fn next_turn(ti: usize, n: nat) -> usize {
    if ti + 1 < n { (ti + 1) as usize } else { 0 }
}

/// The phases after a draw: the player on turn submits, the others spell.
pub open spec fn after_draw(gs6: Seq<GameState>, ti2: usize) -> Seq<GameState> {
    if any_state(gs6, GameState::PreDrawCard) {
        Seq::new(gs6.len(), |i: int| if i != ti2 { GameState::Spell } else { GameState::TurnToSubmit })
    } else {
        gs6
    }
}

/// The message telling connection `to` whose turn it is.
pub open spec fn is_turn_msg(m: Outgoing, to: usize, ti: usize) -> bool {
    m matches Outgoing::TurnIndex { to: t, index } && t == to && index == ti
}

/// The board messages of a passed turn: to each connection the new turn, then the board.
pub open spec fn is_turn_broadcast(ms: Seq<Outgoing>, nc: usize, ps: Seq<PlayerView>, gs: Seq<GameState>, offer: Seq<usize>, ti: usize, ticks: Option<u16>) -> bool {
    &&& ms.len() == 2 * nc
    &&& forall|c: int| 0 <= c < nc ==> is_turn_msg(#[trigger] ms[2 * c], c as usize, ti)
    &&& forall|c: int| 0 <= c < nc ==> outbox::is_board_msg(#[trigger] ms[2 * c + 1], c as usize, ps, gs, offer, ti, ticks)
}

/// Sends the new turn and then the board to each connection.
fn broadcast_turn(outbox: &mut Vec<Outgoing>, nc: usize, players: &Vec<Player>, gamestates: &Vec<GameState>, offer_row: &Vec<usize>, turn_index: usize, ticks: Option<u16>)
    ensures
        final(outbox)@.len() == old(outbox)@.len() + 2 * nc,
        final(outbox)@.subrange(0, old(outbox)@.len() as int) == old(outbox)@,
        is_turn_broadcast(final(outbox)@.subrange(old(outbox)@.len() as int, final(outbox)@.len() as int), nc,
            codec::players_view(*players), gamestates@, offer_row@, turn_index, ticks),
{
    let ghost start = outbox@.len();
    let mut c: usize = 0;
    while c < nc
        invariant
            c <= nc,
            outbox@.len() == start + 2 * c,
            outbox@.subrange(0, start as int) == old(outbox)@,
            start == old(outbox)@.len(),
            forall|k: int| 0 <= k < c ==> is_turn_msg(#[trigger] outbox@[start + 2 * k], k as usize, turn_index),
            forall|k: int| 0 <= k < c ==> outbox::is_board_msg(#[trigger] outbox@[start + 2 * k + 1], k as usize, codec::players_view(*players), gamestates@, offer_row@, turn_index, ticks),
        decreases nc - c,
    {
        outbox.push(Outgoing::TurnIndex { to: c, index: turn_index });
        let b = BoardCodec {
            players: outbox::copy_players(players),
            gamestates: outbox::copy_states(gamestates),
            offer_row: codec::copy_ids(offer_row),
            turn_index,
            ticks,
        };
        outbox.push(Outgoing::Board { to: c, board: b });
        c = c + 1;
    }
    let ghost tail = outbox@.subrange(start as int, outbox@.len() as int);
    assert forall|k: int| 0 <= k < nc implies is_turn_msg(#[trigger] tail[2 * k], k as usize, turn_index) by {
        assert(tail[2 * k] == outbox@[start + 2 * k]);
    }
    assert forall|k: int| 0 <= k < nc implies outbox::is_board_msg(#[trigger] tail[2 * k + 1], k as usize, codec::players_view(*players), gamestates@, offer_row@, turn_index, ticks) by {
        assert(tail[2 * k + 1] == outbox@[start + 2 * k + 1]);
    }
}

/// Whether some player is in the given phase.
pub(crate) fn any_in(gs: &Vec<GameState>, g: GameState) -> (b: bool)
    ensures
        b == any_state(gs@, g),
{
    let mut i: usize = 0;
    while i < gs.len()
        invariant
            i <= gs@.len(),
            forall|j: int| 0 <= j < i ==> gs@[j] != g,
        decreases gs@.len() - i,
    {
        if gs[i] == g {
            return true;
        }
        i = i + 1;
    }
    false
}

fn any_pre_trash(gs: &Vec<GameState>) -> (b: bool)
    ensures
        b == any_pre_trash_state(gs@),
{
    let mut i: usize = 0;
    while i < gs.len()
        invariant
            i <= gs@.len(),
            forall|j: int| 0 <= j < i ==> !(gs@[j] is PreTrashOther),
        decreases gs@.len() - i,
    {
        if let GameState::PreTrashOther(_) = gs[i] {
            return true;
        }
        i = i + 1;
    }
    false
}

fn any_pre_putback(gs: &Vec<GameState>) -> (b: bool)
    ensures
        b == any_pre_putback_state(gs@),
{
    let mut i: usize = 0;
    while i < gs.len()
        invariant
            i <= gs@.len(),
            forall|j: int| 0 <= j < i ==> !(gs@[j] is PrePutBackDiscard),
        decreases gs@.len() - i,
    {
        if let GameState::PrePutBackDiscard(_, _) = gs[i] {
            return true;
        }
        i = i + 1;
    }
    false
}

fn set_state(gs: &mut Vec<GameState>, ti: usize, g: GameState)
    ensures
        final(gs)@ == set_at(old(gs)@, ti, g),
{
    if ti < gs.len() {
        gs.set(ti, g);
    }
}

/// Takes up the plain `Pre` phases for the player on turn.
fn take_up_pre(gs: &mut Vec<GameState>, ti: usize) -> (need: bool)
    ensures
        final(gs)@ == after_pre(old(gs)@, ti).0,
        need == after_pre(old(gs)@, ti).1,
{
    let ghost g1 = gs@;
    let mut need = false;
    let b = any_in(gs, GameState::PreBuy);
    if b {
        set_state(gs, ti, GameState::Buy);
    }
    let ghost g2 = gs@;
    let t = any_in(gs, GameState::PreTurnToSubmit);
    if t {
        set_state(gs, ti, GameState::TurnToSubmit);
    }
    let ghost g3 = gs@;
    let sp = any_in(gs, GameState::PreSpell);
    if sp {
        set_state(gs, ti, GameState::Spell);
    }
    let ghost g4 = gs@;
    if (b || t || sp) && ti < gs.len() {
        need = true;
    }
    assert(g4 == after_plain(g1, ti));
    assert(need == plain_taken(g1, ti));
    let mut tr = false;
    if any_pre_trash(gs) {
        if ti < gs.len() {
            if let GameState::PreTrashOther(z) = gs[ti] {
                tr = true;
                gs.set(ti, GameState::TrashOther(z));
            }
        }
    }
    let ghost g5 = gs@;
    assert(g5 == after_trash(g4, ti));
    assert(tr == takes_trash(g4, ti));
    let mut pb = false;
    if any_pre_putback(gs) {
        if ti < gs.len() {
            if let GameState::PrePutBackDiscard(z, j) = gs[ti] {
                pb = true;
                gs.set(ti, GameState::PutBackDiscard(z, j));
            }
        }
    }
    assert(gs@ == after_putback(g5, ti));
    assert(pb == takes_putback(g5, ti));
    need || tr || pb
}

/// The phases once the `Pre` phases are taken up, before a draw.
pub open spec fn upd_before_draw(gs0: Seq<GameState>, ti0: usize) -> Seq<GameState> {
    after_pre(after_wait(gs0, ti0), ti0).0
}

/// Whether a plain or valued `Pre` phase was taken up.
pub open spec fn upd_need(gs0: Seq<GameState>, ti0: usize) -> bool {
    after_pre(after_wait(gs0, ti0), ti0).1
}

/// Whether the turn passes in an update.
pub open spec fn upd_passes(gs0: Seq<GameState>, ti0: usize, n: nat) -> bool {
    turn_passes(upd_before_draw(gs0, ti0), ti0, n)
}

/// The player on turn after an update.
pub open spec fn upd_turn(gs0: Seq<GameState>, ti0: usize, n: nat) -> usize {
    if upd_passes(gs0, ti0, n) { next_turn(ti0, n) } else { ti0 }
}

/// The phases after an update.
pub open spec fn upd_phases(gs0: Seq<GameState>, ti0: usize, n: nat) -> Seq<GameState> {
    after_draw(upd_before_draw(gs0, ti0), upd_turn(gs0, ti0, n))
}

/// Whether the waiting request of the player on turn is sent.
pub open spec fn upd_request(gs0: Seq<GameState>, ti0: usize, qs: Seq<Seq<Option<codec::WaitView>>>, nc: usize) -> bool {
    any_state(gs0, GameState::PreWaitForReply) && qs[ti0 as int].len() > 0 && qs[ti0 as int][0] is Some && ti0 < nc
}

/// The number of messages sent for waiting requests.
pub open spec fn upd_len_a(gs0: Seq<GameState>, ti0: usize, qs: Seq<Seq<Option<codec::WaitView>>>, nc: usize) -> int {
    if any_state(gs0, GameState::PreWaitForReply) { nc + if upd_request(gs0, ti0, qs, nc) { 1int } else { 0int } } else { 0 }
}

/// What moving the phases on does, from the phases `gs0`, the seat on turn
/// `ti0`, the queues `qs0`, the players `ps`, the remaining cards and the
/// messages `o0`: a waiting request is sent to the seat on turn after the
/// board; the plain phases are taken up; when the seat on turn has drawn, its
/// hand is sent and the turn passes; the board is sent whenever something
/// changed.
pub open spec fn phases_moved_on(gs0: Seq<GameState>, ti0: usize, qs0: Seq<Seq<Option<codec::WaitView>>>, ps: Seq<PlayerView>, rem: Seq<usize>,
    nc: usize, ticks: Option<u16>, o0: Seq<Outgoing>, gs: Seq<GameState>, ti: usize, qs: Seq<Seq<Option<codec::WaitView>>>, o: Seq<Outgoing>) -> bool {
    let n = ps.len();
    let start = o0.len() + upd_len_a(gs0, ti0, qs0, nc) + if upd_passes(gs0, ti0, n) { 1int } else { 0int };
    let tail = o.subrange(start, o.len() as int);
    &&& o0.len() <= start <= o.len()
    &&& o.len() == start + if upd_passes(gs0, ti0, n) { 2 * nc } else if upd_need(gs0, ti0) { nc as int } else { 0int }
    &&& gs == upd_phases(gs0, ti0, n)
    &&& ti == upd_turn(gs0, ti0, n)
    &&& qs == qs0
    &&& o.subrange(0, o0.len() as int) == o0
    &&& any_state(gs0, GameState::PreWaitForReply) ==> outbox::is_board_broadcast(
        o.subrange(o0.len() as int, o0.len() + nc), nc, ps, after_wait(gs0, ti0), board::offer_row_of(rem), ti0, ticks)
    &&& upd_request(gs0, ti0, qs0, nc) ==> outbox::is_request_msg(o[o0.len() + nc], ti0, ti0, qs0[ti0 as int][0]->Some_0, ticks)
    &&& upd_passes(gs0, ti0, n) ==> (o[o0.len() + upd_len_a(gs0, ti0, qs0, nc)] matches Outgoing::Hand { to, hand }
        && to == ti0 && hand@ == ps[ti0 as int].hand)
    &&& if upd_passes(gs0, ti0, n) {
        is_turn_broadcast(tail, nc, ps, upd_phases(gs0, ti0, n), board::offer_row_of(rem), upd_turn(gs0, ti0, n), ticks)
    } else if upd_need(gs0, ti0) {
        outbox::is_board_broadcast(tail, nc, ps, upd_phases(gs0, ti0, n), board::offer_row_of(rem), upd_turn(gs0, ti0, n), ticks)
    } else {
        o.len() == start
    }
}

/// Moves every player on from the `Pre` phases: a waiting request is sent to
/// the player on turn, the plain phases are taken up, and when the player on
/// turn has drawn, the turn passes to the next player. The board is sent to
/// every connection whenever something changed.
pub fn update_gamestates(gamestates: &mut Vec<GameState>, num_connections: usize, players: &Vec<Player>, remaining_cards: &Vec<usize>, wait_vec: &mut Vec<WaitForInputType>, turn_index: &mut usize, ticks: Option<u16>, outbox: &mut Vec<Outgoing>)
    requires
        players@.len() <= num_connections,
        any_state(old(gamestates)@, GameState::PreWaitForReply) ==> *old(turn_index) < old(wait_vec)@.len(),
    ensures
        final(gamestates)@.len() == old(gamestates)@.len(),
        final(wait_vec)@.len() == old(wait_vec)@.len(),
        phases_moved_on(old(gamestates)@, *old(turn_index), codec::queues_view(*old(wait_vec)), codec::players_view(*players), remaining_cards@,
            num_connections, ticks, old(outbox)@, final(gamestates)@, *final(turn_index), codec::queues_view(*final(wait_vec)), final(outbox)@),
{
    let ghost o = outbox@.len();
    let ghost gs0 = gamestates@;
    let ti0 = *turn_index;
    let offer = board::offer_row(remaining_cards);
    let waiting = any_in(gamestates, GameState::PreWaitForReply);
    if waiting {
        set_state(gamestates, ti0, GameState::WaitForReply);
        outbox::broadcast_board(outbox, num_connections, players, gamestates, &offer, ti0, ticks);
        let ghost after_bc = outbox@;
        let ghost qs = codec::queues_view(*wait_vec);
        assert(qs[ti0 as int].len() == wait_vec@[ti0 as int]@.len());
        if wait_vec[ti0].len() > 0 {
            assert(qs[ti0 as int][0] == codec::entry_view(wait_vec@[ti0 as int]@[0]));
            if let Some(w) = &wait_vec[ti0][0] {
                if ti0 < num_connections {
                    outbox.push(outbox::request_msg(ti0, ti0, w, ticks));
                    assert(outbox@.subrange(0, after_bc.len() as int) =~= after_bc);
                }
            }
        }
        assert(outbox@.len() == o + upd_len_a(gs0, ti0, qs, num_connections));
        proof {
            assert(outbox@.subrange(0, after_bc.len() as int) =~= after_bc);
            assert(after_bc.len() == o + num_connections);
            assert(outbox@.subrange(0, o as int) =~= after_bc.subrange(0, o as int));
            assert(outbox@.subrange(o as int, o + num_connections) =~= after_bc.subrange(o as int, o + num_connections));
        }
    }
    let ghost after_a = outbox@;
    assert(after_a.len() == o + upd_len_a(gs0, ti0, codec::queues_view(*wait_vec), num_connections));
    let ghost gs1 = gamestates@;
    let need = take_up_pre(gamestates, ti0);
    let ghost gs6 = gamestates@;
    let drawing = any_in(gamestates, GameState::PreDrawCard);
    let mut passes = false;
    if drawing {
        if ti0 < players.len() && ti0 < gamestates.len() {
            if gamestates[ti0] == GameState::PreDrawCard {
                passes = true;
                outbox.push(Outgoing::Hand { to: ti0, hand: codec::copy_ids(&players[ti0].hand) });
                assert(outbox@.subrange(0, after_a.len() as int) =~= after_a);
                if ti0 < players.len() - 1 {
                    *turn_index = ti0 + 1;
                } else {
                    *turn_index = 0;
                }
            }
        }
        let ti2 = *turn_index;
        let mut i: usize = 0;
        while i < gamestates.len()
            invariant
                i <= gamestates@.len(),
                gamestates@.len() == gs6.len(),
                forall|j: int| 0 <= j < i ==> gamestates@[j] == if j != ti2 { GameState::Spell } else { GameState::TurnToSubmit },
            decreases gamestates@.len() - i,
        {
            if i != ti2 {
                gamestates.set(i, GameState::Spell);
            } else {
                gamestates.set(i, GameState::TurnToSubmit);
            }
            i = i + 1;
        }
        assert(gamestates@ =~= after_draw(gs6, ti2));
    }
    let ghost after_b = outbox@;
    if need || passes {
        if passes {
            broadcast_turn(outbox, num_connections, players, gamestates, &offer, *turn_index, ticks);
        } else {
            outbox::broadcast_board(outbox, num_connections, players, gamestates, &offer, *turn_index, ticks);
        }
    }
    proof {
        let out = outbox@;
        assert(out.subrange(0, after_b.len() as int) =~= after_b);
        assert(after_b.subrange(0, after_a.len() as int) =~= after_a);
        assert(after_a.subrange(0, o as int) =~= old(outbox)@);
        assert(out.subrange(0, o as int) =~= old(outbox)@);
        if waiting {
            assert(out.subrange(o as int, o + num_connections) =~= after_a.subrange(o as int, o + num_connections));
        }
        if upd_request(gs0, ti0, codec::queues_view(*wait_vec), num_connections) {
            assert(out[o + num_connections] == out.subrange(0, after_a.len() as int)[o + num_connections]);
            assert(out[o + num_connections] == after_b.subrange(0, after_a.len() as int)[o + num_connections]);
        }
        if passes {
            assert(out[after_a.len() as int] == out.subrange(0, after_b.len() as int)[after_a.len() as int]);
        }
        assert(codec::players_view(*players).len() == players@.len());
        if ti0 < players@.len() {
            assert(codec::players_view(*players)[ti0 as int] == players@[ti0 as int]@);
        }
    }
}


/// The phase a player is in once its laid-out cards were resolved again.
pub open spec fn resolved_state(g: GameState) -> GameState {
    if g is ResolveAgain { GameState::Buy } else { g }
}

/// The players and queues after resolving, in seat order, the cards of every
/// player among the first `n` whose phase asks for it.
pub open spec fn uncover_scene(s: board::Scene, gs: Seq<GameState>, n: nat) -> board::Scene
    decreases n,
{
    if n == 0 {
        s
    } else {
        let prev = uncover_scene(s, gs, (n - 1) as nat);
        if gs[n - 1] is ResolveAgain {
            resolve_cards::resolve_cards_scene(prev, (n - 1) as usize)
        } else {
            prev
        }
    }
}

/// The last seat among the first `n` whose phase asks for its cards to be resolved again.
pub open spec fn last_resolve(gs: Seq<GameState>, n: nat) -> Option<usize>
    decreases n,
{
    if n == 0 {
        None
    } else if gs[n - 1] is ResolveAgain {
        Some((n - 1) as usize)
    } else {
        last_resolve(gs, (n - 1) as nat)
    }
}

/// The phases after resolving: each of the first `m` seats that asked for it goes to buying.
pub open spec fn uncover_phases(gs: Seq<GameState>, m: nat) -> Seq<GameState> {
    Seq::new(gs.len(), |j: int| if j < m { resolved_state(gs[j]) } else { gs[j] })
}

/// The request that follows a resolution: the first entry of the queue of the
/// seat that asked last, when that seat is connected and the entry is a request.
pub open spec fn uncover_prompt(gs: Seq<GameState>, m: nat, qs: Seq<Seq<Option<codec::WaitView>>>, nc: usize) -> Option<codec::WaitView> {
    match last_resolve(gs, m) {
        Some(r) => if r < nc && qs[r as int].len() > 0 && qs[r as int][0] is Some { qs[r as int][0] } else { None },
        None => None,
    }
}

/// Whether the budget of every seat among the first `m` that asks for a resolution allows it.
pub open spec fn uncover_budget(s: board::Scene, gs: Seq<GameState>, m: nat) -> bool {
    forall|j: int| 0 <= j < m && (#[trigger] gs[j]) is ResolveAgain ==> resolve_cards::budget_ok(s, j as usize, resolve_cards::RESOLVE_STEPS as int)
}

/// Resolves once more the laid-out cards of each seat whose phase asks for it
/// (a card that uncovers its neighbour), moves those seats to buying, and
/// sends the last of them the first request its queue then holds.
pub fn uncover_cards(players: &mut Vec<Player>, gamestates: &mut Vec<GameState>, num_connections: usize, cardmeta: &Vec<ListCard>, remaining_cards: &Vec<usize>, wait_vec: &mut Vec<WaitForInputType>, ticks: Option<u16>, outbox: &mut Vec<Outgoing>)
    requires
        cards::is_card_table(cardmeta@),
        old(players)@.len() <= old(wait_vec)@.len(),
        uncover_budget(board::scene_of(*old(players), *old(wait_vec)), old(gamestates)@,
            vstd::math::min(old(players)@.len() as int, old(gamestates)@.len() as int) as nat),
    ensures
        final(players)@.len() == old(players)@.len(),
        final(gamestates)@.len() == old(gamestates)@.len(),
        final(wait_vec)@.len() == old(wait_vec)@.len(),
        ({
            let m = vstd::math::min(old(players)@.len() as int, old(gamestates)@.len() as int) as nat;
            let s1 = uncover_scene(board::scene_of(*old(players), *old(wait_vec)), old(gamestates)@, m);
            let g1 = uncover_phases(old(gamestates)@, m);
            &&& board::scene_of(*final(players), *final(wait_vec)) == s1
            &&& match uncover_prompt(old(gamestates)@, m, s1.1, num_connections) {
                Some(w) => {
                    let r = last_resolve(old(gamestates)@, m)->Some_0;
                    &&& final(gamestates)@ == g1.update(r as int, w.1)
                    &&& final(outbox)@.len() == old(outbox)@.len() + 1
                    &&& final(outbox)@.drop_last() == old(outbox)@
                    &&& outbox::is_request_msg(final(outbox)@.last(), r, r, w, ticks)
                },
                None => {
                    &&& final(gamestates)@ == g1
                    &&& final(outbox)@ == old(outbox)@
                },
            }
        }),
{
    let ghost s0 = board::scene_of(*players, *wait_vec);
    let ghost gs0 = gamestates@;
    let m: usize = if players.len() < gamestates.len() { players.len() } else { gamestates.len() };
    let mut tempboard = BoardStruct::new(outbox::copy_players(players), remaining_cards);
    let mut responsible: Option<usize> = None;
    let mut i: usize = 0;
    assert(tempboard.players@.len() == codec::players_view(tempboard.players).len());
    while i < m
        invariant
            m == vstd::math::min(players@.len() as int, gs0.len() as int),
            i <= m,
            cards::is_card_table(cardmeta@),
            players@.len() <= wait_vec@.len(),
            s0 == board::scene_of(*players, *old(wait_vec)),
            uncover_budget(s0, gs0, m as nat),
            board::scene_of(tempboard.players, *wait_vec) == uncover_scene(s0, gs0, i as nat),
            tempboard.players@.len() == players@.len(),
            wait_vec@.len() == old(wait_vec)@.len(),
            forall|j: int| i <= j < s0.0.len() ==> codec::players_view(tempboard.players)[j] == s0.0[j],
            gamestates@.len() == gs0.len(),
            forall|j: int| 0 <= j < i ==> gamestates@[j] == resolved_state(gs0[j]),
            forall|j: int| i <= j < gs0.len() ==> gamestates@[j] == gs0[j],
            responsible == last_resolve(gs0, i as nat),
            responsible is Some ==> responsible->Some_0 < i,
            responsible is None ==> board::scene_of(tempboard.players, *wait_vec) == s0,
        decreases m - i,
    {
        if let GameState::ResolveAgain(_, _) = gamestates[i] {
            responsible = Some(i);
            gamestates.set(i, GameState::Buy);
            proof {
                let cur = board::scene_of(tempboard.players, *wait_vec);
                assert(gs0[i as int] is ResolveAgain);
                assert(cur.0[i as int] == s0.0[i as int]);
            }
            resolve_cards::resolve_cards(&mut tempboard, i, cardmeta, wait_vec);
        }
        i = i + 1;
    }
    assert(gamestates@ =~= uncover_phases(gs0, m as nat));
    if let Some(r) = responsible {
        assert(r < wait_vec@.len());
        *players = tempboard.players;
        if r < num_connections {
            let ghost g1 = gamestates@;
            let ghost qs = codec::queues_view(*wait_vec);
            assert(qs[r as int].len() == wait_vec@[r as int]@.len());
            if wait_vec[r].len() > 0 {
                assert(qs[r as int][0] == codec::entry_view(wait_vec@[r as int]@[0]));
            }
            let mut g = gamestates[r];
            let sent = game_engine::continue_to_prob(r, &wait_vec[r], &mut g, outbox, ticks);
            gamestates.set(r, g);
            if !sent {
                assert(gamestates@ =~= g1);
            }
        }
    }
}


/// Refilling the hand keeps the player's cards: the hand, the discard pile
/// and the unknown cards hold the same cards, all together, before and after.
pub proof fn lemma_redraw_keeps_cards(p0: PlayerView, u0: Seq<usize>, p: PlayerView, u: Seq<usize>)
    requires
        redrawn(p0, u0, p, u),
    ensures
        (p.hand + p.discard + u).to_multiset() == (p0.hand + p0.discard + u0).to_multiset(),
{
    broadcast use vstd::seq_lib::lemma_multiset_commutative;
    broadcast use vstd::multiset::group_multiset_axioms;
    if u0.len() >= 5 {
        let last = u0.subrange(u0.len() - 5, u0.len() as int);
        last.lemma_reverse_to_multiset();
        assert(u0 =~= u + last);
        assert((p.hand + p.discard + u).to_multiset() =~= (p0.hand + p0.discard + u0).to_multiset());
    } else {
        assert((p.hand + p.discard + u).to_multiset() =~= (p0.hand + p0.discard + u0).to_multiset());
    }
}

/// The turn goes round the table: after the player at `ti` of `n` players,
/// it is the turn of the player at `(ti + 1) % n`.
pub proof fn lemma_next_turn_cycles(ti: usize, n: nat)
    requires
        ti < n <= usize::MAX,
    ensures
        next_turn(ti, n) == (ti + 1) % (n as int),
        next_turn(ti, n) < n,
{
    if ti + 1 < n {
        assert((ti + 1) % (n as int) == ti + 1) by (nonlinear_arith)
            requires
                0 <= ti + 1 < n;
    } else {
        assert((ti + 1) % (n as int) == 0) by (nonlinear_arith)
            requires
                ti + 1 == n, n > 0;
    }
}

/// Refilling the hand turns the unused coins into ink: the ink afterwards is
/// the ink and the coins before, and no coin is left. Victory points, ink
/// removers, the literacy award, the draft and the locked-up cards stay; the
/// hand holds five cards, or every card of the hand, discard pile and unknown
/// cards when there are fewer, and no card is gained or lost.
pub proof fn lemma_redraw_turns_coins_into_ink(p0: PlayerView, u0: Seq<usize>, p: PlayerView, u: Seq<usize>)
    requires
        redrawn(p0, u0, p, u),
        p0.ink + p0.coin <= usize::MAX,
    ensures
        p.ink == p0.ink + p0.coin,
        p.coin == 0,
        p.vp == p0.vp,
        p.remover == p0.remover,
        p.literacy_award == p0.literacy_award,
        p.draft == p0.draft,
        p.lockup == p0.lockup,
        p.hand.len() == (if u0.len() + p0.hand.len() + p0.discard.len() < 5 { u0.len() + p0.hand.len() + p0.discard.len() } else { 5 }),
        p.hand.len() + p.discard.len() + u.len() == p0.hand.len() + p0.discard.len() + u0.len(),
{
    broadcast use vstd::seq_lib::group_to_multiset_ensures;
    lemma_redraw_keeps_cards(p0, u0, p, u);
    assert((p.hand + p.discard + u).to_multiset().len() == (p.hand + p.discard + u).len());
    assert((p0.hand + p0.discard + u0).to_multiset().len() == (p0.hand + p0.discard + u0).len());
}

} // verus!
