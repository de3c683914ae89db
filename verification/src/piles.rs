use vstd::prelude::*;
use vstd::multiset::Multiset;
use crate::codec::{GameCommand, GameState, Outgoing, PlayerView, ReplyEffect, WaitView};
use crate::command::{self, Play};
use crate::game_engine::{self, GameEngine};
use crate::show_draft;
use crate::spell;
use crate::game_engine::{reply_allowed, reply_result};
use crate::board;
use crate::draw_card;
use crate::draft::{self, TheDraft};
use crate::end_game;
use crate::purchase;
use crate::resolve_cards;
use crate::cards::{self, CardEffect, GIVEABLE, NUM_CARDS};

verus! {

broadcast use vstd::seq_lib::group_to_multiset_ensures;

/// The cards a player holds: the hand, the discard pile, the draft, the
/// locked-up cards and the unknown cards `u`.
pub open spec fn player_cards(p: PlayerView, u: Seq<usize>) -> Multiset<usize> {
    p.hand.to_multiset().add(p.discard.to_multiset()).add(p.draft.to_multiset()).add(p.lockup.to_multiset()).add(u.to_multiset())
}

/// The cards the first `n` seats hold.
pub open spec fn seats_cards(ps: Seq<PlayerView>, us: Seq<Seq<usize>>, n: nat) -> Multiset<usize>
    decreases n,
{
    if n == 0 { Multiset::empty() } else { seats_cards(ps, us, (n - 1) as nat).add(player_cards(ps[n - 1], us[n - 1])) }
}

/// Every card of the game: what the players hold and the remaining cards `rm`.
pub open spec fn all_cards(ps: Seq<PlayerView>, us: Seq<Seq<usize>>, rm: Seq<usize>) -> Multiset<usize> {
    seats_cards(ps, us, ps.len()).add(rm.to_multiset())
}

/// No card occurs twice.
pub open spec fn each_once(m: Multiset<usize>) -> bool {
    forall|x: usize| #[trigger] m.count(x) <= 1
}

proof fn lemma_seats_update(ps: Seq<PlayerView>, us: Seq<Seq<usize>>, i: int, p2: PlayerView, u2: Seq<usize>, n: nat)
    requires
        0 <= i < ps.len(),
        ps.len() <= us.len(),
        n <= ps.len(),
    ensures
        seats_cards(ps.update(i, p2), us.update(i, u2), n).add(if i < n { player_cards(ps[i], us[i]) } else { Multiset::empty() })
            == seats_cards(ps, us, n).add(if i < n { player_cards(p2, u2) } else { Multiset::empty() }),
    decreases n,
{
    broadcast use vstd::multiset::group_multiset_axioms;
    let ps2 = ps.update(i, p2);
    let us2 = us.update(i, u2);
    let pc1 = player_cards(ps[i], us[i]);
    let pc2 = player_cards(p2, u2);
    let x = if i < n { pc1 } else { Multiset::empty() };
    let y = if i < n { pc2 } else { Multiset::empty() };
    if n == 0 {
        assert(seats_cards(ps2, us2, n).add(x) =~= seats_cards(ps, us, n).add(y));
    } else {
        let m = (n - 1) as nat;
        lemma_seats_update(ps, us, i, p2, u2, m);
        let xm = if i < m { pc1 } else { Multiset::<usize>::empty() };
        let ym = if i < m { pc2 } else { Multiset::<usize>::empty() };
        let q1 = player_cards(ps[m as int], us[m as int]);
        let q2 = player_cards(ps2[m as int], us2[m as int]);
        assert(seats_cards(ps2, us2, n) == seats_cards(ps2, us2, m).add(q2));
        assert(seats_cards(ps, us, n) == seats_cards(ps, us, m).add(q1));
        assert forall|c: usize| #[trigger] seats_cards(ps2, us2, n).add(x).count(c) == seats_cards(ps, us, n).add(y).count(c) by {
            assert(seats_cards(ps2, us2, m).add(xm).count(c) == seats_cards(ps, us, m).add(ym).count(c));
            if m == i {
                assert(q2 == pc2);
                assert(q1 == pc1);
            } else {
                assert(ps2[m as int] == ps[m as int]);
                assert(us2[m as int] == us[m as int]);
            }
        }
        assert(seats_cards(ps2, us2, n).add(x) =~= seats_cards(ps, us, n).add(y));
    }
}

/// A change of one seat that keeps its cards together with the remaining
/// cards keeps every card of the game.
proof fn lemma_seat_change(ps: Seq<PlayerView>, us: Seq<Seq<usize>>, rm: Seq<usize>, i: int, p2: PlayerView, u2: Seq<usize>, rm2: Seq<usize>)
    requires
        0 <= i < ps.len(),
        ps.len() <= us.len(),
        player_cards(p2, u2).add(rm2.to_multiset()) == player_cards(ps[i], us[i]).add(rm.to_multiset()),
    ensures
        all_cards(ps.update(i, p2), us.update(i, u2), rm2) == all_cards(ps, us, rm),
{
    broadcast use vstd::multiset::group_multiset_axioms;
    lemma_seats_update(ps, us, i, p2, u2, ps.len());
    let s2 = seats_cards(ps.update(i, p2), us.update(i, u2), ps.len());
    let s1 = seats_cards(ps, us, ps.len());
    let a = player_cards(ps[i], us[i]);
    let b = player_cards(p2, u2);
    assert forall|x: usize| #[trigger] s2.add(rm2.to_multiset()).count(x) == s1.add(rm.to_multiset()).count(x) by {
        assert(s2.add(a).count(x) == s1.add(b).count(x));
        assert(b.add(rm2.to_multiset()).count(x) == a.add(rm.to_multiset()).count(x));
    }
    assert(s2.add(rm2.to_multiset()) =~= s1.add(rm.to_multiset()));
}

/// Buying keeps every card of the game, each as often as before: a card
/// bought leaves the remaining cards for the buyer's discard pile. So no card
/// comes to be in two places.
pub proof fn lemma_buy_keeps_each_card(pos: usize, rm: Seq<usize>, ps: Seq<PlayerView>, us: Seq<Seq<usize>>, qs: Seq<Seq<Option<WaitView>>>, pid: usize)
    requires
        pid < ps.len(),
        ps.len() <= us.len(),
    ensures
        ({
            let r = purchase::buy_result(pos, rm, ps, qs, pid);
            &&& all_cards(r.1, us, r.0) == all_cards(ps, us, rm)
            &&& each_once(all_cards(ps, us, rm)) ==> each_once(all_cards(r.1, us, r.0))
        }),
{
    broadcast use vstd::multiset::group_multiset_axioms;
    broadcast use vstd::seq_lib::lemma_multiset_commutative;
    let r = purchase::buy_result(pos, rm, ps, qs, pid);
    purchase::lemma_buy_keeps_cards(pos, rm, ps, qs, pid);
    let p = ps[pid as int];
    let p2 = r.1[pid as int];
    assert(r.1 =~= ps.update(pid as int, p2));
    assert(us =~= us.update(pid as int, us[pid as int]));
    assert(player_cards(p2, us[pid as int]).add(r.0.to_multiset()) =~= player_cards(p, us[pid as int]).add(rm.to_multiset())) by {
        assert((r.0 + p2.discard).to_multiset() == (rm + p.discard).to_multiset());
    }
    lemma_seat_change(ps, us, rm, pid as int, p2, us[pid as int], r.0);
}

/// Locking up keeps every card of the game, each as often as before: the card
/// leaves the remaining cards for the player's locked-up cards.
pub proof fn lemma_lockup_keeps_each_card(pos: usize, rm: Seq<usize>, ps: Seq<PlayerView>, us: Seq<Seq<usize>>, qs: Seq<Seq<Option<WaitView>>>, pid: usize)
    requires
        pid < ps.len(),
        pid < qs.len(),
        pos < rm.len(),
        ps.len() <= us.len(),
    ensures
        ({
            let r = purchase::lockup_result(pos, rm, ps, qs, pid);
            &&& all_cards(r.1, us, r.0) == all_cards(ps, us, rm)
            &&& each_once(all_cards(ps, us, rm)) ==> each_once(all_cards(r.1, us, r.0))
        }),
{
    broadcast use vstd::multiset::group_multiset_axioms;
    broadcast use vstd::seq_lib::lemma_multiset_commutative;
    let r = purchase::lockup_result(pos, rm, ps, qs, pid);
    purchase::lemma_lockup_keeps_cards(pos, rm, ps, qs, pid);
    let p = ps[pid as int];
    let p2 = r.1[pid as int];
    assert(r.1 =~= ps.update(pid as int, p2));
    assert(us =~= us.update(pid as int, us[pid as int]));
    assert(player_cards(p2, us[pid as int]).add(r.0.to_multiset()) =~= player_cards(p, us[pid as int]).add(rm.to_multiset())) by {
        assert((r.0 + p2.lockup).to_multiset() == (rm + p.lockup).to_multiset());
    }
    lemma_seat_change(ps, us, rm, pid as int, p2, us[pid as int], r.0);
}

/// A step of drawing three cards keeps every card of the game, each as often
/// as before: a card taken leaves the remaining cards for the discard pile.
pub proof fn lemma_putback_keeps_each_card(countdown: usize, responsible: usize, rm: Seq<usize>, ps: Seq<PlayerView>, us: Seq<Seq<usize>>, qs: Seq<Seq<Option<WaitView>>>, pid: usize)
    requires
        pid < ps.len(),
        ps.len() <= us.len(),
        purchase::putback_index(countdown, rm, ps[pid as int].discard) matches Some(k) ==> k < rm.len(),
    ensures
        ({
            let r = purchase::putback_result(countdown, responsible, rm, ps, qs, pid);
            &&& all_cards(r.1, us, r.0) == all_cards(ps, us, rm)
            &&& each_once(all_cards(ps, us, rm)) ==> each_once(all_cards(r.1, us, r.0))
        }),
{
    broadcast use vstd::multiset::group_multiset_axioms;
    broadcast use vstd::seq_lib::lemma_multiset_commutative;
    let r = purchase::putback_result(countdown, responsible, rm, ps, qs, pid);
    purchase::lemma_putback_keeps_cards(countdown, responsible, rm, ps, qs, pid);
    let p = ps[pid as int];
    let p2 = r.1[pid as int];
    assert(r.1 =~= ps.update(pid as int, p2));
    assert(us =~= us.update(pid as int, us[pid as int]));
    assert(player_cards(p2, us[pid as int]).add(r.0.to_multiset()) =~= player_cards(p, us[pid as int]).add(rm.to_multiset())) by {
        assert((r.0 + p2.discard).to_multiset() == (rm + p.discard).to_multiset());
    }
    lemma_seat_change(ps, us, rm, pid as int, p2, us[pid as int], r.0);
}

/// Refilling a player's hand keeps every card of the game, each as often as
/// before: cards move between the hand, the discard pile and the unknown cards.
pub proof fn lemma_redraw_keeps_each_card(ps: Seq<PlayerView>, us: Seq<Seq<usize>>, rm: Seq<usize>, pid: usize, p: PlayerView, u: Seq<usize>)
    requires
        pid < ps.len(),
        ps.len() <= us.len(),
        draw_card::redrawn(ps[pid as int], us[pid as int], p, u),
    ensures
        all_cards(ps.update(pid as int, p), us.update(pid as int, u), rm) == all_cards(ps, us, rm),
        each_once(all_cards(ps, us, rm)) ==> each_once(all_cards(ps.update(pid as int, p), us.update(pid as int, u), rm)),
{
    broadcast use vstd::multiset::group_multiset_axioms;
    broadcast use vstd::seq_lib::lemma_multiset_commutative;
    let p0 = ps[pid as int];
    let u0 = us[pid as int];
    draw_card::lemma_redraw_keeps_cards(p0, u0, p, u);
    assert(player_cards(p, u).add(rm.to_multiset()) =~= player_cards(p0, u0).add(rm.to_multiset())) by {
        assert((p.hand + p.discard + u).to_multiset() == (p0.hand + p0.discard + u0).to_multiset());
        assert((p.hand + p.discard + u).to_multiset() =~= (p.hand + p.discard).to_multiset().add(u.to_multiset()));
        assert((p.hand + p.discard).to_multiset() =~= p.hand.to_multiset().add(p.discard.to_multiset()));
        assert((p0.hand + p0.discard + u0).to_multiset() =~= (p0.hand + p0.discard).to_multiset().add(u0.to_multiset()));
        assert((p0.hand + p0.discard).to_multiset() =~= p0.hand.to_multiset().add(p0.discard.to_multiset()));
        assert(p.draft == p0.draft && p.lockup == p0.lockup);
        assert forall|c: usize| #[trigger] player_cards(p, u).add(rm.to_multiset()).count(c) == player_cards(p0, u0).add(rm.to_multiset()).count(c) by {
            assert((p.hand + p.discard + u).to_multiset().count(c) == (p0.hand + p0.discard + u0).to_multiset().count(c));
        }
    }
    lemma_seat_change(ps, us, rm, pid as int, p, u, rm);
}


/// A card that occurs has a first position.
proof fn lemma_first_index(s: Seq<usize>, x: usize)
    requires
        s.contains(x),
    ensures
        exists|i: int| 0 <= i < s.len() && s[i] == x && forall|j: int| 0 <= j < i ==> s[j] != x,
    decreases s.len(),
{
    if s[0] != x {
        let k = choose|k: int| 0 <= k < s.len() && s[k] == x;
        assert(s.drop_first()[k - 1] == x);
        lemma_first_index(s.drop_first(), x);
        let i = choose|i: int| 0 <= i < s.drop_first().len() && s.drop_first()[i] == x && forall|j: int| 0 <= j < i ==> s.drop_first()[j] != x;
        assert forall|j: int| 0 <= j < i + 1 implies s[j] != x by {
            if j > 0 {
                assert(s[j] == s.drop_first()[j - 1]);
            }
        }
        assert(s[i + 1] == x);
    } else {
        assert(s[0] == x);
    }
}

/// Removing the first occurrence of a card that occurs leaves one fewer of it.
pub(crate) proof fn lemma_remove_first_fewer(s: Seq<usize>, x: usize)
    requires
        s.contains(x),
    ensures
        s.to_multiset() == board::remove_first(s, x).to_multiset().insert(x),
{
    lemma_first_index(s, x);
    let k = choose|i: int| 0 <= i < s.len() && s[i] == x && forall|j: int| 0 <= j < i ==> s[j] != x;
    lemma_remove_fewer(s, k);
}

/// Removing an entry leaves each card at most as often as before.
proof fn lemma_remove_fewer(s: Seq<usize>, i: int)
    requires
        0 <= i < s.len(),
    ensures
        s.to_multiset() == s.remove(i).to_multiset().insert(s[i]),
{
    broadcast use vstd::multiset::group_multiset_axioms;
    broadcast use vstd::seq_lib::lemma_multiset_commutative;
    let a = s.subrange(0, i);
    let b = s.subrange(i + 1, s.len() as int);
    assert(s.remove(i) =~= a + b);
    assert(s =~= a + seq![s[i]] + b);
    assert(seq![s[i]].to_multiset() =~= Multiset::empty().insert(s[i])) by {
        assert(seq![s[i]] =~= Seq::<usize>::empty().push(s[i]));
    }
    assert(s.to_multiset() =~= s.remove(i).to_multiset().insert(s[i]));
}

/// A change of one seat that keeps each of its cards and of the remaining
/// cards at most as often as before keeps each card of the game at most as
/// often as before.
proof fn lemma_seat_shrink(ps: Seq<PlayerView>, us: Seq<Seq<usize>>, rm: Seq<usize>, i: int, p2: PlayerView, u2: Seq<usize>, rm2: Seq<usize>)
    requires
        0 <= i < ps.len(),
        ps.len() <= us.len(),
        forall|c: usize| #[trigger] player_cards(p2, u2).add(rm2.to_multiset()).count(c) <= player_cards(ps[i], us[i]).add(rm.to_multiset()).count(c),
    ensures
        each_once(all_cards(ps, us, rm)) ==> each_once(all_cards(ps.update(i, p2), us.update(i, u2), rm2)),
{
    broadcast use vstd::multiset::group_multiset_axioms;
    lemma_seats_update(ps, us, i, p2, u2, ps.len());
    let s2 = seats_cards(ps.update(i, p2), us.update(i, u2), ps.len());
    let s1 = seats_cards(ps, us, ps.len());
    let a = player_cards(ps[i], us[i]);
    let b = player_cards(p2, u2);
    if each_once(all_cards(ps, us, rm)) {
        assert forall|c: usize| #[trigger] all_cards(ps.update(i, p2), us.update(i, u2), rm2).count(c) <= 1 by {
            assert(s2.add(a).count(c) == s1.add(b).count(c));
            assert(b.add(rm2.to_multiset()).count(c) <= a.add(rm.to_multiset()).count(c));
            assert(all_cards(ps, us, rm).count(c) <= 1);
        }
    }
}

/// The replies that move cards keep each card of the game at most as often
/// as before: taking a remaining card into the discard pile, trashing a card
/// of the hand, laying out an unknown card, and buying a locked-up card (when
/// the card bought is the one locked up at that position). So none of them
/// puts a card in two places.
pub proof fn lemma_reply_keeps_each_card_once(ps: Seq<PlayerView>, us: Seq<Seq<usize>>, rm: Seq<usize>, pid: usize, e: ReplyEffect)
    requires
        pid < ps.len(),
        ps.len() <= us.len(),
        reply_allowed(ps[pid as int], rm, us[pid as int], e),
        e is TakeRemaining || e is TrashForVp || e is TrashForCoin || e is TakeUnknownCard || e is BuyLockupWithInk,
        e matches ReplyEffect::BuyLockupWithInk(_cost, card, position) ==> card == ps[pid as int].lockup[position as int],
    ensures
        ({
            let x = reply_result(ps[pid as int], rm, us[pid as int], e);
            each_once(all_cards(ps, us, rm)) ==> each_once(all_cards(ps.update(pid as int, x.0), us.update(pid as int, x.2), x.1))
        }),
{
    match e {
        ReplyEffect::TakeRemaining(..) => lemma_reply_take(ps, us, rm, pid, e),
        ReplyEffect::TrashForVp(..) => lemma_reply_trash_vp(ps, us, rm, pid, e),
        ReplyEffect::TrashForCoin(..) => lemma_reply_trash_coin(ps, us, rm, pid, e),
        ReplyEffect::TakeUnknownCard => lemma_reply_unknown(ps, us, rm, pid, e),
        ReplyEffect::BuyLockupWithInk(..) => lemma_reply_lockup_buy(ps, us, rm, pid, e),
        _ => {},
    }
}

proof fn lemma_reply_take(ps: Seq<PlayerView>, us: Seq<Seq<usize>>, rm: Seq<usize>, pid: usize, e: ReplyEffect)
    requires
        pid < ps.len(),
        ps.len() <= us.len(),
        reply_allowed(ps[pid as int], rm, us[pid as int], e),
        e is TakeRemaining,
        e matches ReplyEffect::BuyLockupWithInk(_cost, card, position) ==> card == ps[pid as int].lockup[position as int],
    ensures
        ({
            let x = reply_result(ps[pid as int], rm, us[pid as int], e);
            each_once(all_cards(ps, us, rm)) ==> each_once(all_cards(ps.update(pid as int, x.0), us.update(pid as int, x.2), x.1))
        }),
{
    let p = ps[pid as int];
    let u = us[pid as int];
    match e {
        ReplyEffect::TakeRemaining(k) => {
            let p2 = PlayerView { discard: p.discard.push(rm[k as int]), ..p };
            lemma_remove_fewer(rm, k as int);
            lemma_push_count(p.discard, rm[k as int]);
            assert forall|c: usize| #[trigger] player_cards(p2, u).add(rm.remove(k as int).to_multiset()).count(c) <= player_cards(p, u).add(rm.to_multiset()).count(c) by {
                lemma_move_count(p, u, rm, p2, u, rm.remove(k as int), c);
            }
            lemma_seat_shrink(ps, us, rm, pid as int, p2, u, rm.remove(k as int));
        },
        _ => {},
    }
}

proof fn lemma_reply_trash_vp(ps: Seq<PlayerView>, us: Seq<Seq<usize>>, rm: Seq<usize>, pid: usize, e: ReplyEffect)
    requires
        pid < ps.len(),
        ps.len() <= us.len(),
        reply_allowed(ps[pid as int], rm, us[pid as int], e),
        e is TrashForVp,
        e matches ReplyEffect::BuyLockupWithInk(_cost, card, position) ==> card == ps[pid as int].lockup[position as int],
    ensures
        ({
            let x = reply_result(ps[pid as int], rm, us[pid as int], e);
            each_once(all_cards(ps, us, rm)) ==> each_once(all_cards(ps.update(pid as int, x.0), us.update(pid as int, x.2), x.1))
        }),
{
    let p = ps[pid as int];
    let u = us[pid as int];
    match e {
        ReplyEffect::TrashForVp(t, v) => {
            let h = board::remove_first(p.hand, t);
            let p2 = PlayerView { vp: (p.vp + v) as usize, hand: h, ..p };
            lemma_remove_first_fewer(p.hand, t);
            assert forall|c: usize| #[trigger] player_cards(p2, u).add(rm.to_multiset()).count(c) <= player_cards(p, u).add(rm.to_multiset()).count(c) by {
                lemma_move_count(p, u, rm, p2, u, rm, c);
            }
            lemma_seat_shrink(ps, us, rm, pid as int, p2, u, rm);
        },
        _ => {},
    }
}

proof fn lemma_reply_trash_coin(ps: Seq<PlayerView>, us: Seq<Seq<usize>>, rm: Seq<usize>, pid: usize, e: ReplyEffect)
    requires
        pid < ps.len(),
        ps.len() <= us.len(),
        reply_allowed(ps[pid as int], rm, us[pid as int], e),
        e is TrashForCoin,
        e matches ReplyEffect::BuyLockupWithInk(_cost, card, position) ==> card == ps[pid as int].lockup[position as int],
    ensures
        ({
            let x = reply_result(ps[pid as int], rm, us[pid as int], e);
            each_once(all_cards(ps, us, rm)) ==> each_once(all_cards(ps.update(pid as int, x.0), us.update(pid as int, x.2), x.1))
        }),
{
    let p = ps[pid as int];
    let u = us[pid as int];
    match e {
        ReplyEffect::TrashForCoin(t, v) => {
            let h = board::remove_first(p.hand, t);
            let p2 = PlayerView { coin: (p.coin + v) as usize, hand: h, ..p };
            lemma_remove_first_fewer(p.hand, t);
            assert forall|c: usize| #[trigger] player_cards(p2, u).add(rm.to_multiset()).count(c) <= player_cards(p, u).add(rm.to_multiset()).count(c) by {
                lemma_move_count(p, u, rm, p2, u, rm, c);
            }
            lemma_seat_shrink(ps, us, rm, pid as int, p2, u, rm);
        },
        _ => {},
    }
}

proof fn lemma_reply_unknown(ps: Seq<PlayerView>, us: Seq<Seq<usize>>, rm: Seq<usize>, pid: usize, e: ReplyEffect)
    requires
        pid < ps.len(),
        ps.len() <= us.len(),
        reply_allowed(ps[pid as int], rm, us[pid as int], e),
        e is TakeUnknownCard,
        e matches ReplyEffect::BuyLockupWithInk(_cost, card, position) ==> card == ps[pid as int].lockup[position as int],
    ensures
        ({
            let x = reply_result(ps[pid as int], rm, us[pid as int], e);
            each_once(all_cards(ps, us, rm)) ==> each_once(all_cards(ps.update(pid as int, x.0), us.update(pid as int, x.2), x.1))
        }),
{
    let p = ps[pid as int];
    let u = us[pid as int];
    match e {
        ReplyEffect::TakeUnknownCard => {
            let p2 = PlayerView { ink: (p.ink - 1) as usize, draftlen: (u.len() - 1) as usize, arranged: p.arranged.push((u[0], true, None, false)), ..p };
            lemma_remove_fewer(u, 0);
            assert forall|c: usize| #[trigger] player_cards(p2, u.remove(0)).add(rm.to_multiset()).count(c) <= player_cards(p, u).add(rm.to_multiset()).count(c) by {
                lemma_move_count(p, u, rm, p2, u.remove(0), rm, c);
            }
            lemma_seat_shrink(ps, us, rm, pid as int, p2, u.remove(0), rm);
        },
        _ => {},
    }
}

proof fn lemma_reply_lockup_buy(ps: Seq<PlayerView>, us: Seq<Seq<usize>>, rm: Seq<usize>, pid: usize, e: ReplyEffect)
    requires
        pid < ps.len(),
        ps.len() <= us.len(),
        reply_allowed(ps[pid as int], rm, us[pid as int], e),
        e is BuyLockupWithInk,
        e matches ReplyEffect::BuyLockupWithInk(_cost, card, position) ==> card == ps[pid as int].lockup[position as int],
    ensures
        ({
            let x = reply_result(ps[pid as int], rm, us[pid as int], e);
            each_once(all_cards(ps, us, rm)) ==> each_once(all_cards(ps.update(pid as int, x.0), us.update(pid as int, x.2), x.1))
        }),
{
    let p = ps[pid as int];
    let u = us[pid as int];
    match e {
        ReplyEffect::BuyLockupWithInk(cost, card, position) => {
            let p2 = PlayerView {
                coin: 0,
                ink: (p.ink - (cost - p.coin) * 3) as usize,
                discard: p.discard.push(card),
                lockup: p.lockup.remove(position as int),
                ..p
            };
            lemma_remove_fewer(p.lockup, position as int);
            lemma_push_count(p.discard, card);
            assert forall|c: usize| #[trigger] player_cards(p2, u).add(rm.to_multiset()).count(c) <= player_cards(p, u).add(rm.to_multiset()).count(c) by {
                lemma_move_count(p, u, rm, p2, u, rm, c);
            }
            lemma_seat_shrink(ps, us, rm, pid as int, p2, u, rm);
        },
        _ => {},
    }
}

/// Moving a card from the remaining cards or the locked-up cards to the
/// discard pile, or dropping one from the hand or the unknown cards, keeps
/// each card at most as often as before.
proof fn lemma_move_count(p: PlayerView, u: Seq<usize>, rm: Seq<usize>, p2: PlayerView, u2: Seq<usize>, rm2: Seq<usize>, c: usize)
    requires
        p2.draft == p.draft,
        p2.hand.to_multiset().add(p2.discard.to_multiset()).add(p2.lockup.to_multiset()).add(u2.to_multiset()).add(rm2.to_multiset()).count(c)
            <= p.hand.to_multiset().add(p.discard.to_multiset()).add(p.lockup.to_multiset()).add(u.to_multiset()).add(rm.to_multiset()).count(c),
    ensures
        player_cards(p2, u2).add(rm2.to_multiset()).count(c) <= player_cards(p, u).add(rm.to_multiset()).count(c),
{
    broadcast use vstd::multiset::group_multiset_axioms;
}

proof fn lemma_push_count(s: Seq<usize>, x: usize)
    ensures
        s.push(x).to_multiset() == s.to_multiset().insert(x),
{
    broadcast use vstd::multiset::group_multiset_axioms;
    assert(s.push(x).to_multiset() =~= s.to_multiset().insert(x));
}

/// Whether the players `qs` hold the same hands, discard piles, drafts and
/// locked-up cards as the players `ps`.
pub open spec fn same_piles(ps: Seq<PlayerView>, qs: Seq<PlayerView>) -> bool {
    &&& qs.len() == ps.len()
    &&& forall|i: int| #![trigger qs[i]] 0 <= i < ps.len() ==> {
        &&& qs[i].hand == ps[i].hand
        &&& qs[i].discard == ps[i].discard
        &&& qs[i].draft == ps[i].draft
        &&& qs[i].lockup == ps[i].lockup
    }
}

proof fn lemma_piles_trans(a: Seq<PlayerView>, b: Seq<PlayerView>, c: Seq<PlayerView>)
    requires
        same_piles(a, b),
        same_piles(b, c),
    ensures
        same_piles(a, c),
{
    assert forall|i: int| 0 <= i < a.len() implies #[trigger] c[i].hand == a[i].hand && c[i].discard == a[i].discard
        && c[i].draft == a[i].draft && c[i].lockup == a[i].lockup by {
        assert(b[i].hand == a[i].hand);
    }
}

/// Players with the same piles hold the same cards.
proof fn lemma_piles_cards(ps: Seq<PlayerView>, qs: Seq<PlayerView>, us: Seq<Seq<usize>>, rm: Seq<usize>, n: nat)
    requires
        same_piles(ps, qs),
        n <= ps.len(),
    ensures
        seats_cards(qs, us, n) == seats_cards(ps, us, n),
        n == ps.len() ==> all_cards(qs, us, rm) == all_cards(ps, us, rm),
    decreases n,
{
    if n > 0 {
        lemma_piles_cards(ps, qs, us, rm, (n - 1) as nat);
        let i = n - 1;
        assert(qs[i].hand == ps[i].hand);
        assert(player_cards(qs[i], us[i]) == player_cards(ps[i], us[i]));
    }
}

proof fn lemma_effect_piles(s: board::Scene, e: CardEffect, pid: usize, c: usize)
    ensures
        same_piles(s.0, board::effect_scene(s, e, pid, c).0),
{
    let t = board::effect_scene(s, e, pid, c).0;
    assert forall|i: int| 0 <= i < s.0.len() implies #[trigger] t[i].hand == s.0[i].hand && t[i].discard == s.0[i].discard
        && t[i].draft == s.0[i].draft && t[i].lockup == s.0[i].lockup by {
        if i == pid {
            assert(t[i].hand == s.0[i].hand);
        }
    }
}

proof fn lemma_giveable_piles(s: board::Scene, pid: usize, c: usize, g: GIVEABLE)
    ensures
        same_piles(s.0, resolve_cards::giveable_scene(s, pid, c, g).0),
{
    let t = resolve_cards::giveable_scene(s, pid, c, g).0;
    assert forall|i: int| 0 <= i < s.0.len() implies #[trigger] t[i].hand == s.0[i].hand && t[i].discard == s.0[i].discard
        && t[i].draft == s.0[i].draft && t[i].lockup == s.0[i].lockup by {
        if i == pid {
            assert(t[i].hand == s.0[i].hand);
        }
    }
}

proof fn lemma_play_cards_piles(s: board::Scene, pid: usize, cs: Seq<usize>)
    ensures
        same_piles(s.0, resolve_cards::play_cards_scene(s, pid, cs).0),
    decreases cs.len(),
{
    if cs.len() > 0 {
        let t = resolve_cards::play_cards_scene(s, pid, cs.drop_last());
        let c = cs.last();
        lemma_play_cards_piles(s, pid, cs.drop_last());
        let t1 = resolve_cards::giveable_scene(t, pid, c, cards::card_spec(c).giveables);
        lemma_giveable_piles(t, pid, c, cards::card_spec(c).giveables);
        lemma_piles_trans(s.0, t.0, t1.0);
        match cards::card_spec(c).giveablefn {
            Some(e) => {
                lemma_effect_piles(t1, e, pid, c);
                lemma_piles_trans(s.0, t1.0, board::effect_scene(t1, e, pid, c).0);
            },
            None => {},
        }
    }
}

proof fn lemma_gains_fold_piles(s: board::Scene, pid: usize, l: Seq<usize>, skip: Seq<usize>)
    ensures
        same_piles(s.0, resolve_cards::genre_gains_fold(s, pid, l, skip).0),
    decreases l.len(),
{
    if l.len() > 0 {
        let c = l.last();
        let t = resolve_cards::genre_gains_fold(s, pid, l.drop_last(), skip);
        lemma_gains_fold_piles(s, pid, l.drop_last(), skip);
        if !skip.contains(c) {
            lemma_giveable_piles(t, pid, c, cards::card_spec(c).genre_giveables);
            lemma_piles_trans(s.0, t.0, resolve_cards::giveable_scene(t, pid, c, cards::card_spec(c).genre_giveables).0);
        }
    }
}

proof fn lemma_effects_fold_piles(s: board::Scene, pid: usize, l: Seq<usize>, skip: Seq<usize>)
    ensures
        same_piles(s.0, resolve_cards::genre_effects_fold(s, pid, l, skip).0),
    decreases l.len(),
{
    if l.len() > 0 {
        let c = l.last();
        let t = resolve_cards::genre_effects_fold(s, pid, l.drop_last(), skip);
        lemma_effects_fold_piles(s, pid, l.drop_last(), skip);
        match cards::card_spec(c).genrefn {
            Some(e) => if !skip.contains(c) {
                lemma_effect_piles(t, e, pid, c);
                lemma_piles_trans(s.0, t.0, board::effect_scene(t, e, pid, c).0);
            },
            None => {},
        }
    }
}

proof fn lemma_gains_lists_piles(s: board::Scene, pid: usize, ls: Seq<Seq<usize>>, skip: Seq<usize>)
    ensures
        same_piles(s.0, resolve_cards::gains_over_lists(s, pid, ls, skip).0),
    decreases ls.len(),
{
    if ls.len() > 0 {
        let t = resolve_cards::gains_over_lists(s, pid, ls.drop_last(), skip);
        lemma_gains_lists_piles(s, pid, ls.drop_last(), skip);
        if ls.last().len() >= 2 {
            lemma_gains_fold_piles(t, pid, ls.last(), skip);
            lemma_piles_trans(s.0, t.0, resolve_cards::genre_gains_fold(t, pid, ls.last(), skip).0);
        }
    }
}

proof fn lemma_effects_lists_piles(s: board::Scene, pid: usize, ls: Seq<Seq<usize>>, skip: Seq<usize>)
    ensures
        same_piles(s.0, resolve_cards::effects_over_lists(s, pid, ls, skip).0),
    decreases ls.len(),
{
    if ls.len() > 0 {
        let t = resolve_cards::effects_over_lists(s, pid, ls.drop_last(), skip);
        lemma_effects_lists_piles(s, pid, ls.drop_last(), skip);
        if ls.last().len() >= 2 {
            lemma_effects_fold_piles(t, pid, ls.last(), skip);
            lemma_piles_trans(s.0, t.0, resolve_cards::genre_effects_fold(t, pid, ls.last(), skip).0);
        }
    }
}

proof fn lemma_trash_scene_piles(s: board::Scene, pid: usize, cs: Seq<usize>)
    ensures
        resolve_cards::trash_scene(s, pid, cs).0 == s.0,
    decreases cs.len(),
{
    if cs.len() > 0 && pid < s.0.len() {
        lemma_trash_scene_piles(s, pid, cs.drop_last());
    }
}

/// Resolving a layout keeps every player's hand, discard pile, draft and
/// locked-up cards: it changes tallies, layouts and queues only.
pub proof fn lemma_resolve_keeps_piles(s: board::Scene, pid: usize)
    ensures
        same_piles(s.0, resolve_cards::resolve_cards_scene(s, pid).0),
{
    let s1 = (s.0, resolve_cards::push_mark(s.1, pid as int));
    let cs = resolve_cards::played_cards(s, pid);
    let s2 = resolve_cards::play_cards_scene(s1, pid, cs);
    let ls = resolve_cards::genre_lists(resolve_cards::counted_cards(s, pid));
    let skip = resolve_cards::skip_of(s2, pid);
    let g = resolve_cards::gains_over_lists(s2, pid, ls, skip);
    let s3 = resolve_cards::genre_benefits_scene(s2, pid, ls, skip);
    let s4 = resolve_cards::trash_scene(s3, pid, cs);
    let s5 = resolve_cards::skip_added(s4, pid, cs);
    lemma_play_cards_piles(s1, pid, cs);
    lemma_gains_lists_piles(s2, pid, ls, skip);
    lemma_effects_lists_piles(g, pid, ls, skip);
    lemma_piles_trans(s.0, s2.0, g.0);
    lemma_piles_trans(s.0, g.0, s3.0);
    lemma_trash_scene_piles(s3, pid, cs);
    assert(same_piles(s4.0, s5.0)) by {
        assert forall|i: int| 0 <= i < s4.0.len() implies #[trigger] s5.0[i].hand == s4.0[i].hand && s5.0[i].discard == s4.0[i].discard
            && s5.0[i].draft == s4.0[i].draft && s5.0[i].lockup == s4.0[i].lockup by {
            if i == pid {
                assert(s5.0[i].hand == s4.0[i].hand);
            }
        }
    }
    lemma_piles_trans(s.0, s4.0, s5.0);
}

/// Every card of the game that a command works on.
pub open spec fn cards_in_play(a: Play) -> Multiset<usize> {
    all_cards(a.ps, a.us, a.rm)
}

/// `b` has as many players and unknown piles as `a`, and holds no card twice
/// when `a` holds none twice.
pub open spec fn keeps_once(a: Play, b: Play) -> bool {
    &&& b.ps.len() == a.ps.len()
    &&& b.us.len() == a.us.len()
    &&& each_once(cards_in_play(a)) ==> each_once(cards_in_play(b))
}

proof fn lemma_keeps_trans(a: Play, b: Play, c: Play)
    requires
        keeps_once(a, b),
        keeps_once(b, c),
    ensures
        keeps_once(a, c),
{
}

proof fn lemma_same_piles_keeps(a: Play, b: Play)
    requires
        a.ps.len() <= a.us.len(),
        same_piles(a.ps, b.ps),
        b.us == a.us,
        b.rm == a.rm,
    ensures
        keeps_once(a, b),
{
    lemma_piles_cards(a.ps, b.ps, a.us, a.rm, a.ps.len());
}

proof fn lemma_arranged_piles(ps: Seq<PlayerView>, pid: usize, cmd: GameCommand)
    requires
        cmd.personal is None,
        pid < ps.len(),
    ensures
        same_piles(ps, ps.update(pid as int, game_engine::arranged_by(ps[pid as int], cmd))),
{
    let qs = ps.update(pid as int, game_engine::arranged_by(ps[pid as int], cmd));
    assert forall|i: int| 0 <= i < ps.len() implies #[trigger] qs[i].hand == ps[i].hand && qs[i].discard == ps[i].discard
        && qs[i].draft == ps[i].draft && qs[i].lockup == ps[i].lockup by {
        if i == pid {
            assert(qs[i].hand == ps[i].hand);
        }
    }
}

proof fn lemma_submit_piles(ps: Seq<PlayerView>, qs: Seq<Seq<Option<WaitView>>>, pid: usize, cmd: GameCommand, word_valid: bool, push: bool)
    requires
        pid < ps.len(),
    ensures
        same_piles(ps, command::submit_result(ps, qs, pid, cmd, word_valid, push).0),
{
    let p = ps[pid as int];
    if game_engine::player_budget(p) && cmd.submit_word == Some(true) {
        let word = spell::word_of(p.arranged);
        let ps2 = spell::literacy_update(ps, pid, word.len());
        assert(same_piles(ps, ps2)) by {
            assert forall|i: int| 0 <= i < ps.len() implies #[trigger] ps2[i].hand == ps[i].hand && ps2[i].discard == ps[i].discard
                && ps2[i].draft == ps[i].draft && ps2[i].lockup == ps[i].lockup by {
                assert(ps2[i].hand == ps[i].hand);
            }
        }
        if word_valid && game_engine::player_budget(ps2[pid as int]) {
            lemma_resolve_keeps_piles((ps2, qs), pid);
            lemma_piles_trans(ps, ps2, resolve_cards::resolve_cards_scene((ps2, qs), pid).0);
        }
    }
}

/// Ending the draft leaves the player's hand and unknown cards made of the
/// draft's cards.
proof fn lemma_draft_once(a: Play, b: Play, pid: usize, cmd: GameCommand, ticks: Option<u16>)
    requires
        pid < a.ps.len(),
        a.ps.len() <= a.us.len(),
        show_draft::draft_ended(pid, cmd.go_to_shuffle, ticks, board::offer_row_of(a.rm),
            a.ps, a.us[pid as int], a.gs[pid as int], a.out, b.ps, b.us[pid as int], b.gs[pid as int], b.out),
        b.us == a.us.update(pid as int, b.us[pid as int]),
        b.rm == a.rm,
    ensures
        keeps_once(a, b),
{
    broadcast use vstd::multiset::group_multiset_axioms;
    broadcast use vstd::seq_lib::lemma_multiset_commutative;
    if cmd.go_to_shuffle == Some(true) {
        let p0 = a.ps[pid as int];
        let p1 = b.ps[pid as int];
        let u0 = a.us[pid as int];
        let u1 = b.us[pid as int];
        assert(b.ps =~= a.ps.update(pid as int, p1));
        assert((u1 + p1.hand).to_multiset() == u1.to_multiset().add(p1.hand.to_multiset()));
        assert forall|c: usize| #[trigger] player_cards(p1, u1).add(a.rm.to_multiset()).count(c)
            <= player_cards(p0, u0).add(a.rm.to_multiset()).count(c) by {
            assert(u1.to_multiset().add(p1.hand.to_multiset()).count(c) == p0.draft.to_multiset().count(c));
            assert(p1.draft.to_multiset().count(c) == 0);
        }
        lemma_seat_shrink(a.ps, a.us, a.rm, pid as int, p1, u1, a.rm);
    } else {
        assert(b.us =~= a.us);
    }
}

/// Trashing a card of the hand keeps each card at most as often as before.
proof fn lemma_trash_hand_once(a: Play, pid: usize, pos: usize)
    requires
        pid < a.ps.len(),
        a.ps.len() <= a.us.len(),
        pos < a.ps[pid as int].hand.len(),
    ensures
        keeps_once(a, Play { ps: purchase::trash_result(pos, a.ps, pid), ..a }),
{
    broadcast use vstd::multiset::group_multiset_axioms;
    let p = a.ps[pid as int];
    let p2 = purchase::trash_result(pos, a.ps, pid)[pid as int];
    assert(purchase::trash_result(pos, a.ps, pid) =~= a.ps.update(pid as int, p2));
    lemma_remove_fewer(p.hand, pos as int);
    lemma_seat_shrink(a.ps, a.us, a.rm, pid as int, p2, a.us[pid as int], a.rm);
    assert(a.us.update(pid as int, a.us[pid as int]) =~= a.us);
}

/// Taking cards off the end of the remaining cards keeps each card at most
/// as often as before.
proof fn lemma_popped_once(a: Play, k: int)
    requires
        0 <= k,
    ensures
        keeps_once(a, Play { rm: command::popped(a.rm, k), ..a }),
{
    broadcast use vstd::multiset::group_multiset_axioms;
    broadcast use vstd::seq_lib::lemma_multiset_commutative;
    let rm2 = command::popped(a.rm, k);
    let s = seats_cards(a.ps, a.us, a.ps.len());
    assert forall|c: usize| #[trigger] rm2.to_multiset().count(c) <= a.rm.to_multiset().count(c) by {
        if a.rm.len() > k {
            let rest = a.rm.subrange(a.rm.len() - k, a.rm.len() as int);
            assert(a.rm =~= rm2 + rest);
            assert((rm2 + rest).to_multiset() == rm2.to_multiset().add(rest.to_multiset()));
        }
    }
    if each_once(all_cards(a.ps, a.us, a.rm)) {
        assert forall|c: usize| #[trigger] all_cards(a.ps, a.us, rm2).count(c) <= 1 by {
            assert(all_cards(a.ps, a.us, a.rm).count(c) <= 1);
            assert(rm2.to_multiset().count(c) <= a.rm.to_multiset().count(c));
        }
    }
}

/// Whether the option `r` of the first request of player `pid`, when it buys
/// a locked-up card, names the card locked up at its position.
pub open spec fn names_locked_card(a: Play, pid: usize, r: usize) -> bool {
    pid < a.ps.len() && a.qs[pid as int].len() > 0 ==> match a.qs[pid as int][0] {
        Some(w) => r < w.3.len() ==> match w.3[r as int].2 {
            ReplyEffect::BuyLockupWithInk(_cost, card, position) =>
                position < a.ps[pid as int].lockup.len() ==> card == a.ps[pid as int].lockup[position as int],
            _ => true,
        },
        None => true,
    }
}

/// The replies that move no card keep every pile of the player.
proof fn lemma_reply_piles(ps: Seq<PlayerView>, rm: Seq<usize>, u: Seq<usize>, pid: usize, e: ReplyEffect)
    requires
        pid < ps.len(),
        !(e is TakeRemaining || e is TrashForVp || e is TrashForCoin || e is TakeUnknownCard || e is BuyLockupWithInk),
    ensures
        ({
            let x = reply_result(ps[pid as int], rm, u, e);
            &&& x.1 == rm
            &&& x.2 == u
            &&& same_piles(ps, ps.update(pid as int, x.0))
        }),
{
    let p = ps[pid as int];
    let x = reply_result(p, rm, u, e);
    let qs = ps.update(pid as int, x.0);
    if let ReplyEffect::DoubleAdjacent(z, c1, c2) = e {
        let p1 = game_engine::unskip(p, c1, c2);
        if z == 0 {
            lemma_resolve_keeps_piles((seq![p1], game_engine::empty_queues()), 0);
        }
    }
    assert forall|i: int| 0 <= i < ps.len() implies #[trigger] qs[i].hand == ps[i].hand && qs[i].discard == ps[i].discard
        && qs[i].draft == ps[i].draft && qs[i].lockup == ps[i].lockup by {
        if i == pid {
            assert(qs[i] == x.0);
        }
    }
}

proof fn lemma_reply_applied_once(a: Play, pid: usize, r: usize)
    requires
        a.ps.len() <= a.us.len(),
        names_locked_card(a, pid, r),
    ensures
        keeps_once(a, command::reply_applied(a, pid, r).0),
{
    let m = command::reply_applied(a, pid, r).0;
    if pid < a.ps.len() && a.qs[pid as int].len() > 0 {
        if let Some(w) = a.qs[pid as int][0] {
            if r < w.3.len() {
                let e = w.3[r as int].2;
                let p = a.ps[pid as int];
                let u = a.us[pid as int];
                if reply_allowed(p, a.rm, u, e) {
                    if e is TakeRemaining || e is TrashForVp || e is TrashForCoin || e is TakeUnknownCard || e is BuyLockupWithInk {
                        lemma_reply_keeps_each_card_once(a.ps, a.us, a.rm, pid, e);
                    } else {
                        lemma_reply_piles(a.ps, a.rm, u, pid, e);
                        assert(a.us.update(pid as int, u) =~= a.us);
                        lemma_same_piles_keeps(a, m);
                    }
                } else {
                    assert(a.ps.update(pid as int, p) =~= a.ps);
                    assert(a.us.update(pid as int, u) =~= a.us);
                }
            }
        }
    }
}

proof fn lemma_phase_step_once(a: Play, b: Play, n: Option<Seq<char>>, pid: usize, cmd: GameCommand, word_valid: bool, nc: usize, push: bool, ticks: Option<u16>, ti: usize)
    requires
        command::phase_step(a, b, n, pid, cmd, word_valid, nc, push, ticks, ti),
        a.ps.len() <= a.us.len(),
        a.ps.len() <= a.qs.len(),
        a.gs.len() == a.ps.len(),
        cmd.personal is None,
    ensures
        keeps_once(a, b),
{
    if cmd.reply is None && pid < nc && pid < a.gs.len() {
        match a.gs[pid as int] {
            GameState::ShowDraft => {
                if cmd.go_to_shuffle != Some(true) || a.ps[pid as int].draft.len() >= 5 {
                    lemma_draft_once(a, b, pid, cmd, ticks);
                }
            },
            GameState::Spell => {
                let o = choose|o: Seq<Outgoing>| #[trigger] command::spelled(a.ps, a.us[pid as int], a.qs, a.out, pid, cmd, b.ps, b.qs, o);
                lemma_arranged_piles(a.ps, pid, cmd);
                lemma_same_piles_keeps(a, b);
            },
            GameState::TurnToSubmit => {
                let (ps, qs, o) = choose|ps: Seq<PlayerView>, qs: Seq<Seq<Option<WaitView>>>, o: Seq<Outgoing>|
                    #[trigger] command::spelled(a.ps, a.us[pid as int], a.qs, a.out, pid, cmd, ps, qs, o)
                    && b.ps == command::submit_result(ps, qs, pid, cmd, word_valid, push).0;
                lemma_arranged_piles(a.ps, pid, cmd);
                lemma_submit_piles(ps, qs, pid, cmd, word_valid, push);
                lemma_piles_trans(a.ps, ps, b.ps);
                lemma_same_piles_keeps(a, b);
            },
            GameState::Buy => {
                match cmd.buy_offer {
                    Some(o) => if o.0 && command::in_table(a.rm) && a.ps[pid as int].coin + 5 <= usize::MAX {
                        lemma_buy_keeps_each_card(o.1, a.rm, a.ps, a.us, a.qs, pid);
                    },
                    None => {},
                }
            },
            GameState::LockUp => {
                match cmd.lockup {
                    Some(o) => if o.0 && o.1 < a.rm.len() {
                        lemma_lockup_keeps_each_card(o.1, a.rm, a.ps, a.us, a.qs, pid);
                    },
                    None => {},
                }
            },
            GameState::TrashOther(_) => {
                match cmd.trash_other {
                    Some(o) => if o.0 && o.1 < a.ps[pid as int].hand.len() && a.ps[pid as int].coin < usize::MAX {
                        lemma_trash_hand_once(a, pid, o.1);
                    },
                    None => {},
                }
            },
            GameState::PutBackDiscard(ind, responsible) => {
                let fits = match purchase::putback_index(ind, a.rm, a.ps[pid as int].discard) {
                    Some(k) => k < a.rm.len(),
                    None => true,
                };
                if cmd.putback_discard == Some(true) && fits {
                    lemma_putback_keeps_each_card(ind, responsible, a.rm, a.ps, a.us, a.qs, pid);
                }
            },
            _ => {},
        }
    }
}

/// Handling a command never puts a card in two places: when no card of the
/// game (in the players' hands, discard piles, drafts, locked-up and unknown
/// cards, and the remaining cards) occurs twice before, none occurs twice
/// after. Cards move between these places or leave the game; none is copied.
/// This is stated of commands that do not hand in a hand of their own, and of
/// replies whose purchase of a locked-up card names the card locked up at
/// that position.
pub proof fn lemma_command_keeps_each_card_once(e0: GameEngine, o0: Seq<Outgoing>, pid: usize, cmd: GameCommand, word_valid: bool, e: GameEngine, o: Seq<Outgoing>)
    requires
        e0.wf(),
        command::command_handled(e0, o0, pid, cmd, word_valid, e, o),
        cmd.personal is None,
        cmd.reply matches Some(r) ==> names_locked_card(command::play_of(e0, o0), pid, r),
    ensures
        each_once(cards_in_play(command::play_of(e0, o0))) ==> each_once(cards_in_play(command::play_of(e, o))),
{
    if pid < game_engine::MAX_SEATS {
        let a = command::play_of(e0, o0);
        let nc = e0.num_connections;
        let (s1, n, s3, s4) = choose|s1: Play, n: Option<Seq<char>>, s3: Play, s4: Play|
            #![trigger command::phase_step(a, s1, n, pid, cmd, word_valid, nc, e0.push_notification, e0.ticks, e0.turn_index), command::send_step(s3, s4, pid, cmd, nc, e0.turn_index, e0.ticks)]
            command::phase_step(a, s1, n, pid, cmd, word_valid, nc, e0.push_notification, e0.ticks, e0.turn_index)
            && command::notified(Play { rm: command::popped(s1.rm, command::refill_count(a.rm)), ..s1 }, s3, n, nc)
            && command::send_step(s3, s4, pid, cmd, nc, e0.turn_index, e0.ticks)
            && command::reply_done(s4, command::play_of(e, o), pid, cmd, nc, e0.turn_index, e0.ticks);
        lemma_phase_step_once(a, s1, n, pid, cmd, word_valid, nc, e0.push_notification, e0.ticks, e0.turn_index);
        let s2 = Play { rm: command::popped(s1.rm, command::refill_count(a.rm)), ..s1 };
        lemma_popped_once(s1, command::refill_count(a.rm));
        lemma_keeps_trans(a, s1, s2);
        assert(keeps_once(s2, s3));
        lemma_keeps_trans(a, s2, s3);
        assert(keeps_once(s3, s4));
        lemma_keeps_trans(a, s3, s4);
        let b = command::play_of(e, o);
        match cmd.reply {
            Some(r) => {
                assert(s4.ps == a.ps && s4.qs == a.qs);
                assert(names_locked_card(s4, pid, r));
                lemma_reply_applied_once(s4, pid, r);
                lemma_keeps_trans(a, s4, command::reply_applied(s4, pid, r).0);
            },
            None => {},
        }
    }
}

/// Seats that each hold the same cards hold the same cards together.
proof fn lemma_seats_same(ps: Seq<PlayerView>, us: Seq<Seq<usize>>, qs: Seq<PlayerView>, vs: Seq<Seq<usize>>, n: nat)
    requires
        forall|i: int| 0 <= i < n ==> #[trigger] player_cards(qs[i], vs[i]) == player_cards(ps[i], us[i]),
    ensures
        seats_cards(qs, vs, n) == seats_cards(ps, us, n),
    decreases n,
{
    if n > 0 {
        lemma_seats_same(ps, us, qs, vs, (n - 1) as nat);
        assert(player_cards(qs[n - 1], vs[n - 1]) == player_cards(ps[n - 1], us[n - 1]));
    }
}

/// Refilling a hand keeps the cards of the player.
proof fn lemma_redrawn_cards(p0: PlayerView, u0: Seq<usize>, p: PlayerView, u: Seq<usize>)
    requires
        draw_card::redrawn(p0, u0, p, u),
    ensures
        player_cards(p, u) == player_cards(p0, u0),
{
    broadcast use vstd::multiset::group_multiset_axioms;
    broadcast use vstd::seq_lib::lemma_multiset_commutative;
    draw_card::lemma_redraw_keeps_cards(p0, u0, p, u);
    assert((p.hand + p.discard + u).to_multiset() =~= (p.hand + p.discard).to_multiset().add(u.to_multiset()));
    assert((p.hand + p.discard).to_multiset() =~= p.hand.to_multiset().add(p.discard.to_multiset()));
    assert((p0.hand + p0.discard + u0).to_multiset() =~= (p0.hand + p0.discard).to_multiset().add(u0.to_multiset()));
    assert((p0.hand + p0.discard).to_multiset() =~= p0.hand.to_multiset().add(p0.discard.to_multiset()));
    assert(p.draft == p0.draft && p.lockup == p0.lockup);
    assert forall|c: usize| #[trigger] player_cards(p, u).count(c) == player_cards(p0, u0).count(c) by {
        assert((p.hand + p.discard + u).to_multiset().count(c) == (p0.hand + p0.discard + u0).to_multiset().count(c));
    }
    assert(player_cards(p, u) =~= player_cards(p0, u0));
}

/// The cards of a stage of a round, with the remaining cards `rm`.
pub open spec fn stage_cards(s: game_engine::Stage, rm: Seq<usize>) -> Multiset<usize> {
    all_cards(s.ps, s.us, rm)
}

/// Resolving uncovered cards again keeps every pile.
proof fn lemma_uncover_piles(s: board::Scene, gs: Seq<GameState>, n: nat)
    ensures
        same_piles(s.0, draw_card::uncover_scene(s, gs, n).0),
    decreases n,
{
    if n > 0 {
        let prev = draw_card::uncover_scene(s, gs, (n - 1) as nat);
        lemma_uncover_piles(s, gs, (n - 1) as nat);
        if gs[n - 1] is ResolveAgain {
            lemma_resolve_keeps_piles(prev, (n - 1) as usize);
            lemma_piles_trans(s.0, prev.0, resolve_cards::resolve_cards_scene(prev, (n - 1) as usize).0);
        }
    }
}

/// A round of the game loop never puts a card in two places: when no card of
/// the game occurs twice before, none occurs twice after. Hands are refilled
/// from the player's own cards, resolving again moves no card, and showing
/// the result only empties the hands.
pub proof fn lemma_round_keeps_each_card_once(e0: GameEngine, o0: Seq<Outgoing>, e: GameEngine, o: Seq<Outgoing>)
    requires
        e0.wf(),
        game_engine::round_played(e0, o0, e, o),
    ensures
        each_once(cards_in_play(command::play_of(e0, o0))) ==> each_once(cards_in_play(command::play_of(e, o))),
{
    broadcast use vstd::multiset::group_multiset_axioms;
    let nc = e0.num_connections;
    let rm = e0.remaining_cards@;
    let s0 = game_engine::stage_of(e0, o0);
    let (s1, s2, s3, s4) = choose|s1: game_engine::Stage, s2: game_engine::Stage, s3: game_engine::Stage, s4: game_engine::Stage|
        #![trigger game_engine::result_step(s1, s2, nc, e0.ticks), game_engine::refilled(s2, s3), game_engine::uncovered(s3, s4, nc, e0.ticks)]
        game_engine::end_watched(s0, s1, nc)
        && game_engine::result_step(s1, s2, nc, e0.ticks)
        && game_engine::refilled(s2, s3)
        && game_engine::uncovered(s3, s4, nc, e0.ticks)
        && game_engine::moved_on(s4, game_engine::stage_of(e, o), nc, e0.remaining_cards@, e0.ticks);
    let s5 = game_engine::stage_of(e, o);
    assert(s1.ps == s0.ps && s1.us == s0.us);
    // Showing the result empties the hands.
    assert(s2.ps.len() == s1.ps.len() && s2.us == s1.us);
    if each_once(stage_cards(s1, rm)) && s2.ps != s1.ps {
        let cl = end_game::all_cleared(s1.ps);
        assert(s2.ps == cl);
        lemma_cleared_once(s1.ps, s1.us, rm, s1.ps.len());
    }
    // Refilling hands keeps the cards of each seat.
    assert(s3.ps.len() == s2.ps.len() && s3.us.len() == s2.us.len());
    assert(seats_cards(s3.ps, s3.us, s3.ps.len()) == seats_cards(s2.ps, s2.us, s2.ps.len())) by {
        if game_engine::refill_room(s2.ps, s2.gs) {
            assert forall|i: int| 0 <= i < s2.ps.len() implies #[trigger] player_cards(s3.ps[i], s3.us[i]) == player_cards(s2.ps[i], s2.us[i]) by {
                if i < s2.gs.len() && s2.gs[i] == GameState::PreDrawCard {
                    lemma_redrawn_cards(s2.ps[i], s2.us[i], s3.ps[i], s3.us[i]);
                } else {
                    assert(s3.us[i] == s2.us[i]);
                }
            }
            lemma_seats_same(s2.ps, s2.us, s3.ps, s3.us, s2.ps.len());
        }
    }
    // Resolving again moves no card.
    assert(s4.us == s3.us);
    if game_engine::uncover_room(s3.ps, s3.gs) {
        let m = vstd::math::min(s3.ps.len() as int, s3.gs.len() as int) as nat;
        lemma_uncover_piles((s3.ps, s3.qs), s3.gs, m);
    }
    assert(same_piles(s3.ps, s4.ps));
    lemma_piles_cards(s3.ps, s4.ps, s3.us, rm, s3.ps.len());
    assert(s5.ps == s4.ps && s5.us == s4.us);
    assert(e.remaining_cards@ == rm);
}

/// Emptying every hand keeps each card at most as often as before.
proof fn lemma_cleared_once(ps: Seq<PlayerView>, us: Seq<Seq<usize>>, rm: Seq<usize>, n: nat)
    requires
        n == ps.len(),
        each_once(all_cards(ps, us, rm)),
    ensures
        each_once(all_cards(end_game::all_cleared(ps), us, rm)),
{
    broadcast use vstd::multiset::group_multiset_axioms;
    lemma_cleared_fewer(ps, us, n);
    let cl = end_game::all_cleared(ps);
    assert forall|c: usize| #[trigger] all_cards(cl, us, rm).count(c) <= 1 by {
        assert(seats_cards(cl, us, n).count(c) <= seats_cards(ps, us, n).count(c));
        assert(all_cards(ps, us, rm).count(c) <= 1);
    }
}

proof fn lemma_cleared_fewer(ps: Seq<PlayerView>, us: Seq<Seq<usize>>, n: nat)
    requires
        n <= ps.len(),
    ensures
        forall|c: usize| #[trigger] seats_cards(end_game::all_cleared(ps), us, n).count(c) <= seats_cards(ps, us, n).count(c),
    decreases n,
{
    broadcast use vstd::multiset::group_multiset_axioms;
    if n > 0 {
        lemma_cleared_fewer(ps, us, (n - 1) as nat);
        let cl = end_game::all_cleared(ps);
        let i = n - 1;
        assert(cl[i] == end_game::cleared(ps[i]));
        assert(cl[i].hand.to_multiset() =~= Multiset::empty());
        assert forall|c: usize| #[trigger] seats_cards(cl, us, n).count(c) <= seats_cards(ps, us, n).count(c) by {
            assert(seats_cards(cl, us, (n - 1) as nat).count(c) <= seats_cards(ps, us, (n - 1) as nat).count(c));
            assert(player_cards(cl[i], us[i]).count(c) <= player_cards(ps[i], us[i]).count(c));
        }
    }
}

/// Joining two sequences adds their counts.
proof fn lemma_concat_count(a: Seq<usize>, b: Seq<usize>, x: usize)
    ensures
        (a + b).to_multiset().count(x) == a.to_multiset().count(x) + b.to_multiset().count(x),
{
    broadcast use vstd::multiset::group_multiset_axioms;
    vstd::seq_lib::lemma_multiset_commutative(a, b);
}

/// The cards of the table not owned occur once each.
proof fn lemma_unowned_count(owned: Seq<usize>, n: nat, x: usize)
    requires
        n <= NUM_CARDS,
    ensures
        draft::unowned(owned, n).to_multiset().count(x) == if x < n && !owned.contains(x) { 1nat } else { 0nat },
    decreases n,
{
    broadcast use vstd::multiset::group_multiset_axioms;
    if n == 0 {
        assert(draft::unowned(owned, n).to_multiset().len() == 0);
    } else {
        lemma_unowned_count(owned, (n - 1) as nat, x);
        let prev = draft::unowned(owned, (n - 1) as nat);
        lemma_push_count(prev, (n - 1) as usize);
    }
}

/// The coin and victory-point starters picked from `rem` are cards of `rem`,
/// none taken twice.
proof fn lemma_starter_picks_within(rem: Seq<usize>, x: usize)
    ensures
        draft::starter_picks(rem).1.to_multiset().count(x) + draft::starter_picks(rem).2.to_multiset().count(x)
            <= rem.to_multiset().count(x),
    decreases rem.len(),
{
    broadcast use vstd::multiset::group_multiset_axioms;
    if rem.len() == 0 {
        let sp = draft::starter_picks(rem);
        assert(sp.1.to_multiset().len() == 0);
        assert(sp.2.to_multiset().len() == 0);
    } else {
        let init = rem.drop_last();
        lemma_starter_picks_within(init, x);
        let prev = draft::starter_picks(init);
        lemma_push_count(prev.1, rem.last());
        lemma_push_count(prev.2, rem.last());
        lemma_push_count(init, rem.last());
        assert(init.push(rem.last()) =~= rem);
    }
}

/// Reversing keeps the count of each card.
proof fn lemma_reverse_count(s: Seq<usize>, x: usize)
    ensures
        s.reverse().to_multiset().count(x) == s.to_multiset().count(x),
    decreases s.len(),
{
    broadcast use vstd::multiset::group_multiset_axioms;
    if s.len() > 0 {
        let init = s.drop_last();
        lemma_reverse_count(init, x);
        assert(s.reverse() =~= seq![s.last()] + init.reverse());
        lemma_concat_count(seq![s.last()], init.reverse(), x);
        assert(seq![s.last()] =~= Seq::<usize>::empty().push(s.last()));
        lemma_push_count(Seq::<usize>::empty(), s.last());
        assert(Seq::<usize>::empty().to_multiset().len() == 0);
        lemma_push_count(init, s.last());
        assert(init.push(s.last()) =~= s);
    }
}

/// The two victory-point cards drawn are two of the cards drawn from.
proof fn lemma_picks_within(vs: Seq<usize>, picks: Seq<usize>, x: usize)
    requires
        draft::drawn_from(vs, picks),
    ensures
        picks.to_multiset().count(x) <= vs.to_multiset().count(x),
{
    broadcast use vstd::multiset::group_multiset_axioms;
    let (c1, c2) = choose|c1: int, c2: int| #![trigger vs.remove(c1)[c2]] 0 <= c1 < vs.len() - 1 && 0 <= c2 < vs.len() - 2
        && picks == seq![vs[c1], vs.remove(c1)[c2]];
    let r = vs.remove(c1);
    lemma_remove_fewer(vs, c1);
    lemma_remove_fewer(r, c2);
    let one = Seq::<usize>::empty().push(vs[c1]);
    assert(picks =~= one.push(r[c2]));
    lemma_push_count(one, r[c2]);
    lemma_push_count(Seq::<usize>::empty(), vs[c1]);
    assert(Seq::<usize>::empty().to_multiset().len() == 0);
}

/// The cards a seat is dealt by the game's own starting draft occur once
/// each, are not owned before the deal, and are owned after it.
proof fn lemma_seat_dealt_once(d: draft::TheStartingDraftStruct, ps0: Seq<PlayerView>, us0: Seq<Seq<usize>>, ps: Seq<PlayerView>, us: Seq<Seq<usize>>,
    os: Seq<Seq<usize>>, k: int, x: usize)
    requires
        game_engine::seat_dealt(d, ps0, us0, ps, us, os, k),
        ps0[k].discard.len() == 0,
        ps0[k].lockup.len() == 0,
        us0[k].len() == 0,
    ensures
        player_cards(ps[k], us[k]).count(x) <= 1,
        player_cards(ps[k], us[k]).count(x) > 0 ==> !os[k].contains(x) && os[k + 1].contains(x),
        os[k].to_multiset().count(x) <= os[k + 1].to_multiset().count(x),
{
    broadcast use vstd::multiset::group_multiset_axioms;
    let o0 = os[k];
    let o1 = os[k + 1];
    let p1 = ps[k];
    let u1 = us[k];
    let coins = draft::starters(o0).1;
    let vps = draft::starters(o0).2;
    let kk = (o0.len() + coins.len()) as int;
    let picks = o1.subrange(kk, kk + 2);
    assert(u1 == us0[k]);
    assert(p1.discard =~= Seq::<usize>::empty());
    assert(p1.lockup =~= Seq::<usize>::empty());
    assert(u1 =~= Seq::<usize>::empty());
    assert(Seq::<usize>::empty().to_multiset().len() == 0);
    lemma_concat_count(p1.hand, p1.draft, x);
    lemma_concat_count(coins, picks, x);
    lemma_picks_within(vps, picks, x);
    lemma_starter_picks_within(draft::unowned(o0, NUM_CARDS as nat), x);
    lemma_unowned_count(o0, NUM_CARDS as nat, x);
    assert(player_cards(p1, u1).count(x) == p1.hand.to_multiset().count(x) + p1.draft.to_multiset().count(x));
    lemma_concat_count(o0, coins, x);
    lemma_concat_count(o0 + coins, picks, x);
    lemma_concat_count(o0 + coins + picks, p1.hand, x);
    lemma_concat_count(o0 + coins + picks + p1.hand, p1.draft, x);
}

/// Dealing the starting cards puts no card in two places: when the players
/// start with no discarded, locked-up or unknown cards, the seats dealt by
/// the game's own starting draft and the deck dealt after them hold each
/// card at most once.
pub proof fn lemma_start_deals_each_card_once(d: draft::TheStartingDraftStruct, ps0: Seq<PlayerView>, us0: Seq<Seq<usize>>,
    ps: Seq<PlayerView>, us: Seq<Seq<usize>>, os: Seq<Seq<usize>>)
    requires
        ps.len() == ps0.len(),
        game_engine::seats_dealt(d, ps0, us0, ps, us, os, ps0.len() as int),
        forall|k: int| 0 <= k < ps0.len() ==> (#[trigger] ps0[k]).discard.len() == 0 && ps0[k].lockup.len() == 0 && us0[k].len() == 0,
    ensures
        each_once(all_cards(ps, us, d.deck_of(os[ps0.len() as int]))),
{
    broadcast use vstd::multiset::group_multiset_axioms;
    let n = ps0.len();
    let deck = d.deck_of(os[n as int]);
    assert forall|x: usize| #[trigger] all_cards(ps, us, deck).count(x) <= 1 by {
        lemma_dealt_prefix(d, ps0, us0, ps, us, os, n, x);
        assert(os[n as int] + Seq::<usize>::empty() =~= os[n as int]);
        assert(deck =~= draft::unowned(os[n as int], NUM_CARDS as nat).reverse());
        lemma_reverse_count(draft::unowned(os[n as int], NUM_CARDS as nat), x);
        lemma_unowned_count(os[n as int], NUM_CARDS as nat, x);
    }
}

proof fn lemma_dealt_prefix(d: draft::TheStartingDraftStruct, ps0: Seq<PlayerView>, us0: Seq<Seq<usize>>,
    ps: Seq<PlayerView>, us: Seq<Seq<usize>>, os: Seq<Seq<usize>>, m: nat, x: usize)
    requires
        m <= ps0.len(),
        ps.len() == ps0.len(),
        game_engine::seats_dealt(d, ps0, us0, ps, us, os, ps0.len() as int),
        forall|k: int| 0 <= k < ps0.len() ==> (#[trigger] ps0[k]).discard.len() == 0 && ps0[k].lockup.len() == 0 && us0[k].len() == 0,
    ensures
        seats_cards(ps, us, m).count(x) <= 1,
        seats_cards(ps, us, m).count(x) > 0 ==> os[m as int].contains(x),
    decreases m,
{
    broadcast use vstd::multiset::group_multiset_axioms;
    if m == 0 {
        assert(seats_cards(ps, us, m).len() == 0);
    } else {
        let k = m - 1;
        lemma_dealt_prefix(d, ps0, us0, ps, us, os, (m - 1) as nat, x);
        assert(game_engine::seat_dealt(d, ps0, us0, ps, us, os, k));
        assert(ps0[k].discard.len() == 0);
        lemma_seat_dealt_once(d, ps0, us0, ps, us, os, k, x);
    }
}

} // verus!
