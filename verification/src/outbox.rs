use vstd::prelude::*;
use crate::board;
use crate::codec::{self, BoardCodec, GameState, Outgoing, Player, PlayerView, WaitForSingleInput, WaitView};

verus! {

/// A copy of the players.
pub fn copy_players(ps: &Vec<Player>) -> (r: Vec<Player>)
    ensures
        codec::players_view(r) == codec::players_view(*ps),
{
    let mut r: Vec<Player> = Vec::new();
    let mut i: usize = 0;
    while i < ps.len()
        invariant
            i <= ps@.len(),
            r@.len() == i,
            forall|j: int| 0 <= j < i ==> (#[trigger] r@[j])@ == ps@[j]@,
        decreases ps@.len() - i,
    {
        r.push(ps[i].duplicate());
        i = i + 1;
    }
    assert(codec::players_view(r) =~= codec::players_view(*ps));
    r
}

/// A copy of the phases.
pub fn copy_states(gs: &Vec<GameState>) -> (r: Vec<GameState>)
    ensures
        r@ == gs@,
{
    let mut r: Vec<GameState> = Vec::new();
    let mut i: usize = 0;
    while i < gs.len()
        invariant
            i <= gs@.len(),
            r@ == gs@.subrange(0, i as int),
        decreases gs@.len() - i,
    {
        r.push(gs[i]);
        i = i + 1;
    }
    r
}

/// The board message for connection `to` with the given contents.
pub open spec fn is_board_msg(m: Outgoing, to: usize, ps: Seq<PlayerView>, gs: Seq<GameState>, offer: Seq<usize>, ti: usize, ticks: Option<u16>) -> bool {
    m matches Outgoing::Board { to: t, board: b } && t == to && codec::players_view(b.players) == ps && b.gamestates@ == gs
        && b.offer_row@ == offer && b.turn_index == ti && b.ticks == ticks
}

/// One board message to each of the first `nc` connections, in order.
pub open spec fn is_board_broadcast(ms: Seq<Outgoing>, nc: usize, ps: Seq<PlayerView>, gs: Seq<GameState>, offer: Seq<usize>, ti: usize, ticks: Option<u16>) -> bool {
    &&& ms.len() == nc
    &&& forall|c: int| 0 <= c < nc ==> is_board_msg(#[trigger] ms[c], c as usize, ps, gs, offer, ti, ticks)
}

/// The request message for a waiting request.
pub open spec fn is_request_msg(m: Outgoing, to: usize, player: usize, w: WaitView, ticks: Option<u16>) -> bool {
    m matches Outgoing::Request { to: t, player: p, card, header, options, ticks: tk }
        && t == to && p == player && card == w.0 && header@ == w.2 && tk == ticks
        && options@.map_values(|s: String| s@) == w.3.map_values(|o: codec::ReplyOptionView| o.1)
}

/// Sends the board to each of the first `nc` connections.
pub fn broadcast_board(outbox: &mut Vec<Outgoing>, nc: usize, players: &Vec<Player>, gamestates: &Vec<GameState>, offer_row: &Vec<usize>, turn_index: usize, ticks: Option<u16>)
    ensures
        final(outbox)@.len() == old(outbox)@.len() + nc,
        final(outbox)@.subrange(0, old(outbox)@.len() as int) == old(outbox)@,
        is_board_broadcast(final(outbox)@.subrange(old(outbox)@.len() as int, final(outbox)@.len() as int), nc,
            codec::players_view(*players), gamestates@, offer_row@, turn_index, ticks),
{
    let ghost start = outbox@.len();
    let mut c: usize = 0;
    while c < nc
        invariant
            c <= nc,
            outbox@.len() == start + c,
            outbox@.subrange(0, start as int) == old(outbox)@,
            start == old(outbox)@.len(),
            forall|k: int| 0 <= k < c ==> is_board_msg(#[trigger] outbox@[start + k], k as usize, codec::players_view(*players), gamestates@, offer_row@, turn_index, ticks),
        decreases nc - c,
    {
        let b = BoardCodec {
            players: copy_players(players),
            gamestates: copy_states(gamestates),
            offer_row: codec::copy_ids(offer_row),
            turn_index,
            ticks,
        };
        outbox.push(Outgoing::Board { to: c, board: b });
        c = c + 1;
    }
    let ghost tail = outbox@.subrange(start as int, outbox@.len() as int);
    assert forall|k: int| 0 <= k < nc implies is_board_msg(#[trigger] tail[k], k as usize, codec::players_view(*players), gamestates@, offer_row@, turn_index, ticks) by {
        assert(tail[k] == outbox@[start + k]);
    }
}

/// The labels of the options of a request.
pub fn option_labels(w: &WaitForSingleInput) -> (labels: Vec<String>)
    ensures
        labels@.map_values(|s: String| s@) == w@.3.map_values(|o: codec::ReplyOptionView| o.1),
{
    let mut labels: Vec<String> = Vec::new();
    let mut i: usize = 0;
    while i < w.options.len()
        invariant
            i <= w.options@.len(),
            labels@.len() == i,
            forall|j: int| 0 <= j < i ==> (#[trigger] labels@[j])@ == w.options@[j].label@,
        decreases w.options@.len() - i,
    {
        labels.push(w.options[i].label.clone());
        i = i + 1;
    }
    assert(labels@.map_values(|s: String| s@) =~= w@.3.map_values(|o: codec::ReplyOptionView| o.1));
    labels
}

/// The request message for a waiting request.
pub fn request_msg(to: usize, player: usize, w: &WaitForSingleInput, ticks: Option<u16>) -> (m: Outgoing)
    ensures
        is_request_msg(m, to, player, w@, ticks),
{
    Outgoing::Request { to, player, card: w.card_index, header: w.header.clone(), options: option_labels(w), ticks }
}


/// Whether `new` is `old` with messages added at its end.
pub open spec fn extends(new: Seq<Outgoing>, old: Seq<Outgoing>) -> bool {
    old.len() <= new.len() && new.subrange(0, old.len() as int) == old
}

/// Adding messages twice adds messages.
pub proof fn lemma_extends_trans(a: Seq<Outgoing>, b: Seq<Outgoing>, c: Seq<Outgoing>)
    requires
        extends(b, a),
        extends(c, b),
    ensures
        extends(c, a),
{
    assert(c.subrange(0, a.len() as int) =~= b.subrange(0, a.len() as int));
}


/// Adding no messages.
pub proof fn lemma_extends_refl(a: Seq<Outgoing>)
    ensures
        extends(a, a),
{
    assert(a.subrange(0, a.len() as int) =~= a);
}

} // verus!
