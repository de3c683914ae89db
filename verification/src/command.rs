use vstd::prelude::*;
use crate::board;
use crate::cards::NUM_CARDS;
use crate::codec::{self, GameCommand, GameState, Outgoing, PlayerView, WaitView};
use crate::end_game;
use crate::outbox;
use crate::game_engine::{self, GameEngine, MAX_SEATS};
use crate::purchase;
use crate::resolve_cards;
use crate::show_draft;
use crate::spell;

verus! {

/// What handling a command works on: the players, their phases, unknown
/// cards and queues, the remaining cards, and the messages sent.
#[verifier::ext_equal]
pub struct Play {
    pub ps: Seq<PlayerView>,
    pub gs: Seq<GameState>,
    pub us: Seq<Seq<usize>>,
    pub qs: Seq<Seq<Option<WaitView>>>,
    pub rm: Seq<usize>,
    pub out: Seq<Outgoing>,
}

/// The part of the engine `e` that a command works on, with the players `ps`.
pub open spec fn play_with(ps: Seq<PlayerView>, e: GameEngine, out: Seq<Outgoing>) -> Play {
    Play {
        ps,
        gs: e.gamestates@,
        us: e.unknown@.map_values(|u: Vec<usize>| u@),
        qs: codec::queues_view(e.wait_for_input),
        rm: e.remaining_cards@,
        out,
    }
}

/// The part of the engine `e` that a command works on.
pub open spec fn play_of(e: GameEngine, out: Seq<Outgoing>) -> Play {
    play_with(codec::players_view(e.players), e, out)
}

/// The text of an optional notice.
pub open spec fn text_of(n: Option<String>) -> Option<Seq<char>> {
    match n {
        Some(s) => Some(s@),
        None => None,
    }
}

/// Whether every card is in the card table.
pub open spec fn in_table(rm: Seq<usize>) -> bool {
    forall|j: int| 0 <= j < rm.len() ==> #[trigger] rm[j] < NUM_CARDS
}

/// The spelling steps of player `pid`, from the players `ps0`, the queues
/// `qs0` and the messages `o0`: asking for an unknown card (of `u`) with ink,
/// spending ink removers, and laying out the cards the command gives.
pub open spec fn spelled(ps0: Seq<PlayerView>, u: Seq<usize>, qs0: Seq<Seq<Option<WaitView>>>, o0: Seq<Outgoing>, pid: usize, cmd: GameCommand,
    ps1: Seq<PlayerView>, qs1: Seq<Seq<Option<WaitView>>>, o1: Seq<Outgoing>) -> bool
{
    &&& exists|qs: Seq<Seq<Option<WaitView>>>, o: Seq<Outgoing>|
        #[trigger] spell::ink_asked(ps0, pid, cmd.take_card_use_ink, u, qs0, o0, qs, o)
        && spell::removers_asked(ps0, pid, spell::ids_of(cmd.use_remover), qs, o, qs1, o1)
    &&& ps1 == if pid < ps0.len() { ps0.update(pid as int, game_engine::arranged_by(ps0[pid as int], cmd)) } else { ps0 }
}

/// After the spelling steps, a command that lays out cards has the board,
/// with the players `ps`, sent to each of the first `nc` connections.
pub open spec fn layout_sent(cmd: GameCommand, ps: Seq<PlayerView>, gs: Seq<GameState>, offer: Seq<usize>, nc: usize, ti: usize, ticks: Option<u16>,
    o0: Seq<Outgoing>, o1: Seq<Outgoing>) -> bool
{
    if cmd.arranged is Some || cmd.personal is Some {
        &&& o1.len() == o0.len() + nc
        &&& o1.subrange(0, o0.len() as int) == o0
        &&& outbox::is_board_broadcast(o1.subrange(o0.len() as int, o1.len() as int), nc, ps, gs, offer, ti, ticks)
    } else {
        o1 == o0
    }
}

/// What submitting a word does after the spelling steps, from the players
/// `ps` and the queues `qs`: when the player's layout can be resolved and the
/// command submits, the literacy award follows the word; a valid word whose
/// resolution can be carried out is resolved. Gives the players, the queues,
/// whether the player goes on to buy (when only a mark is left on the queue),
/// and the notice to announce then, if notices are pushed.
pub open spec fn submit_result(ps: Seq<PlayerView>, qs: Seq<Seq<Option<WaitView>>>, pid: usize, cmd: GameCommand, word_valid: bool, push: bool)
    -> (Seq<PlayerView>, Seq<Seq<Option<WaitView>>>, bool, Option<Seq<char>>)
{
    let p = ps[pid as int];
    if game_engine::player_budget(p) && cmd.submit_word == Some(true) {
        let word = spell::word_of(p.arranged);
        let ps2 = spell::literacy_update(ps, pid, word.len());
        if word_valid && game_engine::player_budget(ps2[pid as int]) {
            let s = resolve_cards::resolve_cards_scene((ps2, qs), pid);
            if s.1[pid as int].len() == 1 && s.1[pid as int][0] is None {
                (s.0, s.1, true, if push { Some(game_engine::formed_notice(pid, word)) } else { None })
            } else {
                (s.0, s.1, false, None)
            }
        } else {
            (ps2, qs, false, None)
        }
    } else {
        (ps, qs, false, None)
    }
}

/// What the buy offer of a command does: the card is bought when the
/// remaining cards are all in the card table and the coins have room for its
/// purchase coins, and a mark goes on an empty queue. Gives the remaining
/// cards, the players and the queues.
pub open spec fn buy_step(a: Play, pid: usize, offer: Option<(bool, usize)>)
    -> (Seq<usize>, Seq<PlayerView>, Seq<Seq<Option<WaitView>>>)
{
    match offer {
        Some(o) if o.0 => {
            let r = if in_table(a.rm) && a.ps[pid as int].coin + 5 <= usize::MAX {
                purchase::buy_result(o.1, a.rm, a.ps, a.qs, pid)
            } else {
                (a.rm, a.ps, a.qs)
            };
            (r.0, r.1, if r.2[pid as int].len() == 0 { r.2.update(pid as int, r.2[pid as int].push(None)) } else { r.2 })
        },
        _ => (a.rm, a.ps, a.qs),
    }
}

/// What a command that is no reply does in the phase of player `pid`, from
/// `a` to `b`, with the notice `n` to announce: ending the draft, spelling
/// (a layout sends the board to every connection),
/// submitting a word, buying (then drawing), locking up, trashing, or
/// putting back drawn cards. A step that the cards or tallies cannot take is
/// left out.
pub open spec fn phase_played(a: Play, b: Play, n: Option<Seq<char>>, pid: usize, cmd: GameCommand, word_valid: bool, push: bool, ticks: Option<u16>, nc: usize, ti: usize) -> bool {
    match a.gs[pid as int] {
        GameState::ShowDraft => {
            &&& n is None
            &&& if cmd.go_to_shuffle != Some(true) || a.ps[pid as int].draft.len() >= 5 {
                &&& show_draft::draft_ended(pid, cmd.go_to_shuffle, ticks, board::offer_row_of(a.rm),
                        a.ps, a.us[pid as int], a.gs[pid as int], a.out, b.ps, b.us[pid as int], b.gs[pid as int], b.out)
                &&& b.us == a.us.update(pid as int, b.us[pid as int])
                &&& b.gs == a.gs.update(pid as int, b.gs[pid as int])
                &&& b.qs == a.qs
                &&& b.rm == a.rm
            } else {
                b == a
            }
        },
        GameState::Spell => {
            &&& n is None
            &&& exists|o: Seq<Outgoing>|
                #[trigger] spelled(a.ps, a.us[pid as int], a.qs, a.out, pid, cmd, b.ps, b.qs, o)
                && layout_sent(cmd, b.ps, a.gs, board::offer_row_of(a.rm), nc, ti, ticks, o, b.out)
            &&& b.gs == a.gs
            &&& b.us == a.us
            &&& b.rm == a.rm
        },
        GameState::TurnToSubmit => {
            &&& exists|ps: Seq<PlayerView>, qs: Seq<Seq<Option<WaitView>>>, o: Seq<Outgoing>|
                #[trigger] spelled(a.ps, a.us[pid as int], a.qs, a.out, pid, cmd, ps, qs, o)
                && layout_sent(cmd, ps, a.gs, board::offer_row_of(a.rm), nc, ti, ticks, o, b.out)
                && {
                    let r = submit_result(ps, qs, pid, cmd, word_valid, push);
                    &&& b.ps == r.0
                    &&& b.qs == r.1
                    &&& n == r.3
                    &&& b.gs == if r.2 { a.gs.update(pid as int, GameState::Buy) } else { a.gs }
                }
            &&& b.us == a.us
            &&& b.rm == a.rm
        },
        GameState::Buy => {
            let r = buy_step(a, pid, cmd.buy_offer);
            &&& n is None
            &&& b == (Play { rm: r.0, ps: r.1, qs: r.2, gs: a.gs.update(pid as int, GameState::PreDrawCard), ..a })
        },
        GameState::LockUp => {
            let r = match cmd.lockup {
                Some(o) if o.0 && o.1 < a.rm.len() => purchase::lockup_result(o.1, a.rm, a.ps, a.qs, pid),
                _ => (a.rm, a.ps, a.qs),
            };
            &&& n is None
            &&& b == (Play { rm: r.0, ps: r.1, qs: r.2, gs: a.gs.update(pid as int, GameState::Buy), ..a })
        },
        GameState::TrashOther(_) => {
            &&& n is None
            &&& b == match cmd.trash_other {
                Some(o) if o.0 => Play {
                    ps: if o.1 < a.ps[pid as int].hand.len() && a.ps[pid as int].coin < usize::MAX { purchase::trash_result(o.1, a.ps, pid) } else { a.ps },
                    gs: a.gs.update(pid as int, GameState::Buy),
                    ..a
                },
                _ => a,
            }
        },
        GameState::PutBackDiscard(ind, responsible) => {
            let fits = match purchase::putback_index(ind, a.rm, a.ps[pid as int].discard) {
                Some(k) => k < a.rm.len(),
                None => true,
            };
            &&& n is None
            &&& b == if cmd.putback_discard == Some(true) && fits {
                let r = purchase::putback_result(ind, responsible, a.rm, a.ps, a.qs, pid);
                Play { rm: r.0, ps: r.1, qs: r.2, ..a }
            } else {
                a
            }
        },
        _ => {
            &&& n is None
            &&& b == a
        },
    }
}

/// The phase step of a command: taken only by a command that is no reply,
/// from a seated player with a connection.
pub open spec fn phase_step(a: Play, b: Play, n: Option<Seq<char>>, pid: usize, cmd: GameCommand, word_valid: bool, nc: usize, push: bool, ticks: Option<u16>, ti: usize) -> bool {
    if cmd.reply is None && pid < nc && pid < a.gs.len() {
        phase_played(a, b, n, pid, cmd, word_valid, push, ticks, nc, ti)
    } else {
        &&& b == a
        &&& n is None
    }
}

/// The remaining cards `rm` with up to `n` cards taken off the end.
pub open spec fn popped(rm: Seq<usize>, n: int) -> Seq<usize> {
    if rm.len() <= n { Seq::empty() } else { rm.subrange(0, rm.len() - n) }
}

/// How many cards the offer row drawn from the remaining cards `rm` lacks.
pub open spec fn refill_count(rm: Seq<usize>) -> int {
    7 - board::offer_row_of(rm).len()
}

/// After a command, for player `pid`: a mark at the head of the queue is
/// taken off and the board sent to every connection; then, if the player has
/// a phase and a connection, the next request is sent and the player put in
/// its phase.
pub open spec fn sent_after(a: Play, b: Play, pid: usize, nc: usize, ti: usize, ticks: Option<u16>) -> bool {
    &&& exists|q: Seq<Option<WaitView>>, o: Seq<Outgoing>|
        #[trigger] game_engine::board_sent(a.qs[pid as int], nc, a.rm, a.ps, a.gs, ti, ticks, a.out, q, o)
        && b.qs == a.qs.update(pid as int, q)
        && if pid < a.gs.len() && pid < nc {
            &&& game_engine::prob_sent(pid, q, ticks, a.gs[pid as int], o, b.gs[pid as int], b.out)
            &&& b.gs == a.gs.update(pid as int, b.gs[pid as int])
        } else {
            &&& b.gs == a.gs
            &&& b.out == o
        }
    &&& b.ps == a.ps
    &&& b.us == a.us
    &&& b.rm == a.rm
}

/// The sending step of a command that is no reply.
pub open spec fn send_step(a: Play, b: Play, pid: usize, cmd: GameCommand, nc: usize, ti: usize, ticks: Option<u16>) -> bool {
    if cmd.reply is None { sent_after(a, b, pid, nc, ti, ticks) } else { b == a }
}

/// The notice `n`, if any, is sent to each of the first `nc` connections.
pub open spec fn notified(a: Play, b: Play, n: Option<Seq<char>>, nc: usize) -> bool {
    match n {
        Some(t) => {
            &&& b == (Play { out: b.out, ..a })
            &&& b.out.len() == a.out.len() + nc
            &&& b.out.subrange(0, a.out.len() as int) == a.out
            &&& end_game::is_notice_broadcast(b.out.subrange(a.out.len() as int, b.out.len() as int), nc, t)
        },
        None => b == a,
    }
}

/// What the option `r` of the first request of player `pid` does: the
/// request leaves the queue and its effect is applied when the tallies and
/// cards allow it. Gives the result and the phase the option leads to (to
/// drawing when there is no such option).
pub open spec fn reply_applied(a: Play, pid: usize, r: usize) -> (Play, GameState) {
    if pid < a.ps.len() && a.qs[pid as int].len() > 0 {
        let qs = a.qs.update(pid as int, a.qs[pid as int].drop_first());
        match a.qs[pid as int][0] {
            Some(w) => if r < w.3.len() {
                let e = w.3[r as int].2;
                let p = a.ps[pid as int];
                let u = a.us[pid as int];
                let x = if game_engine::reply_allowed(p, a.rm, u, e) { game_engine::reply_result(p, a.rm, u, e) } else { (p, a.rm, u) };
                (Play { ps: a.ps.update(pid as int, x.0), rm: x.1, us: a.us.update(pid as int, x.2), qs, ..a }, w.3[r as int].0)
            } else {
                (Play { qs, ..a }, GameState::DrawCard)
            },
            None => (Play { qs, ..a }, GameState::DrawCard),
        }
    } else {
        (a, GameState::DrawCard)
    }
}

/// A reply with option `r`: the option is applied; when only one entry is
/// left on the queue the player moves to the phase of the option; then the
/// board and the next request are sent.
pub open spec fn replied(a: Play, b: Play, pid: usize, r: usize, nc: usize, ti: usize, ticks: Option<u16>) -> bool {
    let (m, next) = reply_applied(a, pid, r);
    let m2 = if m.qs[pid as int].len() == 1 && pid < m.gs.len() { Play { gs: m.gs.update(pid as int, next), ..m } } else { m };
    sent_after(m2, b, pid, nc, ti, ticks)
}

/// The reply step of a command that is a reply.
pub open spec fn reply_done(a: Play, b: Play, pid: usize, cmd: GameCommand, nc: usize, ti: usize, ticks: Option<u16>) -> bool {
    match cmd.reply {
        Some(r) => replied(a, b, pid, r, nc, ti, ticks),
        None => b == a,
    }
}

/// Handling the command `cmd` of seat `pid`, from the engine `e0` and the
/// messages `o0` to `e` and `o`: the phase step, the refill of the offer row
/// from the end of the remaining cards, the notice, the board and next
/// request, and the reply; the server is asked to close by `killserver`.
/// Commands of seats beyond the table change nothing.
pub open spec fn command_handled(e0: GameEngine, o0: Seq<Outgoing>, pid: usize, cmd: GameCommand, word_valid: bool, e: GameEngine, o: Seq<Outgoing>) -> bool {
    if pid >= MAX_SEATS {
        e == e0 && o == o0
    } else {
        let a = play_of(e0, o0);
        let nc = e0.num_connections;
        &&& exists|s1: Play, n: Option<Seq<char>>, s3: Play, s4: Play|
            #![trigger phase_step(a, s1, n, pid, cmd, word_valid, nc, e0.push_notification, e0.ticks, e0.turn_index), send_step(s3, s4, pid, cmd, nc, e0.turn_index, e0.ticks)]
            phase_step(a, s1, n, pid, cmd, word_valid, nc, e0.push_notification, e0.ticks, e0.turn_index)
            && notified(Play { rm: popped(s1.rm, refill_count(a.rm)), ..s1 }, s3, n, nc)
            && send_step(s3, s4, pid, cmd, nc, e0.turn_index, e0.ticks)
            && reply_done(s4, play_of(e, o), pid, cmd, nc, e0.turn_index, e0.ticks)
        &&& e.num_connections == e0.num_connections
        &&& e.cardmeta@ == e0.cardmeta@
        &&& e.turn_index == e0.turn_index
        &&& e.ticks == e0.ticks
        &&& e.shuffle_seeded == e0.shuffle_seeded
        &&& e.push_notification == e0.push_notification
        &&& e.player_60 == e0.player_60
        &&& e.game_end_notified == e0.game_end_notified
        &&& e.turn_after_winner == e0.turn_after_winner
        &&& e.count_rec == 1
        &&& e.wait_for_break == (e0.wait_for_break || cmd.killserver == Some(true))
    }
}

} // verus!
