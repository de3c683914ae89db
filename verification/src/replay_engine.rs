use vstd::prelude::*;
use crate::codec::{self, BoardCodec, GameState, Outgoing, Player};
use crate::outbox;

verus! {

/// What drives a replay: play on from a tick, pause, or stop.
pub enum Replay {
    Play(u16),
    Pause(u16),
    Exit,
}

/// The connection a message goes to.
pub open spec fn addressee(m: Outgoing) -> usize {
    match m {
        Outgoing::Board { to, .. } => to,
        Outgoing::BoardError { to, .. } => to,
        Outgoing::Request { to, .. } => to,
        Outgoing::Notification { to, .. } => to,
        Outgoing::Hand { to, .. } => to,
        Outgoing::TurnIndex { to, .. } => to,
        Outgoing::PlayerIndex { to, .. } => to,
    }
}

/// Whether two messages say the same, whoever they go to.
pub open spec fn same_content(a: Outgoing, b: Outgoing) -> bool {
    match (a, b) {
        (Outgoing::Board { board: x, .. }, Outgoing::Board { board: y, .. }) =>
            codec::players_view(x.players) == codec::players_view(y.players) && x.gamestates@ == y.gamestates@
                && x.offer_row@ == y.offer_row@ && x.turn_index == y.turn_index && x.ticks == y.ticks,
        (Outgoing::BoardError { message: x, .. }, Outgoing::BoardError { message: y, .. }) => x@ == y@,
        (Outgoing::Request { player: p1, card: c1, header: h1, options: o1, ticks: t1, .. },
         Outgoing::Request { player: p2, card: c2, header: h2, options: o2, ticks: t2, .. }) =>
            p1 == p2 && c1 == c2 && h1@ == h2@ && o1@.map_values(|s: String| s@) == o2@.map_values(|s: String| s@) && t1 == t2,
        (Outgoing::Notification { text: x, .. }, Outgoing::Notification { text: y, .. }) => x@ == y@,
        (Outgoing::Hand { hand: x, .. }, Outgoing::Hand { hand: y, .. }) => x@ == y@,
        (Outgoing::TurnIndex { index: x, .. }, Outgoing::TurnIndex { index: y, .. }) => x == y,
        (Outgoing::PlayerIndex { index: x, .. }, Outgoing::PlayerIndex { index: y, .. }) => x == y,
        _ => false,
    }
}

fn copy_texts(v: &Vec<String>) -> (r: Vec<String>)
    ensures
        r@.map_values(|s: String| s@) == v@.map_values(|s: String| s@),
{
    let mut r: Vec<String> = Vec::new();
    let mut i: usize = 0;
    while i < v.len()
        invariant
            i <= v@.len(),
            r@.len() == i,
            forall|j: int| 0 <= j < i ==> (#[trigger] r@[j])@ == v@[j]@,
        decreases v@.len() - i,
    {
        r.push(v[i].clone());
        i = i + 1;
    }
    assert(r@.map_values(|s: String| s@) =~= v@.map_values(|s: String| s@));
    r
}

/// The message, for connection `to`.
pub fn readdress(m: &Outgoing, to: usize) -> (r: Outgoing)
    ensures
        same_content(r, *m),
        addressee(r) == to,
{
    match m {
        Outgoing::Board { board, .. } => Outgoing::Board {
            to,
            board: BoardCodec {
                players: outbox::copy_players(&board.players),
                gamestates: outbox::copy_states(&board.gamestates),
                offer_row: codec::copy_ids(&board.offer_row),
                turn_index: board.turn_index,
                ticks: board.ticks,
            },
        },
        Outgoing::BoardError { message, .. } => Outgoing::BoardError { to, message: message.clone() },
        Outgoing::Request { player, card, header, options, ticks, .. } => Outgoing::Request {
            to,
            player: *player,
            card: *card,
            header: header.clone(),
            options: copy_texts(options),
            ticks: *ticks,
        },
        Outgoing::Notification { text, .. } => Outgoing::Notification { to, text: text.clone() },
        Outgoing::Hand { hand, .. } => Outgoing::Hand { to, hand: codec::copy_ids(hand) },
        Outgoing::TurnIndex { index, .. } => Outgoing::TurnIndex { to, index: *index },
        Outgoing::PlayerIndex { index, .. } => Outgoing::PlayerIndex { to, index: *index },
    }
}

/// Whether `ms` is the message once for each of the first `nc` connections, in order.
pub open spec fn is_rebroadcast(ms: Seq<Outgoing>, m: Outgoing, nc: usize) -> bool {
    &&& ms.len() == nc
    &&& forall|c: int| 0 <= c < nc ==> same_content(#[trigger] ms[c], m) && addressee(ms[c]) == c
}

/// Sends the message to each of the first `nc` connections.
pub fn broadcast(msg: &Outgoing, nc: usize, out: &mut Vec<Outgoing>)
    ensures
        outbox::extends(final(out)@, old(out)@),
        is_rebroadcast(final(out)@.subrange(old(out)@.len() as int, final(out)@.len() as int), *msg, nc),
{
    let ghost o0 = out@;
    let mut c: usize = 0;
    while c < nc
        invariant
            c <= nc,
            out@.len() == o0.len() + c,
            out@.subrange(0, o0.len() as int) == o0,
            forall|k: int| 0 <= k < c ==> same_content(#[trigger] out@[o0.len() + k], *msg) && addressee(out@[o0.len() + k]) == k,
        decreases nc - c,
    {
        let ghost before = out@;
        out.push(readdress(msg, c));
        assert(out@.subrange(0, o0.len() as int) =~= before.subrange(0, o0.len() as int));
        c = c + 1;
    }
    let ghost tail = out@.subrange(o0.len() as int, out@.len() as int);
    assert forall|k: int| 0 <= k < nc implies same_content(#[trigger] tail[k], *msg) && addressee(tail[k]) == k by {
        assert(tail[k] == out@[o0.len() + k]);
    }
}

/// Whether a logged message is due at the tick: a board or a request logged at that tick.
pub open spec fn due_at(m: Outgoing, ticks: u16) -> bool {
    match m {
        Outgoing::Board { board, .. } => board.ticks == Some(ticks),
        Outgoing::Request { ticks: t, .. } => t == Some(ticks),
        _ => false,
    }
}

/// A replay of a logged game: the board it starts from and the number of
/// connections it is shown to.
pub struct GameEngine {
    pub players: Vec<Player>,
    pub num_connections: usize,
    pub gamestates: Vec<GameState>,
    pub turn_index: usize,
}

/// Where a replay stands: the tick, the next message of the log, and whether it plays.
pub struct ReplayState {
    pub ticks: u16,
    pub pos: usize,
    pub is_play: bool,
}

impl GameEngine {
    /// A replay from the board that opens the log, shown to the given number
    /// of connections; without a board there, an empty replay shown to none.
    pub fn new(log: &Vec<Outgoing>, num_connections: usize) -> (g: GameEngine)
        ensures
            log@.len() > 0 && log@[0] is Board ==> {
                let b = log@[0]->board;
                &&& codec::players_view(g.players) == codec::players_view(b.players)
                &&& g.gamestates@ == b.gamestates@
                &&& g.turn_index == b.turn_index
                &&& g.num_connections == num_connections
            },
            !(log@.len() > 0 && log@[0] is Board) ==> {
                &&& g.players@.len() == 0
                &&& g.gamestates@.len() == 0
                &&& g.turn_index == 0
                &&& g.num_connections == 0
            },
    {
        if log.len() > 0 {
            if let Outgoing::Board { board, .. } = &log[0] {
                return GameEngine {
                    players: outbox::copy_players(&board.players),
                    num_connections,
                    gamestates: outbox::copy_states(&board.gamestates),
                    turn_index: board.turn_index,
                };
            }
        }
        GameEngine { players: Vec::new(), num_connections: 0, gamestates: Vec::new(), turn_index: 0 }
    }

    /// The state a replay starts in: tick zero, playing, past the opening board.
    pub fn start_state() -> (s: ReplayState)
        ensures
            s.ticks == 0 && s.pos == 1 && s.is_play,
    {
        ReplayState { ticks: 0, pos: 1, is_play: true }
    }

    /// One round of the replay: the next logged message, when it is due at
    /// the current tick, is sent to every connection and the log moves on.
    pub fn replay_tick(&self, log: &Vec<Outgoing>, state: &mut ReplayState, out: &mut Vec<Outgoing>)
        ensures
            final(state).ticks == old(state).ticks,
            final(state).is_play == old(state).is_play,
            if old(state).pos < log@.len() && due_at(log@[old(state).pos as int], old(state).ticks) {
                &&& final(state).pos == old(state).pos + 1
                &&& outbox::extends(final(out)@, old(out)@)
                &&& is_rebroadcast(final(out)@.subrange(old(out)@.len() as int, final(out)@.len() as int), log@[old(state).pos as int], self.num_connections)
            } else {
                &&& final(state).pos == old(state).pos
                &&& final(out)@ == old(out)@
            },
    {
        if state.pos < log.len() {
            let due = match &log[state.pos] {
                Outgoing::Board { board, .. } => board.ticks == Some(state.ticks),
                Outgoing::Request { ticks, .. } => *ticks == Some(state.ticks),
                _ => false,
            };
            if due {
                broadcast(&log[state.pos], self.num_connections, out);
                state.pos = state.pos + 1;
            }
        }
    }

    /// Takes a command of the replay: playing on from a tick, pausing, or
    /// stopping. Says whether the replay is to stop.
    pub fn replay_command(state: &mut ReplayState, command: Replay) -> (stop: bool)
        ensures
            stop == (command is Exit),
            match command {
                Replay::Play(t) => final(state).is_play && final(state).ticks == t && final(state).pos == old(state).pos,
                Replay::Pause(_) => !final(state).is_play && final(state).ticks == old(state).ticks && final(state).pos == old(state).pos,
                Replay::Exit => *final(state) == *old(state),
            },
    {
        match command {
            Replay::Play(t) => {
                state.is_play = true;
                state.ticks = t;
                false
            },
            Replay::Pause(_) => {
                state.is_play = false;
                false
            },
            Replay::Exit => true,
        }
    }

    /// The end of one round: a playing replay moves on one tick, wrapping
    /// round after the last.
    pub fn advance(state: &mut ReplayState)
        ensures
            final(state).pos == old(state).pos,
            final(state).is_play == old(state).is_play,
            final(state).ticks == if old(state).is_play { ((old(state).ticks + 1) % 0x10000) as u16 } else { old(state).ticks },
    {
        if state.is_play {
            if state.ticks < u16::MAX {
                state.ticks = state.ticks + 1;
            } else {
                state.ticks = 0;
            }
        }
    }
}

} // verus!
