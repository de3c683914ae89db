use vstd::prelude::*;
use crate::board::{self, BoardStruct};
use crate::codec::{self, BoardCodec, GameState, Outgoing, Player, PlayerView};
use crate::outbox;
use crate::random;

verus! {

broadcast use vstd::seq_lib::group_to_multiset_ensures;

/// The player after dealing from a shuffled draft: every card after the
/// first five goes to the hand, and the draft is emptied.
pub open spec fn dealt(p: PlayerView, shuffled: Seq<usize>) -> PlayerView {
    PlayerView { hand: shuffled.subrange(5, shuffled.len() as int), draft: Seq::empty(), ..p }
}

/// Deals from the shuffled draft: the first five cards stay unknown and are
/// returned, the others become the hand, and the draft is emptied.
pub fn deal_shuffled(p: &mut Player, shuffled: Vec<usize>) -> (unknown: Vec<usize>)
    requires
        shuffled@.len() >= 5,
    ensures
        final(p)@ == dealt(old(p)@, shuffled@),
        unknown@ == shuffled@.subrange(0, 5),
{
    let mut u = shuffled;
    let hand = u.split_off(5);
    p.hand = hand;
    p.draft = Vec::new();
    u
}

/// One phase per player, all `Shuffle`.
pub open spec fn all_shuffle(n: nat) -> Seq<GameState> {
    Seq::new(n, |i: int| GameState::Shuffle)
}

fn shuffle_states(n: usize) -> (gs: Vec<GameState>)
    ensures
        gs@ == all_shuffle(n as nat),
{
    let mut gs: Vec<GameState> = Vec::new();
    let mut i: usize = 0;
    while i < n
        invariant
            i <= n,
            gs@ == all_shuffle(i as nat),
        decreases n - i,
    {
        gs.push(GameState::Shuffle);
        i = i + 1;
        assert(gs@ =~= all_shuffle(i as nat));
    }
    gs
}

/// What ending the draft of player `pid` does, when asked, from the players
/// `ps0`, the player's unknown cards `u0`, phase `g0` and the messages `o0`:
/// the draft is shuffled, five of its cards become the unknown cards and the
/// others the hand; the player is sent the board with everyone shuffling and
/// goes on to submit (the first player) or to spell. Unasked, nothing changes.
pub open spec fn draft_ended(pid: usize, asked: Option<bool>, ticks: Option<u16>, offer: Seq<usize>,
    ps0: Seq<PlayerView>, u0: Seq<usize>, g0: GameState, o0: Seq<Outgoing>,
    ps1: Seq<PlayerView>, u1: Seq<usize>, g1: GameState, o1: Seq<Outgoing>) -> bool
{
    if asked == Some(true) {
        &&& ps1.len() == ps0.len()
        &&& forall|i: int| 0 <= i < ps0.len() && i != pid ==> ps1[i] == ps0[i]
        &&& pid < ps0.len() ==> {
            let p0 = ps0[pid as int];
            let p1 = ps1[pid as int];
            &&& p1 == (PlayerView { hand: p1.hand, draft: Seq::empty(), ..p0 })
            &&& u1.len() == 5
            &&& (u1 + p1.hand).to_multiset() == p0.draft.to_multiset()
        }
        &&& pid >= ps0.len() ==> u1 == u0
        &&& g1 == if pid == 0 { GameState::TurnToSubmit } else { GameState::Spell }
        &&& o1.len() == o0.len() + 1
        &&& o1.drop_last() == o0
        &&& outbox::is_board_msg(o1.last(), pid, ps1, all_shuffle(ps1.len()), offer, 0, ticks)
    } else {
        &&& ps1 == ps0
        &&& u1 == u0
        &&& g1 == g0
        &&& o1 == o0
    }
}

/// Ends the draft of a player who asks for it: the draft is shuffled (by the
/// fixed seed when `randseedbool` holds), five of its cards stay unknown and
/// the others become the hand. The player is shown the board with everyone
/// shuffling, and then goes on to submit a word (the first player) or to
/// spell (the others). Without the request nothing changes.
pub fn go_to_shuffle(randseedbool: bool, _board: &mut BoardStruct, player_id: usize, _gamestate: &mut GameState, go_to_shuffle: &Option<bool>, unknown: &mut Vec<usize>, ticks: Option<u16>, outbox: &mut Vec<Outgoing>)
    requires
        *go_to_shuffle == Some(true) && player_id < old(_board).players@.len() ==> old(_board).players@[player_id as int].draft@.len() >= 5,
    ensures
        final(_board).offer_row@ == old(_board).offer_row@,
        draft_ended(player_id, *go_to_shuffle, ticks, old(_board).offer_row@,
            codec::players_view(old(_board).players), old(unknown)@, *old(_gamestate), old(outbox)@,
            codec::players_view(final(_board).players), final(unknown)@, *final(_gamestate), final(outbox)@),
{
    if *go_to_shuffle == Some(true) {
        if player_id < _board.players.len() {
            let ghost ps0 = codec::players_view(_board.players);
            let mut shuffled = codec::copy_ids(&_board.players[player_id].draft);
            if randseedbool {
                random::shuffle_seeded(&mut shuffled);
            } else {
                random::shuffle_random(&mut shuffled);
            }
            let ghost sh = shuffled@;
            assert(sh.subrange(0, 5) + sh.subrange(5, sh.len() as int) =~= sh);
            *unknown = deal_shuffled(&mut _board.players[player_id], shuffled);
            assert(codec::players_view(_board.players) =~= ps0.update(player_id as int, _board.players@[player_id as int]@));
        }
        let gs = shuffle_states(_board.players.len());
        let b = BoardCodec {
            players: outbox::copy_players(&_board.players),
            gamestates: gs,
            offer_row: codec::copy_ids(&_board.offer_row),
            turn_index: 0,
            ticks,
        };
        proof {
            assert(codec::players_view(_board.players).len() == _board.players@.len());
        }
        outbox.push(Outgoing::Board { to: player_id, board: b });
        assert(outbox@.drop_last() =~= old(outbox)@);
        if player_id == 0 {
            *_gamestate = GameState::TurnToSubmit;
        } else {
            *_gamestate = GameState::Spell;
        }
    }
}

/// Sends every connection the board of the draft: the players and their
/// phases, no offer row, the first player's turn and no tick.
pub fn broadcast(randseedbool: bool, gamestates: &Vec<GameState>, num_connections: usize, players: &Vec<Player>, outbox: &mut Vec<Outgoing>)
    ensures
        final(outbox)@.len() == old(outbox)@.len() + num_connections,
        final(outbox)@.subrange(0, old(outbox)@.len() as int) == old(outbox)@,
        outbox::is_board_broadcast(final(outbox)@.subrange(old(outbox)@.len() as int, final(outbox)@.len() as int), num_connections,
            codec::players_view(*players), gamestates@, Seq::empty(), 0, None),
{
    let empty: Vec<usize> = Vec::new();
    outbox::broadcast_board(outbox, num_connections, players, gamestates, &empty, 0, None);
}

/// Tells each connection its own index, in order.
pub fn give_player_index(num_connections: usize, outbox: &mut Vec<Outgoing>)
    ensures
        final(outbox)@.len() == old(outbox)@.len() + num_connections,
        final(outbox)@.subrange(0, old(outbox)@.len() as int) == old(outbox)@,
        forall|c: int| 0 <= c < num_connections ==>
            (#[trigger] final(outbox)@[old(outbox)@.len() + c]) == (Outgoing::PlayerIndex { to: c as usize, index: c as usize }),
{
    let ghost start = outbox@.len();
    let mut c: usize = 0;
    while c < num_connections
        invariant
            c <= num_connections,
            start == old(outbox)@.len(),
            outbox@.len() == start + c,
            outbox@.subrange(0, start as int) == old(outbox)@,
            forall|k: int| 0 <= k < c ==> (#[trigger] outbox@[start + k]) == (Outgoing::PlayerIndex { to: k as usize, index: k as usize }),
        decreases num_connections - c,
    {
        outbox.push(Outgoing::PlayerIndex { to: c, index: c });
        c = c + 1;
    }
}

} // verus!
