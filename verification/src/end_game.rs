use vstd::prelude::*;
use crate::codec::{self, GameState, Outgoing, Player, PlayerView};
use crate::draw_card;
use crate::outbox;

verus! {

/// The points that decide the game: victory points and the literacy award.
pub open spec fn score(p: PlayerView) -> int {
    p.vp + p.literacy_award
}

/// The points at which the end of the game is called.
pub const END_SCORE: usize = 60;

/// The last seat among the first `n` whose score has reached the end score.
pub open spec fn last_at_end(ps: Seq<PlayerView>, n: nat) -> Option<usize>
    decreases n,
{
    if n == 0 {
        None
    } else if score(ps[n - 1]) >= END_SCORE {
        Some((n - 1) as usize)
    } else {
        last_at_end(ps, (n - 1) as nat)
    }
}

/// The notice that a player reached the end score; players are counted from one.
pub open spec fn end_notice(player: usize) -> Seq<char> {
    "Player "@ + codec::decimal(player as nat + 1) + " has reached [60 vp] The game will end in this round."@
}

/// The notification with the given text for connection `to`.
pub open spec fn is_notice_msg(m: Outgoing, to: usize, text: Seq<char>) -> bool {
    m matches Outgoing::Notification { to: t, text: x } && t == to && x@ == text
}

/// Whether `ms` is one notification with the given text to each of the first `nc` connections.
pub open spec fn is_notice_broadcast(ms: Seq<Outgoing>, nc: usize, text: Seq<char>) -> bool {
    &&& ms.len() == nc
    &&& forall|c: int| 0 <= c < nc ==> is_notice_msg(#[trigger] ms[c], c as usize, text)
}

fn reaches_end(p: &Player) -> (b: bool)
    ensures
        b == (score(p@) >= END_SCORE),
{
    p.vp >= END_SCORE || p.literacy_award >= END_SCORE - p.vp
}

/// What watching for the end of the game does, from the players `ps`, the
/// recorded seat `p0`, whether it was announced `n0`, and the messages `o0`:
/// until a seat is recorded, the last seat at the end score is recorded; once
/// one is, every connection is told, once.
pub open spec fn watch_end(ps: Seq<PlayerView>, nc: usize, p0: Option<usize>, n0: bool, o0: Seq<Outgoing>, p: Option<usize>, n: bool, o: Seq<Outgoing>) -> bool {
    &&& o0.len() <= o.len()
    &&& p0 is None ==> (p == last_at_end(ps, ps.len()) && n == n0 && o == o0)
    &&& (p0 is Some && !n0) ==> (p == p0 && n && o.subrange(0, o0.len() as int) == o0
            && is_notice_broadcast(o.subrange(o0.len() as int, o.len() as int), nc, end_notice(p0->Some_0)))
    &&& (p0 is Some && n0) ==> (p == p0 && n && o == o0)
}

/// Watches for the end of the game. Until a player is known to have reached
/// the end score, the last seat that has reached it is recorded; once one is
/// recorded, every connection is told so, once.
pub fn first_to_60(players: &Vec<Player>, num_connections: usize, player_60: &mut Option<usize>, game_end_notified: &mut bool, outbox: &mut Vec<Outgoing>)
    requires
        *old(player_60) is Some ==> (*old(player_60))->Some_0 < usize::MAX,
    ensures
        watch_end(codec::players_view(*players), num_connections, *old(player_60), *old(game_end_notified), old(outbox)@,
            *final(player_60), *final(game_end_notified), final(outbox)@),
{
    if player_60.is_none() {
        let ghost ps = codec::players_view(*players);
        let mut i: usize = 0;
        while i < players.len()
            invariant
                i <= players@.len(),
                ps == codec::players_view(*players),
                *player_60 == last_at_end(ps, i as nat),
            decreases players@.len() - i,
        {
            if reaches_end(&players[i]) {
                *player_60 = Some(i);
            }
            i = i + 1;
        }
    } else if !*game_end_notified {
        let n = match *player_60 {
            Some(n) => n,
            None => 0,
        };
        let mut st = codec::owned("Player ");
        let num = codec::usize_to_string(n + 1);
        st.append(num.as_str());
        st.append(" has reached [60 vp] The game will end in this round.");
        let ghost start = outbox@.len();
        let mut c: usize = 0;
        while c < num_connections
            invariant
                c <= num_connections,
                start == old(outbox)@.len(),
                outbox@.len() == start + c,
                outbox@.subrange(0, start as int) == old(outbox)@,
                st@ == end_notice(n),
                forall|k: int| 0 <= k < c ==> is_notice_msg(#[trigger] outbox@[start + k], k as usize, end_notice(n)),
            decreases num_connections - c,
        {
            outbox.push(Outgoing::Notification { to: c, text: st.clone() });
            c = c + 1;
        }
        let ghost tail = outbox@.subrange(start as int, outbox@.len() as int);
        assert forall|k: int| 0 <= k < num_connections implies is_notice_msg(#[trigger] tail[k], k as usize, end_notice(n)) by {
            assert(tail[k] == outbox@[start + k]);
        }
        *game_end_notified = true;
    }
}

/// The leading seat among the first `n`, with its score and ink: a seat takes
/// the lead with a higher score, or with the same score and more ink.
pub open spec fn leader(ps: Seq<PlayerView>, n: nat) -> (usize, int, usize)
    decreases n,
{
    if n == 0 {
        (0, 0, 0)
    } else {
        let prev = leader(ps, (n - 1) as nat);
        let p = ps[n - 1];
        if score(p) > prev.1 || (score(p) == prev.1 && p.ink > prev.2) {
            ((n - 1) as usize, score(p), p.ink)
        } else {
            prev
        }
    }
}

/// The winner of the game.
pub open spec fn winner(ps: Seq<PlayerView>) -> usize {
    leader(ps, ps.len()).0
}

/// A player as shown in the result: no hand, layout, draft size or skipped cards.
pub open spec fn cleared(p: PlayerView) -> PlayerView {
    PlayerView { hand: Seq::empty(), arranged: Seq::empty(), draftlen: 0, skip_cards: Seq::empty(), ..p }
}

pub open spec fn all_cleared(ps: Seq<PlayerView>) -> Seq<PlayerView> {
    ps.map_values(|p: PlayerView| cleared(p))
}

/// Whether the end of the game is being played out: a player reached the end
/// score and some player is about to draw.
pub open spec fn ending(player_60: Option<usize>, gs: Seq<GameState>) -> bool {
    player_60 is Some && draw_card::any_state(gs, GameState::PreDrawCard)
}

/// What the last round does, from the players `ps0`, their phases `gs0`,
/// the seat at the end score `p60`, the round counter `taw0` and the messages
/// `o0`: when the round has come round, the result is shown to everyone;
/// the round counts as come round once that seat's turn is over.
pub open spec fn result_shown(ps0: Seq<PlayerView>, gs0: Seq<GameState>, nc: usize, p60: Option<usize>, taw0: usize, ti: usize, ticks: Option<u16>,
    o0: Seq<Outgoing>, ps: Seq<PlayerView>, gs: Seq<GameState>, taw: usize, o: Seq<Outgoing>) -> bool {
    &&& o0.len() <= o.len()
    &&& if ending(p60, gs0) && taw0 == 1 {
        let gs1 = Seq::new(gs0.len(), |i: int| GameState::ShowResult(winner(ps0)));
        &&& ps == all_cleared(ps0)
        &&& gs == gs1
        &&& o.subrange(0, o0.len() as int) == o0
        &&& outbox::is_board_broadcast(o.subrange(o0.len() as int, o.len() as int), nc, all_cleared(ps0), gs1, Seq::empty(), ti, ticks)
    } else {
        &&& ps == ps0
        &&& gs == gs0
        &&& o == o0
    }
    &&& taw == if ending(p60, gs0) && taw0 == 0 && p60 == Some(ti) { 1 } else { taw0 }
}

/// The last round after a player reached the end score. When the round has
/// come round (`turn_after_winner` is one), the winner is chosen, the hands
/// and layouts are cleared, every player is shown the result and the board is
/// sent to every connection. The round counts as come round once that
/// player's turn is over.
pub fn show_result(players: &mut Vec<Player>, gamestates: &mut Vec<GameState>, num_connections: usize, player_60: &Option<usize>, turn_after_winner: &mut usize, turn_index: usize, ticks: Option<u16>, outbox: &mut Vec<Outgoing>)
    ensures
        result_shown(codec::players_view(*old(players)), old(gamestates)@, num_connections, *player_60, *old(turn_after_winner), turn_index, ticks, old(outbox)@,
            codec::players_view(*final(players)), final(gamestates)@, *final(turn_after_winner), final(outbox)@),
{
    if let Some(player_index) = *player_60 {
        let drawing = draw_card::any_in(gamestates, GameState::PreDrawCard);
        if drawing {
            if *turn_after_winner == 1 {
                let ghost ps0 = codec::players_view(*players);
                let mut top_player: usize = 0;
                let mut high_score: u128 = 0;
                let mut high_ink: usize = 0;
                let mut i: usize = 0;
                while i < players.len()
                    invariant
                        i <= players@.len(),
                        ps0.len() == players@.len(),
                        forall|j: int| 0 <= j < i ==> (#[trigger] players@[j])@ == cleared(ps0[j]),
                        forall|j: int| i <= j < players@.len() ==> (#[trigger] players@[j])@ == ps0[j],
                        (top_player, high_score as int, high_ink) == leader(ps0, i as nat),
                    decreases players@.len() - i,
                {
                    assert(players@[i as int]@ == ps0[i as int]);
                    let ghost ps_before = players@;
                    players[i].hand = Vec::new();
                    players[i].arranged = Vec::new();
                    players[i].draftlen = 0;
                    players[i].skip_cards = Vec::new();
                    proof {
                        assert(players@[i as int]@.arranged =~= Seq::<codec::ArrangedView>::empty());
                        assert(players@[i as int]@ =~= cleared(ps0[i as int]));
                        assert forall|j: int| 0 <= j < players@.len() && j != i implies (#[trigger] players@[j]) == ps_before[j] by {}
                    }
                    let sc: u128 = players[i].vp as u128 + players[i].literacy_award as u128;
                    if sc > high_score || (sc == high_score && players[i].ink > high_ink) {
                        top_player = i;
                        high_score = sc;
                        high_ink = players[i].ink;
                    }
                    i = i + 1;
                }
                assert(codec::players_view(*players) =~= all_cleared(ps0));
                let mut k: usize = 0;
                let ghost n = gamestates@.len();
                while k < gamestates.len()
                    invariant
                        k <= gamestates@.len(),
                        gamestates@.len() == n,
                        forall|j: int| 0 <= j < k ==> gamestates@[j] == GameState::ShowResult(top_player),
                    decreases gamestates@.len() - k,
                {
                    gamestates.set(k, GameState::ShowResult(top_player));
                    k = k + 1;
                }
                assert(gamestates@ =~= Seq::new(n, |i: int| GameState::ShowResult(winner(ps0))));
                let empty: Vec<usize> = Vec::new();
                outbox::broadcast_board(outbox, num_connections, players, gamestates, &empty, turn_index, ticks);
            }
            if *turn_after_winner == 0 && turn_index == player_index {
                *turn_after_winner = 1;
            }
        }
    }
}

/// The winner leads every other player: no one has a higher score, no one
/// with the same score has more ink, and of the players tied with the winner
/// on both, the winner sits first.
pub proof fn lemma_winner_leads(ps: Seq<PlayerView>)
    requires
        0 < ps.len() <= usize::MAX,
    ensures
        winner(ps) < ps.len(),
        forall|i: int| 0 <= i < ps.len() ==> score(#[trigger] ps[i]) <= score(ps[winner(ps) as int]),
        forall|i: int| 0 <= i < ps.len() && score(#[trigger] ps[i]) == score(ps[winner(ps) as int]) ==> ps[i].ink <= ps[winner(ps) as int].ink,
        forall|i: int| 0 <= i < winner(ps) ==> (score(#[trigger] ps[i]), ps[i].ink) != (score(ps[winner(ps) as int]), ps[winner(ps) as int].ink),
{
    lemma_leader(ps, ps.len());
}

proof fn lemma_leader(ps: Seq<PlayerView>, n: nat)
    requires
        n <= ps.len(),
        n <= usize::MAX,
    ensures
        leader(ps, n).1 >= 0,
        n > 0 ==> leader(ps, n).0 < n,
        n > 0 ==> leader(ps, n).1 == score(ps[leader(ps, n).0 as int]) && leader(ps, n).2 == ps[leader(ps, n).0 as int].ink,
        forall|i: int| 0 <= i < n ==> score(#[trigger] ps[i]) <= leader(ps, n).1,
        forall|i: int| 0 <= i < n && score(#[trigger] ps[i]) == leader(ps, n).1 ==> ps[i].ink <= leader(ps, n).2,
        forall|i: int| 0 <= i < leader(ps, n).0 ==> (score(#[trigger] ps[i]), ps[i].ink) != (leader(ps, n).1, leader(ps, n).2),
    decreases n,
{
    if n > 0 {
        lemma_leader(ps, (n - 1) as nat);
        let prev = leader(ps, (n - 1) as nat);
        if n == 1 {
            assert(prev == (0usize, 0int, 0usize));
            assert(score(ps[0]) >= 0);
        }
    }
}


/// A seat found at the end score is one of the seats searched.
pub proof fn lemma_last_at_end(ps: Seq<PlayerView>, n: nat)
    requires
        n <= usize::MAX,
    ensures
        last_at_end(ps, n) matches Some(i) ==> i < n,
    decreases n,
{
    if n > 0 {
        lemma_last_at_end(ps, (n - 1) as nat);
    }
}

/// The seat recorded as reaching the end score is the last seat whose
/// victory points and literacy award reach sixty; none is recorded when no
/// seat reaches it.
pub proof fn lemma_last_at_end_reaches_sixty(ps: Seq<PlayerView>, n: nat)
    requires
        n <= ps.len(),
        n <= usize::MAX,
    ensures
        match last_at_end(ps, n) {
            Some(i) => i < n && ps[i as int].vp + ps[i as int].literacy_award >= 60
                && forall|j: int| i < j < n ==> (#[trigger] ps[j]).vp + ps[j].literacy_award < 60,
            None => forall|j: int| 0 <= j < n ==> (#[trigger] ps[j]).vp + ps[j].literacy_award < 60,
        },
    decreases n,
{
    if n > 0 {
        lemma_last_at_end_reaches_sixty(ps, (n - 1) as nat);
    }
}

} // verus!
