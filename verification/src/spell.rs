use vstd::prelude::*;
use vstd::string::{StringExecFns, StrSliceExecFns};
use crate::board::{self, BoardStruct};
use crate::cards::{self, ListCard, NUM_CARDS};
use crate::codec::{self, Arranged, ArrangedView, GameState, Outgoing, Personal, PlayerView, ReplyEffect, WaitForInputType, WaitForSingleInput, WaitView};

verus! {

/// The request to clear the ink of an arranged card with a remover.
pub open spec fn remover_prompt(r: usize) -> WaitView {
    (r, GameState::PreWaitForReply,
        "You may convert this inked card back to a normal card using a remover token. You may add it back to your hand or use it to form word or a wild card."@,
        seq![(GameState::TurnToSubmit, "Continue"@, ReplyEffect::RemoveInk(r))])
}

/// The queues with one remover request per card pushed on queue `i`.
pub open spec fn push_remover_requests(qs: Seq<Seq<Option<WaitView>>>, i: int, rs: Seq<usize>) -> Seq<Seq<Option<WaitView>>>
    decreases rs.len(),
{
    if rs.len() == 0 { qs } else { board::push_on(push_remover_requests(qs, i, rs.drop_last()), i, remover_prompt(rs.last())) }
}

/// Whether some arranged card is among the given cards.
pub open spec fn any_arranged_in(arr: Seq<ArrangedView>, rs: Seq<usize>) -> bool {
    exists|j: int| 0 <= j < arr.len() && rs.contains((#[trigger] arr[j]).0)
}

/// The cards of an optional list.
pub open spec fn ids_of(v: Option<Vec<usize>>) -> Option<Seq<usize>> {
    match v {
        Some(x) => Some(x@),
        None => None,
    }
}

/// What asking to spend ink removers on the cards `rs` does to the queues
/// and the messages, from `qs0` and `o0` to `qs1` and `o1`: a board error
/// when none of the cards is arranged, or when the player has no remover;
/// otherwise one request per card.
pub open spec fn removers_asked(ps: Seq<PlayerView>, pid: usize, rs: Option<Seq<usize>>,
    qs0: Seq<Seq<Option<WaitView>>>, o0: Seq<Outgoing>, qs1: Seq<Seq<Option<WaitView>>>, o1: Seq<Outgoing>) -> bool
{
    match rs {
        Some(r) if pid < ps.len() => {
            let p = ps[pid as int];
            if !any_arranged_in(p.arranged, r) {
                &&& o1.len() == o0.len() + 1
                &&& o1.drop_last() == o0
                &&& codec::is_board_error(o1.last(), pid, "cannot remove a card that is not inked"@)
                &&& qs1 == qs0
            } else if p.remover == 0 {
                &&& o1.len() == o0.len() + 1
                &&& o1.drop_last() == o0
                &&& codec::is_board_error(o1.last(), pid, "Not enough remover"@)
                &&& qs1 == qs0
            } else {
                &&& o1 == o0
                &&& qs1 == push_remover_requests(qs0, pid as int, r)
            }
        },
        _ => {
            &&& o1 == o0
            &&& qs1 == qs0
        },
    }
}

/// Spending ink removers on arranged cards: refused when none of them is
/// arranged, or when the player has no remover; otherwise one request per card.
pub fn use_remover(_board: &mut BoardStruct, player_id: usize, outbox: &mut Vec<Outgoing>, use_remover: Option<Vec<usize>>, wait_for_input: &mut Vec<WaitForInputType>)
    requires
        player_id < old(_board).players@.len() && use_remover is Some ==> player_id < old(wait_for_input)@.len(),
    ensures
        final(_board).offer_row@ == old(_board).offer_row@,
        codec::players_view(final(_board).players) == codec::players_view(old(_board).players),
        final(wait_for_input)@.len() == old(wait_for_input)@.len(),
        removers_asked(codec::players_view(old(_board).players), player_id, ids_of(use_remover),
            codec::queues_view(*old(wait_for_input)), old(outbox)@, codec::queues_view(*final(wait_for_input)), final(outbox)@),
{
    if let Some(vec_r) = use_remover {
        if player_id < _board.players.len() {
            let ghost arr = _board.players@[player_id as int]@.arranged;
            let mut found = false;
            let mut j: usize = 0;
            let n = _board.players[player_id].arranged.len();
            while j < n
                invariant
                    player_id < _board.players@.len(),
                    n == _board.players@[player_id as int].arranged@.len(),
                    arr == _board.players@[player_id as int]@.arranged,
                    j <= n,
                    found == exists|k: int| 0 <= k < j && vec_r@.contains((#[trigger] arr[k]).0),
                decreases n - j,
            {
                let c = _board.players[player_id].arranged[j].0;
                assert(arr[j as int].0 == c);
                if codec::contains_id(&vec_r, c) {
                    found = true;
                }
                j = j + 1;
            }
            if !found {
                outbox.push(Outgoing::BoardError { to: player_id, message: codec::owned("cannot remove a card that is not inked") });
                proof { assert(outbox@.drop_last() =~= old(outbox)@); }
            } else if _board.players[player_id].remover == 0 {
                outbox.push(Outgoing::BoardError { to: player_id, message: codec::owned("Not enough remover") });
                proof { assert(outbox@.drop_last() =~= old(outbox)@); }
            } else {
                let ghost q0 = codec::queues_view(*wait_for_input);
                let mut i: usize = 0;
                while i < vec_r.len()
                    invariant
                        i <= vec_r@.len(),
                        player_id < wait_for_input@.len(),
                        wait_for_input@.len() == old(wait_for_input)@.len(),
                        codec::queues_view(*wait_for_input) == push_remover_requests(q0, player_id as int, vec_r@.subrange(0, i as int)),
                    decreases vec_r@.len() - i,
                {
                    let r = vec_r[i];
                    let w = WaitForSingleInput {
                        card_index: r,
                        wait_state: GameState::PreWaitForReply,
                        header: codec::owned("You may convert this inked card back to a normal card using a remover token. You may add it back to your hand or use it to form word or a wild card."),
                        options: vec![codec::reply_option(GameState::TurnToSubmit, "Continue", ReplyEffect::RemoveInk(r))],
                    };
                    assert(w@ == remover_prompt(r)) by { assert(w@.3 =~= remover_prompt(r).3); }
                    let ghost before = codec::queues_view(*wait_for_input);
                    wait_for_input[player_id].push(Some(w));
                    proof {
                        assert(codec::queue_view(wait_for_input@[player_id as int]) =~= before[player_id as int].push(Some(remover_prompt(r))));
                        assert(codec::queues_view(*wait_for_input) =~= board::push_on(before, player_id as int, remover_prompt(r)));
                        assert(vec_r@.subrange(0, i + 1).drop_last() =~= vec_r@.subrange(0, i as int));
                    }
                    i = i + 1;
                }
                assert(vec_r@.subrange(0, vec_r@.len() as int) =~= vec_r@);
            }
        }
    }
}

/// The request to lay out the first unknown card inked.
pub open spec fn ink_card_prompt(c: usize) -> WaitView {
    (c, GameState::PreWaitForReply,
        "You need to use this card to form the word. You may not convert this card to wild. If you can't use this card, you may use ink remover to convert this to a wild card."@,
        seq![(GameState::TurnToSubmit, "Continue"@, ReplyEffect::TakeUnknownCard)])
}

/// What asking to take the first of the unknown cards `u` with one ink does
/// to the queues and the messages, from `qs0` and `o0` to `qs1` and `o1`: a
/// request when the player has ink and there is an unknown card, a board
/// error otherwise; nothing unless asked.
pub open spec fn ink_asked(ps: Seq<PlayerView>, pid: usize, asked: Option<bool>, u: Seq<usize>,
    qs0: Seq<Seq<Option<WaitView>>>, o0: Seq<Outgoing>, qs1: Seq<Seq<Option<WaitView>>>, o1: Seq<Outgoing>) -> bool
{
    if pid < ps.len() && asked == Some(true) {
        if ps[pid as int].ink > 0 && u.len() > 0 {
            &&& o1 == o0
            &&& qs1 == board::push_on(qs0, pid as int, ink_card_prompt(u[0]))
        } else {
            &&& o1.len() == o0.len() + 1
            &&& o1.drop_last() == o0
            &&& codec::is_board_error(o1.last(), pid, "Gamecommand Error:take_card_use_ink"@)
            &&& qs1 == qs0
        }
    } else {
        &&& o1 == o0
        &&& qs1 == qs0
    }
}

/// Taking the first unknown card with one ink: offered when the player has ink
/// and there is an unknown card, refused otherwise.
pub fn take_card_use_ink(_board: &mut BoardStruct, player_id: usize, outbox: &mut Vec<Outgoing>, _take_card_use_ink: &Option<bool>, unknown: &mut Vec<usize>, wait_for_input: &mut Vec<WaitForInputType>)
    requires
        player_id < old(_board).players@.len() && *_take_card_use_ink == Some(true) ==> player_id < old(wait_for_input)@.len(),
    ensures
        final(_board).offer_row@ == old(_board).offer_row@,
        codec::players_view(final(_board).players) == codec::players_view(old(_board).players),
        final(unknown)@ == old(unknown)@,
        ink_asked(codec::players_view(old(_board).players), player_id, *_take_card_use_ink, old(unknown)@,
            codec::queues_view(*old(wait_for_input)), old(outbox)@, codec::queues_view(*final(wait_for_input)), final(outbox)@),
{
    if player_id < _board.players.len() && *_take_card_use_ink == Some(true) {
        if _board.players[player_id].ink > 0 && unknown.len() > 0 {
            let c = unknown[0];
            let w = WaitForSingleInput {
                card_index: c,
                wait_state: GameState::PreWaitForReply,
                header: codec::owned("You need to use this card to form the word. You may not convert this card to wild. If you can't use this card, you may use ink remover to convert this to a wild card."),
                options: vec![codec::reply_option(GameState::TurnToSubmit, "Continue", ReplyEffect::TakeUnknownCard)],
            };
            assert(w@ == ink_card_prompt(c)) by { assert(w@.3 =~= ink_card_prompt(c).3); }
            let ghost before = codec::queues_view(*wait_for_input);
            wait_for_input[player_id].push(Some(w));
            proof {
                assert(codec::queue_view(wait_for_input@[player_id as int]) =~= before[player_id as int].push(Some(ink_card_prompt(c))));
                assert(codec::queues_view(*wait_for_input) =~= board::push_on(before, player_id as int, ink_card_prompt(c)));
            }
        } else {
            outbox.push(Outgoing::BoardError { to: player_id, message: codec::owned("Gamecommand Error:take_card_use_ink") });
            proof { assert(outbox@.drop_last() =~= old(outbox)@); }
        }
    }
}

/// The player's layout becomes the one given, if any.
pub fn arrange(_board: &mut BoardStruct, player_id: usize, arranged: &Option<Vec<Arranged>>, wait_for_input: &mut Vec<WaitForInputType>)
    requires
        player_id < old(_board).players@.len() ==> player_id < old(wait_for_input)@.len(),
    ensures
        final(_board).offer_row@ == old(_board).offer_row@,
        codec::queues_view(*final(wait_for_input)) == codec::queues_view(*old(wait_for_input)),
        codec::players_view(final(_board).players) == match *arranged {
            Some(z) if player_id < old(_board).players@.len() => {
                let p = old(_board).players@[player_id as int]@;
                codec::players_view(old(_board).players).update(player_id as int,
                    PlayerView { arranged: z@.map_values(|a: Arranged| codec::arranged_view(a)), ..p })
            },
            _ => codec::players_view(old(_board).players),
        },
{
    if player_id < _board.players.len() {
        if let Some(z) = arranged {
            let ghost ps = codec::players_view(_board.players);
            _board.players[player_id].arranged = codec::copy_arranged(z);
            proof {
                let p = ps[player_id as int];
                assert(codec::players_view(_board.players) =~= ps.update(player_id as int,
                    PlayerView { arranged: z@.map_values(|a: Arranged| codec::arranged_view(a)), ..p }));
            }
        }
    }
}

/// The player's layout and hand become the ones given, if any.
pub fn personal(_board: &mut BoardStruct, player_id: usize, personal: &Option<Personal>, wait_for_input: &mut Vec<WaitForInputType>)
    requires
        player_id < old(_board).players@.len() ==> player_id < old(wait_for_input)@.len(),
    ensures
        final(_board).offer_row@ == old(_board).offer_row@,
        codec::queues_view(*final(wait_for_input)) == codec::queues_view(*old(wait_for_input)),
        codec::players_view(final(_board).players) == match *personal {
            Some(z) if player_id < old(_board).players@.len() => {
                let p = old(_board).players@[player_id as int]@;
                codec::players_view(old(_board).players).update(player_id as int,
                    PlayerView { arranged: z.arranged@.map_values(|a: Arranged| codec::arranged_view(a)), hand: z.hand@, ..p })
            },
            _ => codec::players_view(old(_board).players),
        },
{
    if player_id < _board.players.len() {
        if let Some(z) = personal {
            let ghost ps = codec::players_view(_board.players);
            _board.players[player_id].arranged = codec::copy_arranged(&z.arranged);
            _board.players[player_id].hand = codec::copy_ids(&z.hand);
            proof {
                let p = ps[player_id as int];
                assert(codec::players_view(_board.players) =~= ps.update(player_id as int,
                    PlayerView { arranged: z.arranged@.map_values(|a: Arranged| codec::arranged_view(a)), hand: z.hand@, ..p }));
            }
        }
    }
}

/// The word a layout spells: each card gives its wild letter, or its own letter.
pub open spec fn word_of(arr: Seq<ArrangedView>) -> Seq<char>
    decreases arr.len(),
{
    if arr.len() == 0 {
        Seq::empty()
    } else {
        let a = arr.last();
        word_of(arr.drop_last()) + match a.2 {
            Some(w) => w,
            None => cards::card_spec(a.0).letter@,
        }
    }
}

/// The largest literacy award of the players.
pub open spec fn max_literacy(ps: Seq<PlayerView>) -> usize
    decreases ps.len(),
{
    if ps.len() == 0 {
        0
    } else {
        let m = max_literacy(ps.drop_last());
        if ps.last().literacy_award > m { ps.last().literacy_award } else { m }
    }
}

/// The literacy award a word of `len` letters earns: the letters, up to twelve.
pub open spec fn literacy_for(len: nat) -> usize {
    if len < 12 { len as usize } else { 12 }
}

/// The players after a word of `len` letters by player `pid`: a word of seven
/// letters or more that beats every award takes the award, and the others lose theirs.
pub open spec fn literacy_update(ps: Seq<PlayerView>, pid: usize, len: nat) -> Seq<PlayerView> {
    if len >= 7 && (max_literacy(ps) as nat) < len {
        Seq::new(ps.len(), |i: int|
            if i == pid { PlayerView { literacy_award: literacy_for(len), ..ps[i] } } else { PlayerView { literacy_award: 0, ..ps[i] } })
    } else {
        ps
    }
}

/// The word a layout spells, as `word_of` states it.
pub fn spelled_word(arranged: &Vec<Arranged>, cardmeta: &Vec<ListCard>) -> (k: String)
    requires
        cards::is_card_table(cardmeta@),
        board::arranged_in_table(arranged@.map_values(|a: Arranged| codec::arranged_view(a))),
    ensures
        k@ == word_of(arranged@.map_values(|a: Arranged| codec::arranged_view(a))),
{
    let ghost arr = arranged@.map_values(|a: Arranged| codec::arranged_view(a));
    let mut k = String::new();
    let n = arranged.len();
    let mut j: usize = 0;
    while j < n
        invariant
            cards::is_card_table(cardmeta@),
            n == arr.len(),
            arr == arranged@.map_values(|a: Arranged| codec::arranged_view(a)),
            board::arranged_in_table(arr),
            j <= n,
            k@ == word_of(arr.subrange(0, j as int)),
        decreases n - j,
    {
        assert(arr.subrange(0, j + 1).drop_last() =~= arr.subrange(0, j as int));
        assert(arr[j as int] == codec::arranged_view(arranged@[j as int]));
        match &arranged[j].2 {
            Some(w) => {
                k.append(w.as_str());
            },
            None => {
                let c = arranged[j].0;
                assert(c < NUM_CARDS);
                let letter = cardmeta[c].letter;
                assert(letter == cards::card_spec(c).letter);
                k.append(letter);
            },
        }
        j = j + 1;
    }
    assert(arr.subrange(0, n as int) =~= arr);
    k
}

/// Submits the player's word: the word the layout spells, with the literacy
/// award updated. Nothing happens unless the player exists and submits.
pub fn turn_to_submit(_board: &mut BoardStruct, player_id: usize, cardmeta: &Vec<ListCard>, submit_word: &Option<bool>) -> (r: Option<String>)
    requires
        cards::is_card_table(cardmeta@),
        player_id < old(_board).players@.len() ==> board::arranged_in_table(old(_board).players@[player_id as int]@.arranged),
    ensures
        final(_board).offer_row@ == old(_board).offer_row@,
        if player_id < old(_board).players@.len() && *submit_word == Some(true) {
            let word = word_of(old(_board).players@[player_id as int]@.arranged);
            &&& r matches Some(w) && w@ == word
            &&& codec::players_view(final(_board).players) == literacy_update(codec::players_view(old(_board).players), player_id, word.len())
        } else {
            &&& r is None
            &&& codec::players_view(final(_board).players) == codec::players_view(old(_board).players)
        },
{
    let ghost ps = codec::players_view(_board.players);
    let mut max_lit: usize = 0;
    let mut i: usize = 0;
    while i < _board.players.len()
        invariant
            i <= _board.players@.len(),
            ps == codec::players_view(_board.players),
            _board.offer_row@ == old(_board).offer_row@,
            max_lit == max_literacy(ps.subrange(0, i as int)),
        decreases _board.players@.len() - i,
    {
        assert(ps.subrange(0, i + 1).drop_last() =~= ps.subrange(0, i as int));
        if _board.players[i].literacy_award > max_lit {
            max_lit = _board.players[i].literacy_award;
        }
        i = i + 1;
    }
    assert(ps.subrange(0, ps.len() as int) =~= ps);
    if player_id < _board.players.len() && *submit_word == Some(true) {
        let ghost arr = _board.players@[player_id as int]@.arranged;
        let k = spelled_word(&_board.players[player_id].arranged, cardmeta);
        let word_len = k.as_str().unicode_len();
        if word_len >= 7 && max_lit < word_len {
            let award = if word_len < 12 { word_len } else { 12 };
            let mut t: usize = 0;
            while t < _board.players.len()
                invariant
                    t <= _board.players@.len(),
                    _board.players@.len() == ps.len(),
                    _board.offer_row@ == old(_board).offer_row@,
                    award == literacy_for(word_len as nat),
                    forall|x: int| 0 <= x < t ==> #[trigger] codec::players_view(_board.players)[x]
                        == if x == player_id { PlayerView { literacy_award: award, ..ps[x] } } else { PlayerView { literacy_award: 0, ..ps[x] } },
                    forall|x: int| t <= x < ps.len() ==> #[trigger] codec::players_view(_board.players)[x] == ps[x],
                decreases _board.players@.len() - t,
            {
                let ghost before = codec::players_view(_board.players);
                let ghost old_players = _board.players@;
                if t == player_id {
                    _board.players[t].literacy_award = award;
                } else {
                    _board.players[t].literacy_award = 0;
                }
                proof {
                    assert forall|x: int| 0 <= x < ps.len() && x != t implies #[trigger] codec::players_view(_board.players)[x] == before[x] by {
                        assert(_board.players@[x] == old_players[x]);
                    }
                    assert(codec::players_view(_board.players)[t as int] == _board.players@[t as int]@);
                    assert(before[t as int] == ps[t as int]);
                }
                t = t + 1;
            }
            assert(codec::players_view(_board.players) =~= literacy_update(ps, player_id, word_len as nat));
        }
        Some(k)
    } else {
        None
    }
}


/// A word of seven letters or more that beats every award takes the literacy
/// award, worth its letters up to twelve, and no other player keeps one.
pub proof fn lemma_literacy_single(ps: Seq<PlayerView>, pid: usize, len: nat)
    requires
        pid < ps.len(),
        len >= 7,
        max_literacy(ps) < len,
    ensures
        literacy_update(ps, pid, len)[pid as int].literacy_award == if len < 12 { len } else { 12 },
        forall|i: int| 0 <= i < ps.len() && i != pid ==> #[trigger] literacy_update(ps, pid, len)[i].literacy_award == 0,
        forall|i: int| 0 <= i < ps.len() ==> #[trigger] literacy_update(ps, pid, len)[i] == (PlayerView { literacy_award: literacy_update(ps, pid, len)[i].literacy_award, ..ps[i] }),
{
}

/// The largest literacy award is at least every player's award, and is the
/// award of some player when there are players.
proof fn lemma_max_literacy(ps: Seq<PlayerView>)
    ensures
        forall|i: int| 0 <= i < ps.len() ==> (#[trigger] ps[i]).literacy_award <= max_literacy(ps),
        ps.len() == 0 ==> max_literacy(ps) == 0,
        ps.len() > 0 ==> exists|i: int| 0 <= i < ps.len() && (#[trigger] ps[i]).literacy_award == max_literacy(ps),
    decreases ps.len(),
{
    if ps.len() > 0 {
        let init = ps.drop_last();
        lemma_max_literacy(init);
        assert forall|i: int| 0 <= i < ps.len() implies (#[trigger] ps[i]).literacy_award <= max_literacy(ps) by {
            if i < init.len() {
                assert(ps[i] == init[i]);
            }
        }
        if ps.last().literacy_award > max_literacy(init) || init.len() == 0 {
            assert(ps[ps.len() - 1].literacy_award == max_literacy(ps));
        } else {
            let j = choose|j: int| 0 <= j < init.len() && (#[trigger] init[j]).literacy_award == max_literacy(init);
            assert(ps[j] == init[j]);
        }
    }
}

/// A word takes the literacy award exactly when it has seven letters or more
/// and more letters than every player's award: then its player's award
/// becomes its length (at most twelve) and every other award goes to zero.
/// Otherwise no award changes. Nothing but the awards changes.
pub proof fn lemma_literacy_award_beats_every_award(ps: Seq<PlayerView>, pid: usize, len: nat)
    requires
        pid < ps.len(),
    ensures
        ({
            let r = literacy_update(ps, pid, len);
            let wins = len >= 7 && forall|i: int| 0 <= i < ps.len() ==> (#[trigger] ps[i]).literacy_award < len;
            &&& r.len() == ps.len()
            &&& forall|i: int| 0 <= i < ps.len() ==> #[trigger] r[i] == PlayerView { literacy_award: r[i].literacy_award, ..ps[i] }
            &&& wins ==> r[pid as int].literacy_award == (if len < 12 { len } else { 12 })
            &&& wins ==> forall|i: int| 0 <= i < ps.len() && i != pid ==> (#[trigger] r[i]).literacy_award == 0
            &&& !wins ==> r == ps
        }),
{
    lemma_max_literacy(ps);
    let wins = len >= 7 && forall|i: int| 0 <= i < ps.len() ==> (#[trigger] ps[i]).literacy_award < len;
    if wins {
        let j = choose|j: int| 0 <= j < ps.len() && (#[trigger] ps[j]).literacy_award == max_literacy(ps);
        assert(ps[j].literacy_award < len);
    } else if len >= 7 {
        let j = choose|j: int| 0 <= j < ps.len() && !((#[trigger] ps[j]).literacy_award < len);
        assert(ps[j].literacy_award <= max_literacy(ps));
    }
}

/// The word a layout spells is made of the words its parts spell, in order.
pub proof fn lemma_word_of_joins(a: Seq<ArrangedView>, b: Seq<ArrangedView>)
    ensures
        word_of(a + b) == word_of(a) + word_of(b),
    decreases b.len(),
{
    if b.len() == 0 {
        assert(a + b =~= a);
        assert(word_of(a) + word_of(b) =~= word_of(a));
    } else {
        lemma_word_of_joins(a, b.drop_last());
        assert((a + b).drop_last() =~= a + b.drop_last());
        assert((a + b).last() == b.last());
        assert(word_of(a) + word_of(b.drop_last()) + word_of(b).subrange(word_of(b.drop_last()).len() as int, word_of(b).len() as int)
            =~= word_of(a) + word_of(b));
    }
}

/// One laid-out card spells its wild letter when it is played as a wild
/// card, and its own letter otherwise.
pub proof fn lemma_word_of_one_card(a: ArrangedView)
    ensures
        word_of(seq![a]) == match a.2 {
            Some(w) => w,
            None => cards::card_spec(a.0).letter@,
        },
{
    let piece = match a.2 {
        Some(w) => w,
        None => cards::card_spec(a.0).letter@,
    };
    assert(seq![a].drop_last() =~= Seq::<ArrangedView>::empty());
    assert(word_of(seq![a].drop_last()) == Seq::<char>::empty());
    assert(seq![a].last() == a);
    assert(word_of(seq![a]) == word_of(seq![a].drop_last()) + piece);
    assert(Seq::<char>::empty() + piece =~= piece);
}

} // verus!
