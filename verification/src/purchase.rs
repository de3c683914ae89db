use vstd::prelude::*;
use crate::board::{self, BoardStruct};
use crate::cards::{self, GIVEABLE, ListCard, NUM_CARDS};
use crate::codec::{self, GameState, PlayerView, ReplyEffect, ReplyOption, WaitForInputType, WaitForSingleInput, WaitView};
use crate::resolve_cards;

verus! {

/// Whether a card of the given cost can be paid with the coins, counting three
/// ink as one more coin.
pub open spec fn affordable(cost: nat, coin: nat, ink: nat) -> bool {
    cost <= coin + ink / 3
}

/// The request sent when the coins fall short of a card taken from the remaining cards.
pub open spec fn trade_ink_prompt(c: usize) -> WaitView {
    (c, GameState::PreWaitForReply,
        "You do not have enough coin to buy this card, you may trade in 3 ink for one coin to buy this"@,
        seq![
            (GameState::Buy, "Trade in 3 ink for one coin to buy this?"@, ReplyEffect::TakeRemaining(c)),
            (GameState::Buy, "No, I want to another card"@, ReplyEffect::Nothing),
            (GameState::DrawCard, "No, I want to end my buy phase."@, ReplyEffect::Nothing),
        ])
}

/// The request sent when a card cannot be paid at all.
pub open spec fn cannot_afford_prompt(c: usize) -> WaitView {
    (c, GameState::PreWaitForReply, "You can't afford to buy this card. Do you want to buy another card?"@,
        seq![(GameState::Buy, "Yes"@, ReplyEffect::Nothing), (GameState::DrawCard, "No, I want to end my buy phase"@, ReplyEffect::Nothing)])
}

/// The request sent when the coins fall short of a locked-up card.
pub open spec fn trade_ink_lockup_prompt(cost: usize, c: usize, position: usize) -> WaitView {
    (c, GameState::PreWaitForReply,
        "You do not have enough coin to buy this card, you may trade in 3 ink for one coin to buy this"@,
        seq![
            (GameState::DrawCard, "Trade in 3 ink for one coin to buy this."@, ReplyEffect::BuyLockupWithInk(cost, c, position)),
            (GameState::Buy, "No, I want to buy another card."@, ReplyEffect::Nothing),
            (GameState::DrawCard, "No, I want to end buy phase."@, ReplyEffect::Nothing),
        ])
}

fn three_options(a: ReplyOption, b: ReplyOption, c: ReplyOption) -> (v: Vec<ReplyOption>)
    ensures
        v@.map_values(|o: ReplyOption| o@) == seq![a@, b@, c@],
{
    let v = vec![a, b, c];
    assert(v@.map_values(|o: ReplyOption| o@) =~= seq![a@, b@, c@]);
    v
}

fn two_options(a: ReplyOption, b: ReplyOption) -> (v: Vec<ReplyOption>)
    ensures
        v@.map_values(|o: ReplyOption| o@) == seq![a@, b@],
{
    let v = vec![a, b];
    assert(v@.map_values(|o: ReplyOption| o@) =~= seq![a@, b@]);
    v
}

fn cannot_afford_request(c: usize) -> (w: WaitForSingleInput)
    ensures
        w@ == cannot_afford_prompt(c),
{
    WaitForSingleInput {
        card_index: c,
        wait_state: GameState::PreWaitForReply,
        header: codec::owned("You can't afford to buy this card. Do you want to buy another card?"),
        options: two_options(codec::reply_option(GameState::Buy, "Yes", ReplyEffect::Nothing),
            codec::reply_option(GameState::DrawCard, "No, I want to end my buy phase", ReplyEffect::Nothing)),
    }
}

/// The queues with a request and then a mark pushed on queue `i`.
pub open spec fn request_and_mark(qs: Seq<Seq<Option<WaitView>>>, i: int, w: WaitView) -> Seq<Seq<Option<WaitView>>> {
    resolve_cards::push_mark(board::push_on(qs, i, w), i)
}

fn send_request_and_mark(wait_for_input: &mut Vec<WaitForInputType>, player_id: usize, w: WaitForSingleInput)
    requires
        player_id < old(wait_for_input)@.len(),
    ensures
        final(wait_for_input)@.len() == old(wait_for_input)@.len(),
        codec::queues_view(*final(wait_for_input)) == request_and_mark(codec::queues_view(*old(wait_for_input)), player_id as int, w@),
{
    let ghost before = codec::queues_view(*wait_for_input);
    let ghost wv = w@;
    wait_for_input[player_id].push(Some(w));
    wait_for_input[player_id].push(None);
    proof {
        let after = board::push_on(before, player_id as int, wv);
        assert(codec::queue_view(wait_for_input@[player_id as int]) =~= after[player_id as int].push(None));
        assert(codec::queues_view(*wait_for_input) =~= request_and_mark(before, player_id as int, wv));
    }
}

fn push_request(wait_for_input: &mut Vec<WaitForInputType>, player_id: usize, w: WaitForSingleInput)
    requires
        player_id < old(wait_for_input)@.len(),
    ensures
        final(wait_for_input)@.len() == old(wait_for_input)@.len(),
        codec::queues_view(*final(wait_for_input)) == board::push_on(codec::queues_view(*old(wait_for_input)), player_id as int, w@),
{
    let ghost before = codec::queues_view(*wait_for_input);
    let ghost wv = w@;
    wait_for_input[player_id].push(Some(w));
    proof {
        assert(codec::queue_view(wait_for_input@[player_id as int]) =~= before[player_id as int].push(Some(wv)));
        assert(codec::queues_view(*wait_for_input) =~= board::push_on(before, player_id as int, wv));
    }
}

/// What buying the card at position `pos` of the remaining cards `rm` leaves:
/// the remaining cards, the players and the queues. When the coins pay for
/// it, the card leaves `rm` for the buyer's discard pile, its cost is paid and
/// its purchase coins are granted; otherwise the buyer is sent a request (to
/// trade ink, or that the card cannot be afforded) followed by a mark.
pub open spec fn buy_result(pos: usize, rm: Seq<usize>, ps: Seq<PlayerView>, qs: Seq<Seq<Option<WaitView>>>, pid: usize)
    -> (Seq<usize>, Seq<PlayerView>, Seq<Seq<Option<WaitView>>>)
{
    if pid < ps.len() && pos < rm.len() {
        let p = ps[pid as int];
        let c = rm[pos as int];
        let cost = cards::card_spec(c).cost;
        if affordable(cost as nat, p.coin as nat, p.ink as nat) && cost <= p.coin {
            (rm.remove(pos as int), ps.update(pid as int, PlayerView {
                coin: (p.coin - cost + resolve_cards::purchase_coin(c)) as usize,
                discard: p.discard.push(c),
                ..p
            }), qs)
        } else {
            (rm, ps, request_and_mark(qs, pid as int,
                if affordable(cost as nat, p.coin as nat, p.ink as nat) { trade_ink_prompt(c) } else { cannot_afford_prompt(c) }))
        }
    } else {
        (rm, ps, qs)
    }
}

/// Buys the card at the given position of the remaining cards.
///
/// When the coins pay for it, they are spent, the card goes to the discard pile
/// and its purchase coins are granted. When the coins with three ink per coin
/// pay for it, the player is offered to trade ink; otherwise the player is
/// told it cannot be afforded. A request is followed by a mark. Without such
/// a card, or without such a player, nothing happens.
pub fn buy_card_from(position_index: usize, from: &mut Vec<usize>, cardmeta: &Vec<ListCard>, _board: &mut BoardStruct, player_id: usize, wait_for_input: &mut Vec<WaitForInputType>)
    requires
        cards::is_card_table(cardmeta@),
        forall|j: int| 0 <= j < old(from)@.len() ==> #[trigger] old(from)@[j] < NUM_CARDS,
        player_id < old(_board).players@.len() ==> {
            &&& player_id < old(wait_for_input)@.len()
            &&& old(_board).players@[player_id as int].coin + 5 <= usize::MAX
        },
    ensures
        final(_board).offer_row@ == old(_board).offer_row@,
        (final(from)@, codec::players_view(final(_board).players), codec::queues_view(*final(wait_for_input)))
            == buy_result(position_index, old(from)@, codec::players_view(old(_board).players), codec::queues_view(*old(wait_for_input)), player_id),
{
    if player_id < _board.players.len() {
        if position_index < from.len() {
            let _c = from[position_index];
            let info = cardmeta[_c];
            assert(info == cards::card_spec(_c));
            let coin = _board.players[player_id].coin;
            let ink = _board.players[player_id].ink;
            if info.cost <= coin || info.cost - coin <= ink / 3 {
                if info.cost <= coin {
                    let ghost ps = codec::players_view(_board.players);
                    _board.players[player_id].coin -= info.cost;
                    let c = from.remove(position_index);
                    _board.players[player_id].discard.push(c);
                    resolve_cards::resolve_purchase(_c, &mut _board.players[player_id], cardmeta);
                    proof {
                        let p = ps[player_id as int];
                        assert(codec::players_view(_board.players) =~= ps.update(player_id as int, PlayerView {
                            coin: (p.coin - info.cost + resolve_cards::purchase_coin(_c)) as usize,
                            discard: p.discard.push(_c),
                            ..p
                        }));
                    }
                } else {
                    let w = WaitForSingleInput {
                        card_index: _c,
                        wait_state: GameState::PreWaitForReply,
                        header: codec::owned("You do not have enough coin to buy this card, you may trade in 3 ink for one coin to buy this"),
                        options: three_options(
                            codec::reply_option(GameState::Buy, "Trade in 3 ink for one coin to buy this?", ReplyEffect::TakeRemaining(_c)),
                            codec::reply_option(GameState::Buy, "No, I want to another card", ReplyEffect::Nothing),
                            codec::reply_option(GameState::DrawCard, "No, I want to end my buy phase.", ReplyEffect::Nothing)),
                    };
                    send_request_and_mark(wait_for_input, player_id, w);
                }
            } else {
                send_request_and_mark(wait_for_input, player_id, cannot_afford_request(_c));
            }
        }
    }
}

/// What buying the locked-up card at position `pos` leaves: the players and
/// the queues. When the coins pay for it, the card leaves the locked-up cards
/// for the discard pile and its cost is paid; otherwise the player is sent a
/// request (to trade ink, or that the card cannot be afforded). A position
/// beyond the locked-up cards stands for card 2.
pub open spec fn lockup_buy_result(pos: usize, ps: Seq<PlayerView>, qs: Seq<Seq<Option<WaitView>>>, pid: usize)
    -> (Seq<PlayerView>, Seq<Seq<Option<WaitView>>>)
{
    if pid < ps.len() {
        let p = ps[pid as int];
        let c = if pos < p.lockup.len() { p.lockup[pos as int] } else { 2 };
        let cost = cards::card_spec(c).cost;
        if affordable(cost as nat, p.coin as nat, p.ink as nat) && cost <= p.coin {
            (ps.update(pid as int, PlayerView {
                coin: (p.coin - cost) as usize,
                discard: p.discard.push(c),
                lockup: p.lockup.remove(pos as int),
                ..p
            }), qs)
        } else {
            (ps, board::push_on(qs, pid as int,
                if affordable(cost as nat, p.coin as nat, p.ink as nat) { trade_ink_lockup_prompt(cost, c, pos) } else { cannot_afford_prompt(c) }))
        }
    } else {
        (ps, qs)
    }
}

/// Buys the locked-up card at the given position (card 2 stands in when there
/// is none there). When the coins pay for it, they are spent, the card goes to
/// the discard pile and leaves the locked-up cards. When the coins with three
/// ink per coin pay for it, the player is offered to trade ink; otherwise the
/// player is told it cannot be afforded.
pub fn buy_card_from_lockup(position_index: usize, cardmeta: &Vec<ListCard>, _board: &mut BoardStruct, player_id: usize, wait_for_input: &mut Vec<WaitForInputType>)
    requires
        cards::is_card_table(cardmeta@),
        player_id < old(_board).players@.len() ==> {
            let p = old(_board).players@[player_id as int]@;
            &&& player_id < old(wait_for_input)@.len()
            &&& forall|j: int| 0 <= j < p.lockup.len() ==> #[trigger] p.lockup[j] < NUM_CARDS
            &&& position_index >= p.lockup.len() ==> p.coin < cards::card_spec(2).cost
        },
    ensures
        final(_board).offer_row@ == old(_board).offer_row@,
        (codec::players_view(final(_board).players), codec::queues_view(*final(wait_for_input)))
            == lockup_buy_result(position_index, codec::players_view(old(_board).players), codec::queues_view(*old(wait_for_input)), player_id),
{
    if player_id < _board.players.len() {
        let mut card_index: usize = 2;
        if position_index < _board.players[player_id].lockup.len() {
            card_index = _board.players[player_id].lockup[position_index];
        }
        let info = cardmeta[card_index];
        assert(info == cards::card_spec(card_index));
        let coin = _board.players[player_id].coin;
        let ink = _board.players[player_id].ink;
        if info.cost <= coin || info.cost - coin <= ink / 3 {
            if info.cost <= coin {
                let ghost ps = codec::players_view(_board.players);
                _board.players[player_id].coin -= info.cost;
                _board.players[player_id].discard.push(card_index);
                _board.players[player_id].lockup.remove(position_index);
                proof {
                    let p = ps[player_id as int];
                    assert(codec::players_view(_board.players) =~= ps.update(player_id as int, PlayerView {
                        coin: (p.coin - info.cost) as usize,
                        discard: p.discard.push(card_index),
                        lockup: p.lockup.remove(position_index as int),
                        ..p
                    }));
                }
            } else {
                let cost = info.cost;
                let w = WaitForSingleInput {
                    card_index,
                    wait_state: GameState::PreWaitForReply,
                    header: codec::owned("You do not have enough coin to buy this card, you may trade in 3 ink for one coin to buy this"),
                    options: three_options(
                        codec::reply_option(GameState::DrawCard, "Trade in 3 ink for one coin to buy this.", ReplyEffect::BuyLockupWithInk(cost, card_index, position_index)),
                        codec::reply_option(GameState::Buy, "No, I want to buy another card.", ReplyEffect::Nothing),
                        codec::reply_option(GameState::DrawCard, "No, I want to end buy phase.", ReplyEffect::Nothing)),
                };
                push_request(wait_for_input, player_id, w);
            }
        } else {
            push_request(wait_for_input, player_id, cannot_afford_request(card_index));
        }
    }
}

/// What locking up the card at position `pos` of the remaining cards `rm`
/// leaves: the card leaves `rm` for the player's locked-up cards, and a mark
/// goes on the player's queue.
pub open spec fn lockup_result(pos: usize, rm: Seq<usize>, ps: Seq<PlayerView>, qs: Seq<Seq<Option<WaitView>>>, pid: usize)
    -> (Seq<usize>, Seq<PlayerView>, Seq<Seq<Option<WaitView>>>)
{
    if pid < ps.len() && pid < qs.len() {
        let p = ps[pid as int];
        (rm.remove(pos as int), ps.update(pid as int, PlayerView { lockup: p.lockup.push(rm[pos as int]), ..p }), resolve_cards::push_mark(qs, pid as int))
    } else {
        (rm, ps, qs)
    }
}

/// Locks up the card at the given position of the remaining cards: it leaves
/// them for the player's locked-up cards, and a mark goes on the queue.
pub fn lockup_a_card(position_index: usize, _board: &mut BoardStruct, player_id: usize, remainingcards: &mut Vec<usize>, wait_for_input: &mut Vec<WaitForInputType>, type_is_reply: &mut bool)
    requires
        player_id < old(_board).players@.len() && player_id < old(wait_for_input)@.len() ==> position_index < old(remainingcards)@.len(),
    ensures
        final(_board).offer_row@ == old(_board).offer_row@,
        (final(remainingcards)@, codec::players_view(final(_board).players), codec::queues_view(*final(wait_for_input)))
            == lockup_result(position_index, old(remainingcards)@, codec::players_view(old(_board).players), codec::queues_view(*old(wait_for_input)), player_id),
        *final(type_is_reply) == if player_id < old(_board).players@.len() && player_id < old(wait_for_input)@.len() { false } else { *old(type_is_reply) },
{
    if player_id < _board.players.len() && player_id < wait_for_input.len() {
        let ghost ps = codec::players_view(_board.players);
        let ghost qs = codec::queues_view(*wait_for_input);
        let c = remainingcards[position_index];
        _board.players[player_id].lockup.push(c);
        wait_for_input[player_id].push(None);
        remainingcards.remove(position_index);
        *type_is_reply = false;
        proof {
            let p = ps[player_id as int];
            assert(codec::players_view(_board.players) =~= ps.update(player_id as int, PlayerView { lockup: p.lockup.push(c), ..p }));
            assert(codec::queue_view(wait_for_input@[player_id as int]) =~= qs[player_id as int].push(None));
            assert(codec::queues_view(*wait_for_input) =~= resolve_cards::push_mark(qs, player_id as int));
        }
    }
}

/// The players after player `pid` trashes the card at position `pos` of the
/// hand for one coin.
pub open spec fn trash_result(pos: usize, ps: Seq<PlayerView>, pid: usize) -> Seq<PlayerView> {
    if pid < ps.len() {
        let p = ps[pid as int];
        ps.update(pid as int, PlayerView { hand: p.hand.remove(pos as int), coin: (p.coin + 1) as usize, ..p })
    } else {
        ps
    }
}

/// Trashes the card at the given position of the hand for one coin.
pub fn trash_another_card(position_index: usize, _board: &mut BoardStruct, player_id: usize, wait_for_input: &mut Vec<WaitForInputType>, type_is_reply: &mut bool)
    requires
        player_id < old(_board).players@.len() ==> {
            let p = old(_board).players@[player_id as int];
            &&& position_index < p.hand@.len()
            &&& p.coin < usize::MAX
        },
    ensures
        final(_board).offer_row@ == old(_board).offer_row@,
        codec::queues_view(*final(wait_for_input)) == codec::queues_view(*old(wait_for_input)),
        codec::players_view(final(_board).players) == trash_result(position_index, codec::players_view(old(_board).players), player_id),
        *final(type_is_reply) == if player_id < old(_board).players@.len() { false } else { *old(type_is_reply) },
{
    if player_id < _board.players.len() {
        let ghost ps = codec::players_view(_board.players);
        _board.players[player_id].hand.remove(position_index);
        _board.players[player_id].coin += 1;
        *type_is_reply = false;
        proof {
            let p = ps[player_id as int];
            assert(codec::players_view(_board.players) =~= ps.update(player_id as int,
                PlayerView { hand: p.hand.remove(position_index as int), coin: (p.coin + 1) as usize, ..p }));
        }
    }
}

/// The number of the given cards that are not in the discard pile.
pub open spec fn fresh_count(cards: Seq<usize>, discard: Seq<usize>) -> nat
    decreases cards.len(),
{
    if cards.len() == 0 {
        0
    } else {
        fresh_count(cards.drop_last(), discard) + if discard.contains(cards.last()) { 0nat } else { 1nat }
    }
}

/// The position of the remaining card that goes to the discard pile in a step
/// of drawing three cards, if the step takes one: the cards drawn sit from
/// position 7 on, and the step skips over those not yet discarded.
pub open spec fn putback_index(countdown: usize, rem: Seq<usize>, discard: Seq<usize>) -> Option<int> {
    if countdown == 2 && rem.len() > 7 {
        Some(if !discard.contains(rem[7]) { 8 } else { 7 })
    } else if countdown == 1 && rem.len() > 8 {
        Some(7 + fresh_count(rem.subrange(7, 9), discard) as int)
    } else if countdown == 0 && rem.len() > 9 {
        Some(7 + fresh_count(rem.subrange(7, 10), discard) as int)
    } else {
        None
    }
}

/// The request that continues drawing three cards.
pub open spec fn putback_prompt(countdown: usize, responsible: usize) -> WaitView {
    (responsible, GameState::PreWaitForReply, "Do you want to put back the card or add to your own discard pile?"@,
        seq![
            (GameState::PutBackDiscard(countdown, responsible), "Put back the card"@, ReplyEffect::Nothing),
            (GameState::PutBackDiscard(countdown, responsible), "Add to own discard pile."@, ReplyEffect::Nothing),
        ])
}

/// The position `putback_index` gives, computed.
pub fn putback_position(countdown: usize, rem_cards: &Vec<usize>, discard: &Vec<usize>) -> (taken: Option<usize>)
    ensures
        taken == (match putback_index(countdown, rem_cards@, discard@) { Some(k) => Some(k as usize), None => None::<usize> }),
        putback_index(countdown, rem_cards@, discard@) matches Some(k) ==> 7 <= k <= 10,
{
    let ghost rem = rem_cards@;
    let ghost dis = discard@;
    let mut taken: Option<usize> = None;
    if countdown == 2 {
        if rem_cards.len() > 7 {
            let c = rem_cards[7];
            if !codec::contains_id(discard, c) {
                taken = Some(8);
            } else {
                taken = Some(7);
            }
        }
    } else if countdown == 1 {
        if rem_cards.len() > 8 {
            let mut k: usize = 0;
            if !codec::contains_id(discard, rem_cards[7]) { k = k + 1; }
            if !codec::contains_id(discard, rem_cards[8]) { k = k + 1; }
            proof {
                let sub = rem.subrange(7, 9);
                assert(sub.drop_last().drop_last() =~= Seq::<usize>::empty());
                assert(sub.drop_last().last() == rem[7]);
                assert(sub.last() == rem[8]);
                assert(fresh_count(sub.drop_last().drop_last(), dis) == 0);
                assert(fresh_count(sub.drop_last(), dis) == if dis.contains(rem[7]) { 0nat } else { 1nat });
                assert(fresh_count(sub, dis) == fresh_count(sub.drop_last(), dis) + if dis.contains(rem[8]) { 0nat } else { 1nat });
            }
            taken = Some(7 + k);
        }
    } else if countdown == 0 {
        if rem_cards.len() > 9 {
            let mut k: usize = 0;
            if !codec::contains_id(discard, rem_cards[7]) { k = k + 1; }
            if !codec::contains_id(discard, rem_cards[8]) { k = k + 1; }
            if !codec::contains_id(discard, rem_cards[9]) { k = k + 1; }
            proof {
                let sub = rem.subrange(7, 10);
                assert(sub.drop_last().drop_last().drop_last() =~= Seq::<usize>::empty());
                assert(sub.drop_last().drop_last().last() == rem[7]);
                assert(sub.drop_last().last() == rem[8]);
                assert(sub.last() == rem[9]);
                assert(fresh_count(sub.drop_last().drop_last().drop_last(), dis) == 0);
                assert(fresh_count(sub.drop_last().drop_last(), dis) == if dis.contains(rem[7]) { 0nat } else { 1nat });
                assert(fresh_count(sub.drop_last(), dis) == fresh_count(sub.drop_last().drop_last(), dis) + if dis.contains(rem[8]) { 0nat } else { 1nat });
                assert(fresh_count(sub, dis) == fresh_count(sub.drop_last(), dis) + if dis.contains(rem[9]) { 0nat } else { 1nat });
            }
            taken = Some(7 + k);
        }
    }
    taken
}

/// What a step of drawing three cards leaves: the card the step takes, if
/// any, leaves the remaining cards `rm` for the player's discard pile; then
/// the next step is requested and a mark follows, or after the last step
/// only a mark is pushed.
pub open spec fn putback_result(countdown: usize, responsible: usize, rm: Seq<usize>, ps: Seq<PlayerView>, qs: Seq<Seq<Option<WaitView>>>, pid: usize)
    -> (Seq<usize>, Seq<PlayerView>, Seq<Seq<Option<WaitView>>>)
{
    let taken = if pid < ps.len() { putback_index(countdown, rm, ps[pid as int].discard) } else { None };
    let qs1 = if countdown == 0 {
        resolve_cards::push_mark(qs, pid as int)
    } else {
        request_and_mark(qs, pid as int, putback_prompt((countdown - 1) as usize, responsible))
    };
    match taken {
        Some(k) => {
            let p = ps[pid as int];
            (rm.remove(k), ps.update(pid as int, PlayerView { discard: p.discard.push(rm[k]), ..p }), qs1)
        },
        None => (rm, ps, qs1),
    }
}

/// One step of drawing three cards: a card drawn goes to the discard pile;
/// then the next step is requested, or after the last step a mark is pushed.
pub fn putback_discard(countdown: usize, responsible: usize, _board: &mut BoardStruct, player_id: usize, remainingcards: &mut Vec<usize>, wait_for_input: &mut Vec<WaitForInputType>, type_is_reply: &mut bool)
    requires
        player_id < old(wait_for_input)@.len(),
        player_id < old(_board).players@.len() ==> (putback_index(countdown, old(remainingcards)@, old(_board).players@[player_id as int].discard@) matches Some(k)
            ==> k < old(remainingcards)@.len()),
    ensures
        final(_board).offer_row@ == old(_board).offer_row@,
        !*final(type_is_reply),
        (final(remainingcards)@, codec::players_view(final(_board).players), codec::queues_view(*final(wait_for_input)))
            == putback_result(countdown, responsible, old(remainingcards)@, codec::players_view(old(_board).players), codec::queues_view(*old(wait_for_input)), player_id),
{
    let ghost ps = codec::players_view(_board.players);
    let ghost rem = remainingcards@;
    let mut taken: Option<usize> = None;
    if player_id < _board.players.len() {
        let ghost discard = _board.players@[player_id as int].discard@;
        taken = putback_position(countdown, remainingcards, &_board.players[player_id].discard);
        assert(taken == (match putback_index(countdown, rem, discard) { Some(k) => Some(k as usize), None => None::<usize> }));
        if let Some(k) = taken {
            let c = remainingcards.remove(k);
            _board.players[player_id].discard.push(c);
            proof {
                let p = ps[player_id as int];
                assert(codec::players_view(_board.players) =~= ps.update(player_id as int, PlayerView { discard: p.discard.push(rem[k as int]), ..p }));
            }
        }
    }
    if countdown == 0 {
        let ghost qs = codec::queues_view(*wait_for_input);
        wait_for_input[player_id].push(None);
        proof {
            assert(codec::queue_view(wait_for_input@[player_id as int]) =~= qs[player_id as int].push(None));
            assert(codec::queues_view(*wait_for_input) =~= resolve_cards::push_mark(qs, player_id as int));
        }
    } else {
        let next = countdown - 1;
        let w = WaitForSingleInput {
            card_index: responsible,
            wait_state: GameState::PreWaitForReply,
            header: codec::owned("Do you want to put back the card or add to your own discard pile?"),
            options: two_options(
                codec::reply_option(GameState::PutBackDiscard(next, responsible), "Put back the card", ReplyEffect::Nothing),
                codec::reply_option(GameState::PutBackDiscard(next, responsible), "Add to own discard pile.", ReplyEffect::Nothing)),
        };
        send_request_and_mark(wait_for_input, player_id, w);
    }
    *type_is_reply = false;
}


/// Moving the card at `position` of `from` to the end of `to` keeps the
/// cards of both together.
proof fn lemma_move_keeps_cards(from: Seq<usize>, position: int, to: Seq<usize>)
    requires
        0 <= position < from.len(),
    ensures
        (from.remove(position) + to.push(from[position])).to_multiset() == (from + to).to_multiset(),
{
    broadcast use vstd::seq_lib::lemma_multiset_commutative;
    broadcast use vstd::multiset::group_multiset_axioms;
    broadcast use vstd::seq_lib::group_to_multiset_ensures;
    assert((from.remove(position) + to.push(from[position])).to_multiset() =~= (from + to).to_multiset());
}

/// Buying keeps the cards: a card bought leaves the remaining cards and joins
/// the buyer's discard pile, and no other pile or player changes.
pub proof fn lemma_buy_keeps_cards(pos: usize, rm: Seq<usize>, ps: Seq<PlayerView>, qs: Seq<Seq<Option<WaitView>>>, pid: usize)
    requires
        pid < ps.len(),
    ensures
        ({
            let r = buy_result(pos, rm, ps, qs, pid);
            &&& (r.0 + r.1[pid as int].discard).to_multiset() == (rm + ps[pid as int].discard).to_multiset()
            &&& r.1.len() == ps.len()
            &&& r.1[pid as int].hand == ps[pid as int].hand
            &&& r.1[pid as int].lockup == ps[pid as int].lockup
            &&& forall|i: int| 0 <= i < ps.len() && i != pid ==> r.1[i] == ps[i]
        }),
{
    if pos < rm.len() {
        lemma_move_keeps_cards(rm, pos as int, ps[pid as int].discard);
    }
}

/// Locking up keeps the cards: the card leaves the remaining cards and joins
/// the player's locked-up cards, and no other pile or player changes.
pub proof fn lemma_lockup_keeps_cards(pos: usize, rm: Seq<usize>, ps: Seq<PlayerView>, qs: Seq<Seq<Option<WaitView>>>, pid: usize)
    requires
        pid < ps.len(),
        pid < qs.len(),
        pos < rm.len(),
    ensures
        ({
            let r = lockup_result(pos, rm, ps, qs, pid);
            &&& (r.0 + r.1[pid as int].lockup).to_multiset() == (rm + ps[pid as int].lockup).to_multiset()
            &&& r.1.len() == ps.len()
            &&& r.1[pid as int].hand == ps[pid as int].hand
            &&& r.1[pid as int].discard == ps[pid as int].discard
            &&& forall|i: int| 0 <= i < ps.len() && i != pid ==> r.1[i] == ps[i]
        }),
{
    lemma_move_keeps_cards(rm, pos as int, ps[pid as int].lockup);
}

/// A step of drawing three cards keeps the cards: a card taken leaves the
/// remaining cards and joins the player's discard pile, and no other pile or
/// player changes.
pub proof fn lemma_putback_keeps_cards(countdown: usize, responsible: usize, rm: Seq<usize>, ps: Seq<PlayerView>, qs: Seq<Seq<Option<WaitView>>>, pid: usize)
    requires
        pid < ps.len(),
        putback_index(countdown, rm, ps[pid as int].discard) matches Some(k) ==> k < rm.len(),
    ensures
        ({
            let r = putback_result(countdown, responsible, rm, ps, qs, pid);
            &&& (r.0 + r.1[pid as int].discard).to_multiset() == (rm + ps[pid as int].discard).to_multiset()
            &&& r.1.len() == ps.len()
            &&& r.1[pid as int].hand == ps[pid as int].hand
            &&& r.1[pid as int].lockup == ps[pid as int].lockup
            &&& forall|i: int| 0 <= i < ps.len() && i != pid ==> r.1[i] == ps[i]
        }),
{
    if let Some(k) = putback_index(countdown, rm, ps[pid as int].discard) {
        lemma_move_keeps_cards(rm, k, ps[pid as int].discard);
    }
}

/// The coins a card gives when it is bought, read off its purchase benefit.
pub open spec fn coins_on_purchase(c: usize) -> nat {
    match cards::card_spec(c).purchase_giveables {
        GIVEABLE::COIN(x) => x as nat,
        _ => 0,
    }
}

/// Buying a card of the remaining cards that the coins pay for: the card
/// leaves the remaining cards and goes on top of the buyer's discard pile,
/// and the buyer's coins drop by its cost and rise by the coins it gives when
/// bought; no other tally or pile of the buyer, and no other player, changes.
/// When the coins fall short, no card and no coin moves.
pub proof fn lemma_buy_pays_the_cost(pos: usize, rm: Seq<usize>, ps: Seq<PlayerView>, qs: Seq<Seq<Option<WaitView>>>, pid: usize)
    requires
        pid < ps.len(),
        pos < rm.len(),
        rm[pos as int] < NUM_CARDS,
        ps[pid as int].coin + 5 <= usize::MAX,
    ensures
        ({
            let r = buy_result(pos, rm, ps, qs, pid);
            let p = ps[pid as int];
            let q = r.1[pid as int];
            let c = rm[pos as int];
            let cost = cards::card_spec(c).cost;
            &&& r.1.len() == ps.len()
            &&& forall|i: int| 0 <= i < ps.len() && i != pid ==> r.1[i] == ps[i]
            &&& if cost <= p.coin {
                &&& q.coin + cost == p.coin + coins_on_purchase(c)
                &&& q.discard == p.discard.push(c)
                &&& r.0 == rm.remove(pos as int)
                &&& q.vp == p.vp && q.ink == p.ink && q.remover == p.remover
                &&& q.hand == p.hand && q.draft == p.draft && q.lockup == p.lockup
            } else {
                &&& r.0 == rm
                &&& r.1 == ps
            }
        }),
{
    cards::lemma_table_amounts(rm[pos as int]);
}

/// Trashing a card of the hand for one coin: that card leaves the hand, the
/// coins rise by one, and nothing else changes.
pub proof fn lemma_trash_gives_one_coin(pos: usize, ps: Seq<PlayerView>, pid: usize)
    requires
        pid < ps.len(),
        pos < ps[pid as int].hand.len(),
        ps[pid as int].coin < usize::MAX,
    ensures
        ({
            let r = trash_result(pos, ps, pid);
            let p = ps[pid as int];
            let q = r[pid as int];
            &&& r.len() == ps.len()
            &&& forall|i: int| 0 <= i < ps.len() && i != pid ==> r[i] == ps[i]
            &&& q.coin == p.coin + 1
            &&& q.hand.len() + 1 == p.hand.len()
            &&& q.hand == p.hand.subrange(0, pos as int) + p.hand.subrange(pos + 1, p.hand.len() as int)
            &&& q.vp == p.vp && q.ink == p.ink && q.discard == p.discard && q.lockup == p.lockup
        }),
{
    let p = ps[pid as int];
    assert(p.hand.remove(pos as int) =~= p.hand.subrange(0, pos as int) + p.hand.subrange(pos + 1, p.hand.len() as int));
}

/// Locking up a card of the remaining cards: it leaves them and ends the
/// player's locked-up cards; no tally changes.
pub proof fn lemma_lockup_moves_the_card(pos: usize, rm: Seq<usize>, ps: Seq<PlayerView>, qs: Seq<Seq<Option<WaitView>>>, pid: usize)
    requires
        pid < ps.len(),
        pid < qs.len(),
        pos < rm.len(),
    ensures
        ({
            let r = lockup_result(pos, rm, ps, qs, pid);
            let p = ps[pid as int];
            let q = r.1[pid as int];
            &&& r.0.len() + 1 == rm.len()
            &&& r.0 == rm.subrange(0, pos as int) + rm.subrange(pos + 1, rm.len() as int)
            &&& q.lockup == p.lockup.push(rm[pos as int])
            &&& q.coin == p.coin && q.vp == p.vp && q.ink == p.ink && q.hand == p.hand && q.discard == p.discard
            &&& r.1.len() == ps.len()
            &&& forall|i: int| 0 <= i < ps.len() && i != pid ==> r.1[i] == ps[i]
        }),
{
    assert(rm.remove(pos as int) =~= rm.subrange(0, pos as int) + rm.subrange(pos + 1, rm.len() as int));
}

/// When the coins fall short of a remaining card, no card and no coin moves:
/// the buyer gets one request about that card, then a mark. The request
/// offers to trade ink for the missing coins when three ink per missing coin
/// cover it, and otherwise only says the card cannot be afforded, with
/// answers that do nothing.
pub proof fn lemma_buy_short_asks(pos: usize, rm: Seq<usize>, ps: Seq<PlayerView>, qs: Seq<Seq<Option<WaitView>>>, pid: usize)
    requires
        pid < ps.len(),
        pid < qs.len(),
        pos < rm.len(),
        cards::card_spec(rm[pos as int]).cost > ps[pid as int].coin,
    ensures
        ({
            let r = buy_result(pos, rm, ps, qs, pid);
            let p = ps[pid as int];
            let c = rm[pos as int];
            let cost = cards::card_spec(c).cost;
            let n = qs[pid as int].len();
            &&& r.0 == rm
            &&& r.1 == ps
            &&& r.2.len() == qs.len()
            &&& forall|i: int| 0 <= i < qs.len() && i != pid ==> r.2[i] == qs[i]
            &&& r.2[pid as int].len() == n + 2
            &&& r.2[pid as int].subrange(0, n as int) == qs[pid as int]
            &&& r.2[pid as int][n as int + 1] is None
            &&& r.2[pid as int][n as int] matches Some(w) && w.0 == c && if cost <= p.coin + p.ink / 3 {
                w.3[0].2 == ReplyEffect::TakeRemaining(c)
            } else {
                forall|k: int| 0 <= k < w.3.len() ==> (#[trigger] w.3[k]).2 == ReplyEffect::Nothing
            }
        }),
{
    let r = buy_result(pos, rm, ps, qs, pid);
    let n = qs[pid as int].len();
    assert(r.2[pid as int].subrange(0, n as int) =~= qs[pid as int]);
}

/// Buying a locked-up card that the coins pay for: the card leaves the
/// locked-up cards and goes on top of the discard pile, and the coins drop
/// by its cost; no other tally or pile, and no other player, changes. When
/// the coins fall short, no card and no coin moves and the player gets one
/// request, offering to trade ink exactly when three ink per missing coin
/// cover the cost.
pub proof fn lemma_lockup_buy_pays_the_cost(pos: usize, ps: Seq<PlayerView>, qs: Seq<Seq<Option<WaitView>>>, pid: usize)
    requires
        pid < ps.len(),
        pid < qs.len(),
        pos < ps[pid as int].lockup.len(),
    ensures
        ({
            let r = lockup_buy_result(pos, ps, qs, pid);
            let p = ps[pid as int];
            let c = p.lockup[pos as int];
            let cost = cards::card_spec(c).cost;
            let q = r.0[pid as int];
            &&& r.0.len() == ps.len()
            &&& forall|i: int| 0 <= i < ps.len() && i != pid ==> r.0[i] == ps[i]
            &&& if cost <= p.coin {
                &&& q.coin + cost == p.coin
                &&& q.discard == p.discard.push(c)
                &&& q.lockup == p.lockup.subrange(0, pos as int) + p.lockup.subrange(pos + 1, p.lockup.len() as int)
                &&& q == (PlayerView { coin: q.coin, discard: q.discard, lockup: q.lockup, ..p })
                &&& r.1 == qs
            } else {
                &&& r.0 == ps
                &&& r.1.len() == qs.len()
                &&& forall|i: int| 0 <= i < qs.len() && i != pid ==> r.1[i] == qs[i]
                &&& r.1[pid as int].drop_last() == qs[pid as int]
                &&& r.1[pid as int].last() matches Some(w) && w.0 == c && if cost <= p.coin + p.ink / 3 {
                    w.3[0].2 == ReplyEffect::BuyLockupWithInk(cost, c, pos)
                } else {
                    forall|k: int| 0 <= k < w.3.len() ==> (#[trigger] w.3[k]).2 == ReplyEffect::Nothing
                }
            }
        }),
{
    let p = ps[pid as int];
    assert(p.lockup.remove(pos as int) =~= p.lockup.subrange(0, pos as int) + p.lockup.subrange(pos + 1, p.lockup.len() as int));
    let r = lockup_buy_result(pos, ps, qs, pid);
    assert(r.1[pid as int].drop_last() =~= qs[pid as int] || r.1 == qs);
}

/// A step of drawing three cards: when it takes a card, the card leaves the
/// remaining cards for the top of the player's discard pile and no tally
/// changes; the player's queue gets the request for the next step while the
/// count runs, and a mark after it.
pub proof fn lemma_putback_step(countdown: usize, responsible: usize, rm: Seq<usize>, ps: Seq<PlayerView>, qs: Seq<Seq<Option<WaitView>>>, pid: usize)
    requires
        pid < ps.len(),
        pid < qs.len(),
        putback_index(countdown, rm, ps[pid as int].discard) matches Some(k) ==> k < rm.len(),
    ensures
        ({
            let r = putback_result(countdown, responsible, rm, ps, qs, pid);
            let p = ps[pid as int];
            let q = r.1[pid as int];
            let n = qs[pid as int].len();
            &&& r.1.len() == ps.len()
            &&& forall|i: int| 0 <= i < ps.len() && i != pid ==> r.1[i] == ps[i]
            &&& match putback_index(countdown, rm, p.discard) {
                Some(k) => {
                    &&& 7 <= k <= 10
                    &&& q.discard == p.discard.push(rm[k])
                    &&& r.0 == rm.subrange(0, k) + rm.subrange(k + 1, rm.len() as int)
                    &&& q == (PlayerView { discard: q.discard, ..p })
                },
                None => r.0 == rm && r.1 == ps,
            }
            &&& r.2.len() == qs.len()
            &&& forall|i: int| 0 <= i < qs.len() && i != pid ==> r.2[i] == qs[i]
            &&& r.2[pid as int].last() is None
            &&& if countdown == 0 {
                r.2[pid as int] == qs[pid as int].push(None)
            } else {
                r.2[pid as int] == qs[pid as int].push(Some(putback_prompt((countdown - 1) as usize, responsible))).push(None)
            }
        }),
{
    let p = ps[pid as int];
    if let Some(k) = putback_index(countdown, rm, p.discard) {
        assert(rm.remove(k) =~= rm.subrange(0, k) + rm.subrange(k + 1, rm.len() as int));
        if countdown == 1 {
            lemma_fresh_count_bounded(rm.subrange(7, 9), p.discard);
        } else if countdown == 0 {
            lemma_fresh_count_bounded(rm.subrange(7, 10), p.discard);
        }
    }
}

proof fn lemma_fresh_count_bounded(cards: Seq<usize>, discard: Seq<usize>)
    ensures
        fresh_count(cards, discard) <= cards.len(),
    decreases cards.len(),
{
    if cards.len() > 0 {
        lemma_fresh_count_bounded(cards.drop_last(), discard);
    }
}

} // verus!
