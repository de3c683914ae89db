use vstd::prelude::*;
use crate::cards::{self, CardEffect, Genre, NUM_CARDS};
use crate::codec::{self, Arranged, ArrangedView, GameState, Player, PlayerView, ReplyEffect, ReplyOption, WaitForInputType, WaitForSingleInput, WaitView, position_of};
use vstd::string::StringExecFns;

verus! {

/// The players of a game and the row of cards on offer.
pub struct BoardStruct {
    pub players: Vec<Player>,
    pub offer_row: Vec<usize>,
}

/// The offer row shown for the remaining cards: the first seven of them.
pub open spec fn offer_row_of(remaining: Seq<usize>) -> Seq<usize> {
    if remaining.len() <= 7 { remaining } else { remaining.take(7) }
}

/// The first seven remaining cards.
pub fn offer_row(remaining_cards: &Vec<usize>) -> (r: Vec<usize>)
    ensures
        r@ == offer_row_of(remaining_cards@),
{
    let mut offer_row: Vec<usize> = Vec::new();
    let mut i: usize = 0;
    while i < 7 && i < remaining_cards.len()
        invariant
            i <= 7,
            i <= remaining_cards@.len(),
            offer_row@ == remaining_cards@.subrange(0, i as int),
        decreases 7 - i,
    {
        offer_row.push(remaining_cards[i]);
        i = i + 1;
    }
    offer_row
}

impl BoardStruct {
    /// A board with the given players whose offer row is the first seven remaining cards.
    pub fn new(players: Vec<Player>, remaining_cards: &Vec<usize>) -> (b: BoardStruct)
        ensures
            codec::players_view(b.players) == codec::players_view(players),
            b.offer_row@ == offer_row_of(remaining_cards@),
    {
        BoardStruct { players, offer_row: offer_row(remaining_cards) }
    }
}

/// For each arranged card, the card itself, or `None` where it is played as a wild card.
pub open spec fn valid_cards(arr: Seq<ArrangedView>) -> Seq<Option<usize>> {
    arr.map_values(|a: ArrangedView| if a.2 is Some { None } else { Some(a.0) })
}

/// The cards of the player that are not played as wild cards, in order.
pub fn get_valid_cards(_p: &mut Player) -> (valid: Vec<Option<usize>>)
    ensures
        final(_p)@ == old(_p)@,
        valid@ == valid_cards(old(_p)@.arranged),
{
    let mut valid_card: Vec<Option<usize>> = Vec::new();
    let mut i: usize = 0;
    while i < _p.arranged.len()
        invariant
            i <= _p.arranged@.len(),
            valid_card@ == valid_cards(_p@.arranged).subrange(0, i as int),
        decreases _p.arranged@.len() - i,
    {
        if _p.arranged[i].2.is_some() {
            valid_card.push(None);
        } else {
            valid_card.push(Some(_p.arranged[i].0));
        }
        i = i + 1;
    }
    valid_card
}

/// Whether position `j` is next to position `pc` in a layout of `len` cards:
/// the first card looks right, the last card looks left, the others both ways.
pub open spec fn is_adjacent(len: int, pc: int, j: int) -> bool {
    &&& 0 <= j < len
    &&& if pc == 0 {
        j == 1
    } else if pc == len - 1 {
        j == pc - 1
    } else {
        j == pc - 1 || j == pc + 1
    }
}

/// The layout with the wild letter taken off every card next to position `pc`.
pub open spec fn uncover_beside(arr: Seq<ArrangedView>, pc: int) -> Seq<ArrangedView> {
    Seq::new(
        arr.len(),
        |j: int|
            if is_adjacent(arr.len() as int, pc, j) {
                (arr[j].0, arr[j].1, None::<Seq<char>>, arr[j].3)
            } else {
                arr[j]
            },
    )
}

/// Whether a card next to position `pc` is played as a wild card.
pub open spec fn wild_beside(arr: Seq<ArrangedView>, pc: int) -> bool {
    exists|j: int| is_adjacent(arr.len() as int, pc, j) && (#[trigger] arr[j]).2 is Some
}

/// Sets the wild letter of entry `j` to `None`.
fn clear_wild(arr: &mut Vec<Arranged>, j: usize)
    requires
        j < old(arr)@.len(),
    ensures
        final(arr)@.len() == old(arr)@.len(),
        forall|k: int| 0 <= k < old(arr)@.len() && k != j ==> final(arr)@[k] == old(arr)@[k],
        codec::arranged_view(final(arr)@[j as int]) == (old(arr)@[j as int].0, old(arr)@[j as int].1, None::<Seq<char>>, old(arr)@[j as int].3),
{
    let c = arr[j].0;
    let inked = arr[j].1;
    let timeless = arr[j].3;
    arr.set(j, (c, inked, None, timeless));
}

/// Takes the wild letter off the cards next to the given position, and says
/// whether one of them was played as a wild card.
pub fn there_is_wild_beside(_p: &mut Player, position_card: Option<usize>) -> (b: bool)
    requires
        position_card matches Some(pc) ==> pc < old(_p).arranged@.len(),
    ensures
        match position_card {
            Some(pc) => {
                &&& b == wild_beside(old(_p)@.arranged, pc as int)
                &&& final(_p)@ == (PlayerView { arranged: uncover_beside(old(_p)@.arranged, pc as int), ..old(_p)@ })
            },
            None => !b && final(_p)@ == old(_p)@,
        },
{
    let ghost old_arr = _p@.arranged;
    let ghost mut witness: int = 0;
    let mut there_is = false;
    if let Some(pc) = position_card {
        let len = _p.arranged.len();
        if pc == 0 {
            if 1 < len {
                if _p.arranged[1].2.is_some() {
                    proof { witness = 1; }
                    clear_wild(&mut _p.arranged, 1);
                    there_is = true;
                }
            }
        } else if pc == len - 1 {
            if _p.arranged[pc - 1].2.is_some() {
                proof { witness = pc - 1; }
                clear_wild(&mut _p.arranged, pc - 1);
                there_is = true;
            }
        } else {
            if _p.arranged[pc - 1].2.is_some() {
                proof { witness = pc - 1; }
                clear_wild(&mut _p.arranged, pc - 1);
                there_is = true;
            }
            if _p.arranged[pc + 1].2.is_some() {
                proof { witness = pc + 1; }
                clear_wild(&mut _p.arranged, pc + 1);
                there_is = true;
            }
        }
        assert(_p@.arranged =~= uncover_beside(old_arr, pc as int));
        if there_is {
            assert(is_adjacent(old_arr.len() as int, pc as int, witness) && old_arr[witness].2 is Some);
        }
    }
    there_is
}

/// The card at position `j` if it lies in the layout and is not wild.
pub open spec fn pick_valid(arr: Seq<ArrangedView>, j: int) -> Seq<usize> {
    if 0 <= j < arr.len() && arr[j].2 is None { seq![arr[j].0] } else { Seq::empty() }
}

/// The cards next to position `pc` that are not wild, left one first.
pub open spec fn valid_beside(arr: Seq<ArrangedView>, pc: int) -> Seq<usize> {
    if pc == 0 {
        pick_valid(arr, 1)
    } else if pc == arr.len() - 1 {
        pick_valid(arr, pc - 1)
    } else {
        pick_valid(arr, pc - 1) + pick_valid(arr, pc + 1)
    }
}

/// The cards next to the given position that are not wild, and whether there are any.
pub fn there_is_valid_beside(_p: &mut Player, position_card: Option<usize>) -> (r: (bool, Vec<usize>))
    requires
        position_card matches Some(pc) ==> pc < old(_p).arranged@.len(),
    ensures
        final(_p)@ == old(_p)@,
        match position_card {
            Some(pc) => r.1@ == valid_beside(old(_p)@.arranged, pc as int),
            None => r.1@ == Seq::<usize>::empty(),
        },
        r.0 == (r.1@.len() > 0),
{
    let ghost arr = _p@.arranged;
    let mut there_is = false;
    let mut cards_to_double: Vec<usize> = Vec::new();
    if let Some(pc) = position_card {
        let len = _p.arranged.len();
        if pc == 0 {
            if 1 < len {
                if _p.arranged[1].2.is_none() {
                    cards_to_double.push(_p.arranged[1].0);
                    there_is = true;
                }
            }
        } else if pc == len - 1 {
            if _p.arranged[pc - 1].2.is_none() {
                cards_to_double.push(_p.arranged[pc - 1].0);
                there_is = true;
            }
        } else {
            if _p.arranged[pc - 1].2.is_none() {
                cards_to_double.push(_p.arranged[pc - 1].0);
                there_is = true;
            }
            if _p.arranged[pc + 1].2.is_none() {
                cards_to_double.push(_p.arranged[pc + 1].0);
                there_is = true;
            }
        }
        assert(cards_to_double@ =~= valid_beside(arr, pc as int));
    }
    (there_is, cards_to_double)
}

/// The skip list without the first occurrence of `x`.
pub open spec fn remove_first(s: Seq<usize>, x: usize) -> Seq<usize> {
    if s.contains(x) {
        let i = choose|i: int| 0 <= i < s.len() && s[i] == x && forall|j: int| 0 <= j < i ==> s[j] != x;
        s.remove(i)
    } else {
        s
    }
}

/// Takes the first occurrence of the card out of the player's skip list.
pub fn remove_skip_card(_p: &mut Player, card_index: usize)
    ensures
        final(_p)@ == (PlayerView { skip_cards: remove_first(old(_p)@.skip_cards, card_index), ..old(_p)@ }),
{
    let ghost s = _p@.skip_cards;
    if let Some(_index) = position_of(&_p.skip_cards, card_index) {
        proof {
            let i = choose|i: int| 0 <= i < s.len() && s[i] == card_index && forall|j: int| 0 <= j < i ==> s[j] != card_index;
            assert(i == _index) by {
                if i < _index { } else if i > _index { assert(s[_index as int] == card_index); }
            }
        }
        _p.skip_cards.remove(_index);
    }
}

/// The abilities of cards, carried out on a board. Each one may push requests
/// on the players' queues.
pub trait Board {
    /// Whether the abilities can be used for the given player on this board.
    spec fn ready_for(&self, player_id: usize) -> bool;

    fn two_cent_per_adv(&mut self, player_id: usize, card_index: usize, wait_for_input: &mut Vec<WaitForInputType>)
        requires
            old(self).ready_for(player_id),
    ;

    fn minus_other_ink(&mut self, player_id: usize, card_index: usize, wait_for_input: &mut Vec<WaitForInputType>)
        requires
            old(self).ready_for(player_id),
    ;

    fn lockup_offer(&mut self, player_id: usize, card_index: usize, wait_for_input: &mut Vec<WaitForInputType>)
        requires
            old(self).ready_for(player_id),
    ;

    fn uncover_adjacent(&mut self, player_id: usize, card_index: usize, wait_for_input: &mut Vec<WaitForInputType>)
        requires
            old(self).ready_for(player_id),
    ;

    fn double_adjacent(&mut self, player_id: usize, card_index: usize, wait_for_input: &mut Vec<WaitForInputType>)
        requires
            old(self).ready_for(player_id),
    ;

    fn trash_other(&mut self, player_id: usize, card_index: usize, wait_for_input: &mut Vec<WaitForInputType>)
        requires
            old(self).ready_for(player_id),
    ;

    fn one_vp_per_wild(&mut self, player_id: usize, card_index: usize, wait_for_input: &mut Vec<WaitForInputType>)
        requires
            old(self).ready_for(player_id),
    ;

    fn putback_or_discard_three(&mut self, player_id: usize, card_index: usize, wait_for_input: &mut Vec<WaitForInputType>)
        requires
            old(self).ready_for(player_id),
    ;
}

/// Whether every card laid out is a card of the table.
pub open spec fn arranged_in_table(arr: Seq<ArrangedView>) -> bool {
    forall|j: int| 0 <= j < arr.len() ==> (#[trigger] arr[j]).0 < NUM_CARDS
}

/// The number of laid-out adventure cards that are not wild.
pub open spec fn adv_count(arr: Seq<ArrangedView>) -> nat
    decreases arr.len(),
{
    if arr.len() == 0 {
        0
    } else {
        let a = arr.last();
        adv_count(arr.drop_last()) + if a.2 is None && cards::card_spec(a.0).genre == Genre::ADVENTURE { 1nat } else { 0nat }
    }
}

/// The number of laid-out cards played as wild cards.
pub open spec fn wild_count(arr: Seq<ArrangedView>) -> nat
    decreases arr.len(),
{
    if arr.len() == 0 {
        0
    } else {
        wild_count(arr.drop_last()) + if arr.last().2 is Some { 1nat } else { 0nat }
    }
}

pub proof fn lemma_counts_bounded(arr: Seq<ArrangedView>)
    ensures
        adv_count(arr) <= arr.len(),
        wild_count(arr) <= arr.len(),
    decreases arr.len(),
{
    if arr.len() > 0 {
        lemma_counts_bounded(arr.drop_last());
    }
}

/// The request sent to every player when a card makes the others lose ink.
pub open spec fn minus_ink_prompt(player_id: usize, card_index: usize) -> WaitView {
    (card_index, GameState::PreWaitForReply,
        "Player "@ + codec::decimal(player_id as nat) + " has played a card to force other players to lose a ink or ink remover."@,
        seq![(GameState::Spell, "lose a ink"@, ReplyEffect::LoseInk), (GameState::Spell, "lose a ink remover"@, ReplyEffect::LoseRemover)])
}

/// The request to lock up a card of the offer row.
pub open spec fn lockup_prompt(card_index: usize) -> WaitView {
    (card_index, GameState::PreWaitForReply, "Do you want to lock up any offer row card?"@,
        seq![(GameState::LockUp, "Yes"@, ReplyEffect::Nothing), (GameState::PreBuy, "No"@, ReplyEffect::Nothing)])
}

/// The request that follows an uncovering card, with or without wild neighbours.
pub open spec fn uncover_prompt(card_index: usize, found: bool, position: Option<usize>) -> WaitView {
    if found {
        (card_index, GameState::PreWaitForReply, "There are a few wild cards adjacent to this card, can be opened"@,
            seq![(GameState::ResolveAgain(position, card_index), "Continue"@, ReplyEffect::Nothing)])
    } else {
        (card_index, GameState::PreWaitForReply, "There are no adjacent wild cards that can be flipped over."@,
            seq![(GameState::PreBuy, "Continue"@, ReplyEffect::Nothing)])
    }
}

/// The effect that resolves the given neighbours once more.
pub open spec fn double_effect(player_id: usize, cards: Seq<usize>) -> ReplyEffect {
    ReplyEffect::DoubleAdjacent(player_id, cards[0], if cards.len() > 1 { Some(cards[1]) } else { None })
}

/// The request that follows a doubling card, with or without valid neighbours.
pub open spec fn double_prompt(player_id: usize, card_index: usize, cards: Seq<usize>) -> WaitView {
    if cards.len() > 0 {
        (card_index, GameState::PreWaitForReply, "There are a few valid cards adjacent to this card, can be doubled."@,
            seq![(GameState::PreBuy, "Continue"@, double_effect(player_id, cards))])
    } else {
        (card_index, GameState::PreWaitForReply, "There are no adjacent valid cards that you double their benefits."@,
            seq![(GameState::PreBuy, "Continue"@, ReplyEffect::Nothing)])
    }
}

/// The request to trash another card for one coin.
pub open spec fn trash_other_prompt(card_index: usize) -> WaitView {
    (card_index, GameState::PreWaitForReply, "Do you want to trash another card for one cent?"@,
        seq![(GameState::PreTrashOther(card_index), "Yes"@, ReplyEffect::Nothing), (GameState::PreBuy, "No"@, ReplyEffect::Nothing)])
}

/// The request that grants one victory point per wild card.
pub open spec fn wild_vp_prompt(card_index: usize, n: usize) -> WaitView {
    (card_index, GameState::PreWaitForReply, "You gain "@ + codec::decimal(n as nat) + " vp from this card."@,
        seq![(GameState::PreBuy, "Continue"@, ReplyEffect::GainVp(n))])
}

/// The request to draw three cards and keep or discard each.
pub open spec fn keep_or_discard_prompt(card_index: usize) -> WaitView {
    (card_index, GameState::PrePutBackDiscard(2, card_index),
        "You may draw three cards from the top of deck and choose to keep or discard each of them."@,
        seq![(GameState::PrePutBackDiscard(2, card_index), "Continue"@, ReplyEffect::Nothing)])
}

/// The queues with `w` pushed on queue `i`, when there is such a queue.
pub open spec fn push_on(qs: Seq<Seq<Option<WaitView>>>, i: int, w: WaitView) -> Seq<Seq<Option<WaitView>>> {
    if 0 <= i < qs.len() { qs.update(i, qs[i].push(Some(w))) } else { qs }
}

/// Pushes a request on queue `i`, if there is one.
fn push_request(qs: &mut Vec<WaitForInputType>, i: usize, w: WaitForSingleInput)
    ensures
        final(qs)@.len() == old(qs)@.len(),
        codec::queues_view(*final(qs)) == push_on(codec::queues_view(*old(qs)), i as int, w@),
{
    if i < qs.len() {
        let ghost before = codec::queues_view(*qs);
        qs[i].push(Some(w));
        proof {
            assert(codec::queue_view(qs@[i as int]) =~= before[i as int].push(Some(w@)));
            assert(codec::queues_view(*qs) =~= before.update(i as int, before[i as int].push(Some(w@))));
        }
    }
}

fn request(card_index: usize, wait_state: GameState, header: String, options: Vec<ReplyOption>) -> (w: WaitForSingleInput)
    ensures
        w@ == (card_index, wait_state, header@, options@.map_values(|o: ReplyOption| o@)),
{
    WaitForSingleInput { card_index, wait_state, header, options }
}

fn one_option(a: ReplyOption) -> (v: Vec<ReplyOption>)
    ensures
        v@.map_values(|o: ReplyOption| o@) == seq![a@],
{
    let v = vec![a];
    assert(v@.map_values(|o: ReplyOption| o@) =~= seq![a@]);
    v
}

fn two_options(a: ReplyOption, b: ReplyOption) -> (v: Vec<ReplyOption>)
    ensures
        v@.map_values(|o: ReplyOption| o@) == seq![a@, b@],
{
    let v = vec![a, b];
    assert(v@.map_values(|o: ReplyOption| o@) =~= seq![a@, b@]);
    v
}

fn minus_ink_request(player_id: usize, card_index: usize) -> (w: WaitForSingleInput)
    ensures
        w@ == minus_ink_prompt(player_id, card_index),
{
    let mut h = codec::owned("Player ");
    let n = codec::usize_to_string(player_id);
    h.append(n.as_str());
    h.append(" has played a card to force other players to lose a ink or ink remover.");
    request(card_index, GameState::PreWaitForReply, h,
        two_options(codec::reply_option(GameState::Spell, "lose a ink", ReplyEffect::LoseInk),
            codec::reply_option(GameState::Spell, "lose a ink remover", ReplyEffect::LoseRemover)))
}

/// The players with player `i` replaced by `p`.
pub open spec fn set_player(ps: Seq<PlayerView>, i: int, p: PlayerView) -> Seq<PlayerView> {
    ps.update(i, p)
}


/// The players and the queues of a board, as values.
pub type Scene = (Seq<PlayerView>, Seq<Seq<Option<WaitView>>>);

pub open spec fn scene_of(players: Vec<Player>, qs: Vec<WaitForInputType>) -> Scene {
    (codec::players_view(players), codec::queues_view(qs))
}

/// Two coins for each laid-out adventure card that is not wild.
pub open spec fn two_cent_scene(s: Scene, pid: usize) -> Scene {
    if pid < s.0.len() {
        let p = s.0[pid as int];
        (s.0.update(pid as int, PlayerView { coin: (p.coin + 2 * adv_count(p.arranged)) as usize, ..p }), s.1)
    } else {
        s
    }
}

/// Every other seated player with an ink or an ink remover gets the request
/// to give up one of them; the other queues stay as they were.
pub open spec fn minus_ink_scene(s: Scene, pid: usize, card: usize) -> Scene {
    (s.0, Seq::new(s.1.len(), |i: int| if loses_ink(s.0, pid, i) { s.1[i].push(Some(minus_ink_prompt(pid, card))) } else { s.1[i] }))
}

/// Whether seat `i` is asked to give up ink by the card of player `pid`: it is
/// another seated player, with an ink or an ink remover.
pub open spec fn loses_ink(ps: Seq<PlayerView>, pid: usize, i: int) -> bool {
    &&& i != pid
    &&& 0 <= i < ps.len()
    &&& (ps[i].ink > 0 || ps[i].remover > 0)
}

/// The player's queue gets the request to lock up an offered card.
pub open spec fn lockup_scene(s: Scene, pid: usize, card: usize) -> Scene {
    (s.0, push_on(s.1, pid as int, lockup_prompt(card)))
}

/// The wild letters next to the card come off, and the player is told whether there were any.
pub open spec fn uncover_scene(s: Scene, pid: usize, card: usize) -> Scene {
    if pid < s.0.len() && pid < s.1.len() {
        let p = s.0[pid as int];
        let position = first_position(p.arranged, card);
        let found = match position { Some(pc) => wild_beside(p.arranged, pc as int), None => false };
        let arranged = match position { Some(pc) => uncover_beside(p.arranged, pc as int), None => p.arranged };
        (s.0.update(pid as int, PlayerView { arranged, ..p }), push_on(s.1, pid as int, uncover_prompt(card, found, position)))
    } else {
        s
    }
}

/// The player is offered to resolve again the valid cards next to this one.
pub open spec fn double_scene(s: Scene, pid: usize, card: usize) -> Scene {
    if pid < s.0.len() && pid < s.1.len() {
        let p = s.0[pid as int];
        let beside = match first_position(p.arranged, card) {
            Some(pc) => valid_beside(p.arranged, pc as int),
            None => Seq::<usize>::empty(),
        };
        (s.0, push_on(s.1, pid as int, double_prompt(pid, card, beside)))
    } else {
        s
    }
}

/// The player's queue gets the request to trash another card.
pub open spec fn trash_other_scene(s: Scene, pid: usize, card: usize) -> Scene {
    if pid < s.0.len() { (s.0, push_on(s.1, pid as int, trash_other_prompt(card))) } else { s }
}

/// The player's queue gets the grant of one victory point per wild card.
pub open spec fn wild_vp_scene(s: Scene, pid: usize, card: usize) -> Scene {
    if pid < s.0.len() {
        (s.0, push_on(s.1, pid as int, wild_vp_prompt(card, wild_count(s.0[pid as int].arranged) as usize)))
    } else {
        s
    }
}

/// The player's queue gets the request to draw three cards and keep or discard them.
pub open spec fn keep_discard_scene(s: Scene, pid: usize, card: usize) -> Scene {
    if pid < s.0.len() { (s.0, push_on(s.1, pid as int, keep_or_discard_prompt(card))) } else { s }
}

/// What a card ability does to the players and the queues.
pub open spec fn effect_scene(s: Scene, e: CardEffect, pid: usize, card: usize) -> Scene {
    match e {
        CardEffect::TwoCentPerAdv => two_cent_scene(s, pid),
        CardEffect::MinusOtherInk => minus_ink_scene(s, pid, card),
        CardEffect::LockupOffer => lockup_scene(s, pid, card),
        CardEffect::UncoverAdjacent => uncover_scene(s, pid, card),
        CardEffect::DoubleAdjacent => double_scene(s, pid, card),
        CardEffect::TrashOther => trash_other_scene(s, pid, card),
        CardEffect::OneVpPerWild => wild_vp_scene(s, pid, card),
        CardEffect::KeepOrDiscardThree => keep_discard_scene(s, pid, card),
    }
}

/// Carries out a card ability on the board.
pub fn apply_card_effect(board: &mut BoardStruct, e: CardEffect, player_id: usize, card_index: usize, wait_for_input: &mut Vec<WaitForInputType>)
    requires
        old(board).ready_for(player_id),
    ensures
        final(board).offer_row@ == old(board).offer_row@,
        scene_of(final(board).players, *final(wait_for_input)) == effect_scene(scene_of(old(board).players, *old(wait_for_input)), e, player_id, card_index),
{
    match e {
        CardEffect::TwoCentPerAdv => board.two_cent_per_adv(player_id, card_index, wait_for_input),
        CardEffect::MinusOtherInk => board.minus_other_ink(player_id, card_index, wait_for_input),
        CardEffect::LockupOffer => board.lockup_offer(player_id, card_index, wait_for_input),
        CardEffect::UncoverAdjacent => board.uncover_adjacent(player_id, card_index, wait_for_input),
        CardEffect::DoubleAdjacent => board.double_adjacent(player_id, card_index, wait_for_input),
        CardEffect::TrashOther => board.trash_other(player_id, card_index, wait_for_input),
        CardEffect::OneVpPerWild => board.one_vp_per_wild(player_id, card_index, wait_for_input),
        CardEffect::KeepOrDiscardThree => board.putback_or_discard_three(player_id, card_index, wait_for_input),
    }
}

impl Board for BoardStruct {
    open spec fn ready_for(&self, player_id: usize) -> bool {
        player_id < self.players@.len() ==> {
            let p = self.players@[player_id as int]@;
            &&& arranged_in_table(p.arranged)
            &&& p.vp + p.arranged.len() <= usize::MAX
            &&& p.coin + 2 * p.arranged.len() <= usize::MAX
        }
    }

    /// Two coins for each laid-out adventure card that is not wild.
    fn two_cent_per_adv(&mut self, player_id: usize, _card_id: usize, _wait_for_input: &mut Vec<WaitForInputType>)
        ensures
            final(self).offer_row@ == old(self).offer_row@,
            scene_of(final(self).players, *final(_wait_for_input)) == two_cent_scene(scene_of(old(self).players, *old(_wait_for_input)), player_id),
    {
        if player_id < self.players.len() {
            let ghost before = codec::players_view(self.players);
            let ghost arr = self.players@[player_id as int]@.arranged;
            let mut count: usize = 0;
            let mut i: usize = 0;
            let n = self.players[player_id].arranged.len();
            proof { lemma_counts_bounded(arr); }
            while i < n
                invariant
                    player_id < self.players@.len(),
                    n == arr.len(),
                    arr == self.players@[player_id as int]@.arranged,
                    arranged_in_table(arr),
                    i <= n,
                    count == adv_count(arr.subrange(0, i as int)),
                    count <= i,
                decreases n - i,
            {
                let c = self.players[player_id].arranged[i].0;
                let wild = self.players[player_id].arranged[i].2.is_some();
                assert(arr.subrange(0, i + 1).drop_last() =~= arr.subrange(0, i as int));
                if !wild {
                    proof { assert(arr[i as int].0 < NUM_CARDS); }
                    let info = cards::card_info(c);
                    if info.genre == Genre::ADVENTURE {
                        count = count + 1;
                    }
                }
                i = i + 1;
            }
            assert(arr.subrange(0, n as int) =~= arr);
            self.players[player_id].coin += 2 * count;
            proof {
                assert(codec::players_view(self.players) =~= before.update(player_id as int,
                    PlayerView { coin: (before[player_id as int].coin + 2 * adv_count(arr)) as usize, ..before[player_id as int] }));
            }
        }
    }

    /// Every other seated player with an ink or an ink remover gets a request
    /// to give up one of them.
    fn minus_other_ink(&mut self, player_id: usize, card_id: usize, wait_for_input: &mut Vec<WaitForInputType>)
        ensures
            final(self).offer_row@ == old(self).offer_row@,
            scene_of(final(self).players, *final(wait_for_input)) == minus_ink_scene(scene_of(old(self).players, *old(wait_for_input)), player_id, card_id),
    {
        let ghost before = codec::queues_view(*wait_for_input);
        let ghost ps = codec::players_view(self.players);
        let mut i: usize = 0;
        while i < wait_for_input.len()
            invariant
                i <= wait_for_input@.len(),
                wait_for_input@.len() == before.len(),
                ps == codec::players_view(self.players),
                forall|j: int| 0 <= j < i ==>
                    #[trigger] codec::queues_view(*wait_for_input)[j] == if loses_ink(ps, player_id, j) { before[j].push(Some(minus_ink_prompt(player_id, card_id))) } else { before[j] },
                forall|j: int| i <= j < before.len() ==> #[trigger] codec::queues_view(*wait_for_input)[j] == before[j],
            decreases wait_for_input@.len() - i,
        {
            if i != player_id && i < self.players.len() && (self.players[i].ink > 0 || self.players[i].remover > 0) {
                let w = minus_ink_request(player_id, card_id);
                push_request(wait_for_input, i, w);
            }
            i = i + 1;
        }
        assert(codec::queues_view(*wait_for_input) =~= minus_ink_scene(scene_of(self.players, *old(wait_for_input)), player_id, card_id).1);
    }

    /// The player is asked whether to lock up a card of the offer row.
    fn lockup_offer(&mut self, player_id: usize, card_id: usize, wait_for_input: &mut Vec<WaitForInputType>)
        ensures
            final(self).offer_row@ == old(self).offer_row@,
            scene_of(final(self).players, *final(wait_for_input)) == lockup_scene(scene_of(old(self).players, *old(wait_for_input)), player_id, card_id),
    {
        let w = request(card_id, GameState::PreWaitForReply, codec::owned("Do you want to lock up any offer row card?"),
            two_options(codec::reply_option(GameState::LockUp, "Yes", ReplyEffect::Nothing),
                codec::reply_option(GameState::PreBuy, "No", ReplyEffect::Nothing)));
        push_request(wait_for_input, player_id, w);
    }

    /// The wild letters next to the card are taken off, and the player is told
    /// whether there were any.
    fn uncover_adjacent(&mut self, player_id: usize, card_id: usize, wait_for_input: &mut Vec<WaitForInputType>)
        ensures
            final(self).offer_row@ == old(self).offer_row@,
            scene_of(final(self).players, *final(wait_for_input)) == uncover_scene(scene_of(old(self).players, *old(wait_for_input)), player_id, card_id),
    {
        if player_id < self.players.len() && player_id < wait_for_input.len() {
            let ghost before = codec::players_view(self.players);
            let ghost p = self.players@[player_id as int]@;
            let index = arranged_position(&self.players[player_id].arranged, card_id);
            let found = there_is_wild_beside(&mut self.players[player_id], index);
            let w = if !found {
                request(card_id, GameState::PreWaitForReply, codec::owned("There are no adjacent wild cards that can be flipped over."),
                    one_option(codec::reply_option(GameState::PreBuy, "Continue", ReplyEffect::Nothing)))
            } else {
                request(card_id, GameState::PreWaitForReply, codec::owned("There are a few wild cards adjacent to this card, can be opened"),
                    one_option(codec::reply_option(GameState::ResolveAgain(index, card_id), "Continue", ReplyEffect::Nothing)))
            };
            push_request(wait_for_input, player_id, w);
            proof {
                assert(codec::players_view(self.players) =~= before.update(player_id as int, self.players@[player_id as int]@));
            }
        }
    }

    /// The player is offered to resolve once more the valid cards next to this one.
    fn double_adjacent(&mut self, player_id: usize, card_id: usize, wait_for_input: &mut Vec<WaitForInputType>)
        ensures
            final(self).offer_row@ == old(self).offer_row@,
            scene_of(final(self).players, *final(wait_for_input)) == double_scene(scene_of(old(self).players, *old(wait_for_input)), player_id, card_id),
    {
        if player_id < self.players.len() && player_id < wait_for_input.len() {
            let ghost before = codec::players_view(self.players);
            let ghost p = self.players@[player_id as int]@;
            let index = arranged_position(&self.players[player_id].arranged, card_id);
            let (there_is, cards_to_double) = there_is_valid_beside(&mut self.players[player_id], index);
            let w = if !there_is {
                request(card_id, GameState::PreWaitForReply, codec::owned("There are no adjacent valid cards that you double their benefits."),
                    one_option(codec::reply_option(GameState::PreBuy, "Continue", ReplyEffect::Nothing)))
            } else {
                let second = if cards_to_double.len() > 1 { Some(cards_to_double[1]) } else { None };
                request(card_id, GameState::PreWaitForReply, codec::owned("There are a few valid cards adjacent to this card, can be doubled."),
                    one_option(codec::reply_option(GameState::PreBuy, "Continue",
                        ReplyEffect::DoubleAdjacent(player_id, cards_to_double[0], second))))
            };
            push_request(wait_for_input, player_id, w);
            proof {
                assert(codec::players_view(self.players) =~= before);
            }
        }
    }

    /// The player is asked whether to trash another card for one coin.
    fn trash_other(&mut self, player_id: usize, card_id: usize, wait_for_input: &mut Vec<WaitForInputType>)
        ensures
            final(self).offer_row@ == old(self).offer_row@,
            scene_of(final(self).players, *final(wait_for_input)) == trash_other_scene(scene_of(old(self).players, *old(wait_for_input)), player_id, card_id),
    {
        if player_id < self.players.len() {
            let w = request(card_id, GameState::PreWaitForReply, codec::owned("Do you want to trash another card for one cent?"),
                two_options(codec::reply_option(GameState::PreTrashOther(card_id), "Yes", ReplyEffect::Nothing),
                    codec::reply_option(GameState::PreBuy, "No", ReplyEffect::Nothing)));
            push_request(wait_for_input, player_id, w);
        }
    }

    /// The player is told the victory points granted for the wild cards laid out.
    fn one_vp_per_wild(&mut self, player_id: usize, card_id: usize, wait_for_input: &mut Vec<WaitForInputType>)
        ensures
            final(self).offer_row@ == old(self).offer_row@,
            scene_of(final(self).players, *final(wait_for_input)) == wild_vp_scene(scene_of(old(self).players, *old(wait_for_input)), player_id, card_id),
    {
        if player_id < self.players.len() {
            let ghost arr = self.players@[player_id as int]@.arranged;
            let n = self.players[player_id].arranged.len();
            let mut num_wild: usize = 0;
            let mut i: usize = 0;
            while i < n
                invariant
                    player_id < self.players@.len(),
                    n == arr.len(),
                    arr == self.players@[player_id as int]@.arranged,
                    i <= n,
                    num_wild == wild_count(arr.subrange(0, i as int)),
                    num_wild <= i,
                decreases n - i,
            {
                assert(arr.subrange(0, i + 1).drop_last() =~= arr.subrange(0, i as int));
                if self.players[player_id].arranged[i].2.is_some() {
                    num_wild = num_wild + 1;
                }
                i = i + 1;
            }
            assert(arr.subrange(0, n as int) =~= arr);
            let mut h = codec::owned("You gain ");
            let k = codec::usize_to_string(num_wild);
            h.append(k.as_str());
            h.append(" vp from this card.");
            let w = request(card_id, GameState::PreWaitForReply, h,
                one_option(codec::reply_option(GameState::PreBuy, "Continue", ReplyEffect::GainVp(num_wild))));
            push_request(wait_for_input, player_id, w);
        }
    }

    /// The player is told to draw three cards and keep or discard each.
    fn putback_or_discard_three(&mut self, player_id: usize, card_id: usize, wait_for_input: &mut Vec<WaitForInputType>)
        ensures
            final(self).offer_row@ == old(self).offer_row@,
            scene_of(final(self).players, *final(wait_for_input)) == keep_discard_scene(scene_of(old(self).players, *old(wait_for_input)), player_id, card_id),
    {
        if player_id < self.players.len() {
            let w = request(card_id, GameState::PrePutBackDiscard(2, card_id),
                codec::owned("You may draw three cards from the top of deck and choose to keep or discard each of them."),
                one_option(codec::reply_option(GameState::PrePutBackDiscard(2, card_id), "Continue", ReplyEffect::Nothing)));
            push_request(wait_for_input, player_id, w);
        }
    }
}

/// Whether `i` is the first position of `card` in the layout.
pub open spec fn is_first_position(arr: Seq<ArrangedView>, card: usize, i: usize) -> bool {
    i < arr.len() && arr[i as int].0 == card && forall|j: int| 0 <= j < i ==> arr[j].0 != card
}

/// The first position of `card` in the layout, if it is there.
pub open spec fn first_position(arr: Seq<ArrangedView>, card: usize) -> Option<usize> {
    if exists|i: usize| is_first_position(arr, card, i) {
        Some(choose|i: usize| is_first_position(arr, card, i))
    } else {
        None
    }
}

/// The first position in the layout of the given card.
pub fn arranged_position(arr: &Vec<Arranged>, card: usize) -> (r: Option<usize>)
    ensures
        r == first_position(arr@.map_values(|a: Arranged| codec::arranged_view(a)), card),
        match r {
            Some(i) => i < arr@.len() && arr@[i as int].0 == card && forall|j: int| 0 <= j < i ==> arr@[j].0 != card,
            None => forall|j: int| 0 <= j < arr@.len() ==> arr@[j].0 != card,
        },
{
    let ghost v = arr@.map_values(|a: Arranged| codec::arranged_view(a));
    assert(forall|j: int| 0 <= j < arr@.len() ==> #[trigger] v[j] == codec::arranged_view(arr@[j]));
    let mut i: usize = 0;
    while i < arr.len()
        invariant
            i <= arr@.len(),
            v == arr@.map_values(|a: Arranged| codec::arranged_view(a)),
            forall|j: int| 0 <= j < i ==> arr@[j].0 != card,
        decreases arr@.len() - i,
    {
        if arr[i].0 == card {
            proof {
                assert(forall|j: int| 0 <= j < arr@.len() ==> #[trigger] v[j] == codec::arranged_view(arr@[j]));
                assert(is_first_position(v, card, i));
                let k = choose|k: usize| is_first_position(v, card, k);
                if k < i { assert(v[k as int].0 == card); } else if k > i { assert(v[i as int].0 == card); }
            }
            return Some(i);
        }
        i = i + 1;
    }
    proof {
        assert(forall|j: int| 0 <= j < arr@.len() ==> #[trigger] v[j] == codec::arranged_view(arr@[j]));
        if exists|k: usize| is_first_position(v, card, k) {
            let k = choose|k: usize| is_first_position(v, card, k);
            assert(arr@[k as int].0 == card);
        }
    }
    None
}

/// The laid-out cards played as wild cards.
pub open spec fn wild_cards(arr: Seq<ArrangedView>) -> Seq<ArrangedView> {
    arr.filter(|a: ArrangedView| a.2 is Some)
}

/// The laid-out adventure cards that are not played as wild cards.
pub open spec fn plain_adventure_cards(arr: Seq<ArrangedView>) -> Seq<ArrangedView> {
    arr.filter(|a: ArrangedView| a.2 is None && cards::card_spec(a.0).genre == Genre::ADVENTURE)
}

proof fn lemma_wild_count_is_wild_cards(arr: Seq<ArrangedView>)
    ensures
        wild_count(arr) == wild_cards(arr).len(),
    decreases arr.len(),
{
    reveal(Seq::filter);
    if arr.len() > 0 {
        lemma_wild_count_is_wild_cards(arr.drop_last());
    }
}

proof fn lemma_adv_count_is_adventure_cards(arr: Seq<ArrangedView>)
    ensures
        adv_count(arr) == plain_adventure_cards(arr).len(),
    decreases arr.len(),
{
    reveal(Seq::filter);
    if arr.len() > 0 {
        lemma_adv_count_is_adventure_cards(arr.drop_last());
    }
}

/// One victory point per wild card: the ability puts on the player's queue
/// one request, which grants as many victory points as the player's layout
/// has cards played as wild cards (entries with a wild letter), and names
/// that number; no player and no other queue changes.
pub proof fn lemma_one_vp_per_wild_card(s: Scene, pid: usize, card: usize)
    requires
        pid < s.0.len(),
        pid < s.1.len(),
        s.0[pid as int].arranged.len() <= usize::MAX,
    ensures
        ({
            let t = wild_vp_scene(s, pid, card);
            let n = wild_cards(s.0[pid as int].arranged).len();
            &&& t.0 == s.0
            &&& t.1.len() == s.1.len()
            &&& forall|i: int| 0 <= i < s.1.len() && i != pid ==> t.1[i] == s.1[i]
            &&& t.1[pid as int].drop_last() == s.1[pid as int]
            &&& t.1[pid as int].len() == s.1[pid as int].len() + 1
            &&& t.1[pid as int].last() matches Some(w)
                && w.0 == card
                && w.2 == "You gain "@ + codec::decimal(n) + " vp from this card."@
                && w.3.len() == 1
                && w.3[0].2 == ReplyEffect::GainVp(n as usize)
        }),
{
    let arr = s.0[pid as int].arranged;
    lemma_wild_count_is_wild_cards(arr);
    lemma_counts_bounded(arr);
    let t = wild_vp_scene(s, pid, card);
    assert(t.1[pid as int].drop_last() =~= s.1[pid as int]);
}

/// Two coins per adventure card: the player's coins rise by twice the number
/// of laid-out adventure cards not played as wild cards; nothing else changes.
pub proof fn lemma_two_coins_per_adventure_card(s: Scene, pid: usize)
    requires
        pid < s.0.len(),
        s.0[pid as int].coin + 2 * s.0[pid as int].arranged.len() <= usize::MAX,
    ensures
        ({
            let t = two_cent_scene(s, pid);
            let p = s.0[pid as int];
            &&& t.1 == s.1
            &&& t.0.len() == s.0.len()
            &&& forall|i: int| 0 <= i < s.0.len() && i != pid ==> t.0[i] == s.0[i]
            &&& t.0[pid as int].coin == p.coin + 2 * plain_adventure_cards(p.arranged).len()
            &&& t.0[pid as int] == PlayerView { coin: t.0[pid as int].coin, ..p }
        }),
{
    let arr = s.0[pid as int].arranged;
    lemma_adv_count_is_adventure_cards(arr);
    lemma_counts_bounded(arr);
}

/// Making the others lose ink: every other seated player with an ink or an
/// ink remover gets one request, naming the player who played the card, to
/// give up an ink or an ink remover; the player who played it, the players
/// with neither, and the queues beyond the players get nothing; no player
/// changes.
pub proof fn lemma_minus_ink_asks_the_others(s: Scene, pid: usize, card: usize)
    ensures
        ({
            let t = minus_ink_scene(s, pid, card);
            &&& t.0 == s.0
            &&& t.1.len() == s.1.len()
            &&& forall|i: int| #![trigger t.1[i]] 0 <= i < s.1.len() ==> if i != pid && i < s.0.len() && (s.0[i].ink > 0 || s.0[i].remover > 0) {
                &&& t.1[i].len() == s.1[i].len() + 1
                &&& t.1[i].drop_last() == s.1[i]
                &&& t.1[i].last() matches Some(w) && w.0 == card
                    && w.3.len() == 2 && w.3[0].2 == ReplyEffect::LoseInk && w.3[1].2 == ReplyEffect::LoseRemover
            } else {
                t.1[i] == s.1[i]
            }
        }),
{
    let t = minus_ink_scene(s, pid, card);
    assert forall|i: int| 0 <= i < s.1.len() && i != pid && i < s.0.len() && (s.0[i].ink > 0 || s.0[i].remover > 0)
        implies #[trigger] t.1[i].drop_last() == s.1[i] by {
        assert(t.1[i].drop_last() =~= s.1[i]);
    }
}

/// The offer row is the first seven remaining cards, or all of them when
/// there are fewer.
pub proof fn lemma_offer_row_is_the_first_seven(rm: Seq<usize>)
    ensures
        offer_row_of(rm).len() == if rm.len() < 7 { rm.len() } else { 7 },
        forall|j: int| 0 <= j < offer_row_of(rm).len() ==> #[trigger] offer_row_of(rm)[j] == rm[j],
{
}

/// Uncovering the cards next to position `pc` takes the wild letter off the
/// cards just before and just after it, and changes nothing else of the
/// layout.
pub proof fn lemma_uncover_clears_the_neighbours(arr: Seq<ArrangedView>, pc: int)
    requires
        0 <= pc < arr.len(),
    ensures
        uncover_beside(arr, pc).len() == arr.len(),
        forall|j: int| 0 <= j < arr.len() ==> #[trigger] uncover_beside(arr, pc)[j]
            == if j == pc - 1 || j == pc + 1 { (arr[j].0, arr[j].1, None::<Seq<char>>, arr[j].3) } else { arr[j] },
        wild_beside(arr, pc) == exists|j: int| 0 <= j < arr.len() && (j == pc - 1 || j == pc + 1) && (#[trigger] arr[j]).2 is Some,
{
    if wild_beside(arr, pc) {
        let j = choose|j: int| is_adjacent(arr.len() as int, pc, j) && (#[trigger] arr[j]).2 is Some;
        assert(0 <= j < arr.len() && (j == pc - 1 || j == pc + 1) && arr[j].2 is Some);
    }
    if exists|j: int| 0 <= j < arr.len() && (j == pc - 1 || j == pc + 1) && (#[trigger] arr[j]).2 is Some {
        let j = choose|j: int| 0 <= j < arr.len() && (j == pc - 1 || j == pc + 1) && (#[trigger] arr[j]).2 is Some;
        assert(is_adjacent(arr.len() as int, pc, j));
    }
}

/// The cards next to position `pc` that are resolved again are those just
/// before and just after it that are not played as wild cards, the one
/// before first.
pub proof fn lemma_valid_beside_are_the_plain_neighbours(arr: Seq<ArrangedView>, pc: int)
    requires
        0 <= pc < arr.len(),
    ensures
        valid_beside(arr, pc)
            == (if pc >= 1 && arr[pc - 1].2 is None { seq![arr[pc - 1].0] } else { Seq::<usize>::empty() })
             + (if pc + 1 < arr.len() && arr[pc + 1].2 is None { seq![arr[pc + 1].0] } else { Seq::<usize>::empty() }),
{
    let a = if pc >= 1 && arr[pc - 1].2 is None { seq![arr[pc - 1].0] } else { Seq::<usize>::empty() };
    let b = if pc + 1 < arr.len() && arr[pc + 1].2 is None { seq![arr[pc + 1].0] } else { Seq::<usize>::empty() };
    if pc == 0 {
        assert(valid_beside(arr, pc) =~= a + b);
    } else if pc == arr.len() - 1 {
        assert(valid_beside(arr, pc) =~= a + b);
    } else {
        assert(valid_beside(arr, pc) =~= a + b);
    }
}

} // verus!
