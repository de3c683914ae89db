use vstd::prelude::*;
use crate::cards::{self, card_spec, GIVEABLE, Genre, ListCard, NUM_CARDS};
use crate::codec::{self, Player, PlayerView};
use crate::random;

verus! {

broadcast use vstd::seq_lib::group_to_multiset_ensures;

/// How a game is dealt and run: the starting cards of each player, the deck,
/// the tick counter, whether the draft is shown, and whether formed words are
/// announced.
pub trait TheDraft {
    /// Whether a player can still be dealt a starting hand once the cards in
    /// `owned` are taken.
    spec fn start_ok(&self, owned: Seq<usize>) -> bool;

    /// Tests `start_ok`.
    fn can_start(&self, cardmeta: &Vec<ListCard>, owned_deck: &Vec<usize>) -> (b: bool)
        requires
            cards::is_card_table(cardmeta@),
        ensures
            b == self.start_ok(owned_deck@),
    ;

    /// What dealing the starting cards does: the player `p0` with the
    /// unknown cards `u0`, when the cards `o0` are owned, becomes `p1` with the
    /// unknown cards `u1`, and the owned cards become `o1`.
    spec fn dealt(&self, p0: PlayerView, u0: Seq<usize>, o0: Seq<usize>, p1: PlayerView, u1: Seq<usize>, o1: Seq<usize>) -> bool;

    /// Deals the starting cards of a player, and records them as owned.
    fn player_starting(&self, p: &mut Player, unknown: &mut Vec<usize>, cardmeta: &Vec<ListCard>, owned_deck: &mut Vec<usize>)
        requires
            cards::is_card_table(cardmeta@),
            self.start_ok(old(owned_deck)@),
        ensures
            self.dealt(old(p)@, old(unknown)@, old(owned_deck)@, final(p)@, final(unknown)@, final(owned_deck)@),
    ;

    /// The deck dealt after the cards in `owned`, top card last.
    spec fn deck_of(&self, owned: Seq<usize>) -> Seq<usize>;

    /// The deck the game is bought from, top card last.
    fn deck_starting(&self, cardmeta: &Vec<ListCard>, owned_deck: &Vec<usize>) -> (deck: Vec<usize>)
        requires
            cards::is_card_table(cardmeta@),
        ensures
            deck@ == self.deck_of(owned_deck@),
    ;

    /// The first tick, as `ticks` gives it.
    spec fn ticks_of(&self) -> Option<u16>;

    /// The first tick of the game, if ticks are counted.
    fn ticks(&self) -> (t: Option<u16>)
        ensures
            t == self.ticks_of(),
    ;

    /// The options of showing the draft, as `show_draft` gives them.
    spec fn show_of(&self) -> (bool, bool);

    /// Whether the draft is shown before the first turn, and whether it is
    /// then shuffled by the fixed seed.
    fn show_draft(&self) -> (r: (bool, bool))
        ensures
            r == self.show_of(),
    ;

    /// Whether notices are pushed, as `push_notification` gives it.
    spec fn push_of(&self) -> bool;

    /// Whether every formed word is announced to all players.
    fn push_notification(&self) -> (b: bool)
        ensures
            b == self.push_of(),
    ;
}

/// The ids of the first `n` cards of the table that are not in `owned`, in table order.
pub open spec fn unowned(owned: Seq<usize>, n: nat) -> Seq<usize>
    decreases n,
{
    if n == 0 {
        Seq::empty()
    } else {
        let prev = unowned(owned, (n - 1) as nat);
        if owned.contains((n - 1) as usize) { prev } else { prev.push((n - 1) as usize) }
    }
}

/// The deck dealt after the cards in `owned`: the reserved cards first, then
/// every other card not owned, from the end of the table to its start.
pub open spec fn deck_after(reserved: Seq<usize>, owned: Seq<usize>) -> Seq<usize> {
    reserved + unowned(owned + reserved, NUM_CARDS as nat).reverse()
}

/// The deck dealt after the cards in `owned`, as `deck_after` states it.
pub fn deck_with(reserved: Vec<usize>, cardmeta: &Vec<ListCard>, owned_deck: &Vec<usize>) -> (deck: Vec<usize>)
    requires
        cards::is_card_table(cardmeta@),
    ensures
        deck@ == deck_after(reserved@, owned_deck@),
{
    let mut taken = codec::copy_ids(owned_deck);
    let mut i: usize = 0;
    while i < reserved.len()
        invariant
            i <= reserved@.len(),
            taken@ == owned_deck@ + reserved@.subrange(0, i as int),
        decreases reserved@.len() - i,
    {
        taken.push(reserved[i]);
        i = i + 1;
        assert(taken@ =~= owned_deck@ + reserved@.subrange(0, i as int));
    }
    assert(reserved@.subrange(0, reserved@.len() as int) =~= reserved@);
    let ghost all = owned_deck@ + reserved@;
    let mut deck = reserved;
    let ghost r = deck@;
    let mut k: usize = cardmeta.len();
    while k > 0
        invariant
            k <= NUM_CARDS,
            cards::is_card_table(cardmeta@),
            taken@ == all,
            deck@ == r + unowned(all, NUM_CARDS as nat).reverse().subrange(0, unowned(all, NUM_CARDS as nat).len() - unowned(all, k as nat).len()),
        decreases k,
    {
        k = k - 1;
        proof {
            cards::lemma_ids_are_positions(k);
            lemma_unowned_prefix(all, k as nat, NUM_CARDS as nat);
            lemma_unowned_prefix(all, (k + 1) as nat, NUM_CARDS as nat);
        }
        let id = cardmeta[k].id;
        if !codec::contains_id(&taken, id) {
            deck.push(id);
        }
        proof {
            let u = unowned(all, NUM_CARDS as nat);
            let uk = unowned(all, k as nat);
            let uk1 = unowned(all, (k + 1) as nat);
            assert(uk1 == if all.contains(k) { uk } else { uk.push(k) });
            if !all.contains(k) {
                assert(uk1.len() >= 1);
                assert(u.reverse()[u.len() - uk1.len()] == u[uk1.len() - 1]);
                assert(u[uk1.len() - 1] == uk1[uk1.len() - 1]);
                assert(u.reverse().subrange(0, u.len() - uk.len()) =~= u.reverse().subrange(0, u.len() - uk1.len()).push(k));
            }
        }
    }
    assert(unowned(all, NUM_CARDS as nat).reverse().subrange(0, unowned(all, NUM_CARDS as nat).len() as int)
        =~= unowned(all, NUM_CARDS as nat).reverse());
    deck
}

proof fn lemma_unowned_prefix(owned: Seq<usize>, k: nat, n: nat)
    requires
        k <= n,
    ensures
        unowned(owned, k).len() <= unowned(owned, n).len(),
        forall|j: int| 0 <= j < unowned(owned, k).len() ==> unowned(owned, n)[j] == #[trigger] unowned(owned, k)[j],
    decreases n - k,
{
    if k < n {
        lemma_unowned_prefix(owned, k, (n - 1) as nat);
    }
}

/// What a walk over the cards `rem` collects for a starting hand: the letters
/// met so far, one coin starter card for each letter not met before, and all
/// victory-point starter cards.
pub open spec fn starter_picks(rem: Seq<usize>) -> (Seq<Seq<char>>, Seq<usize>, Seq<usize>)
    decreases rem.len(),
{
    if rem.len() == 0 {
        (Seq::empty(), Seq::empty(), Seq::empty())
    } else {
        let prev = starter_picks(rem.drop_last());
        let id = rem.last();
        let c = card_spec(id);
        if c.genre == Genre::NONE && c.giveables is COIN {
            if prev.0.contains(c.letter@) { prev } else { (prev.0.push(c.letter@), prev.1.push(id), prev.2) }
        } else if c.genre == Genre::NONE && c.giveables is VP {
            (prev.0, prev.1, prev.2.push(id))
        } else {
            prev
        }
    }
}

/// The coin starter cards and victory-point starter cards on offer once the cards in `owned` are taken.
pub open spec fn starters(owned: Seq<usize>) -> (Seq<Seq<char>>, Seq<usize>, Seq<usize>) {
    starter_picks(unowned(owned, NUM_CARDS as nat))
}

/// A starting hand can be dealt: at least three letters remain among the coin
/// starters and at least three victory-point starters remain.
pub open spec fn starters_enough(owned: Seq<usize>) -> bool {
    starters(owned).1.len() >= 3 && starters(owned).2.len() >= 3
}

/// The two victory-point cards drawn from `vs`: a random one but the last,
/// then a random one but the last of those left.
pub open spec fn drawn_from(vs: Seq<usize>, picks: Seq<usize>) -> bool {
    exists|c1: int, c2: int| #![trigger vs.remove(c1)[c2]] 0 <= c1 < vs.len() - 1 && 0 <= c2 < vs.len() - 2
        && picks == seq![vs[c1], vs.remove(c1)[c2]]
}

fn contains_text(v: &Vec<String>, s: &String) -> (b: bool)
    ensures
        b == v@.map_values(|x: String| x@).contains(s@),
{
    let ghost m = v@.map_values(|x: String| x@);
    let mut i: usize = 0;
    while i < v.len()
        invariant
            i <= v@.len(),
            m == v@.map_values(|x: String| x@),
            forall|j: int| 0 <= j < i ==> m[j] != s@,
        decreases v@.len() - i,
    {
        if v[i] == *s {
            assert(m[i as int] == s@);
            return true;
        }
        i = i + 1;
    }
    false
}

/// Takes out of `rand_id` a random card but its last, and gives it as owned.
fn pick_one(rand_id: &mut Vec<usize>, picks: &mut Vec<usize>, owned_deck: &mut Vec<usize>)
    requires
        old(rand_id)@.len() >= 2,
    ensures
        exists|c: int| 0 <= c < old(rand_id)@.len() - 1
            && final(rand_id)@ == #[trigger] old(rand_id)@.remove(c)
            && final(picks)@ == old(picks)@.push(old(rand_id)@[c])
            && final(owned_deck)@ == old(owned_deck)@.push(old(rand_id)@[c]),
{
    let c = random::random_in_range(0, rand_id.len() - 1);
    let idz = rand_id[c];
    picks.push(idz);
    rand_id.remove(c);
    owned_deck.push(idz);
    assert(rand_id@ == old(rand_id)@.remove(c as int));
}

/// Draws the starting cards of the game itself.
pub struct TheStartingDraftStruct {}

impl TheDraft for TheStartingDraftStruct {
    open spec fn start_ok(&self, owned: Seq<usize>) -> bool {
        starters_enough(owned)
    }

    fn can_start(&self, cardmeta: &Vec<ListCard>, owned_deck: &Vec<usize>) -> (b: bool) {
        let (_letters, coins, vps) = collect_starters(cardmeta, owned_deck);
        coins.len() >= 3 && vps.len() >= 3
    }

    open spec fn dealt(&self, p0: PlayerView, u0: Seq<usize>, o0: Seq<usize>, p1: PlayerView, u1: Seq<usize>, o1: Seq<usize>) -> bool {
        &&& ({
            let coins = starters(o0).1;
            let vps = starters(o0).2;
            let k = (o0.len() + coins.len()) as int;
            let picks = o1.subrange(k, k + 2);
            &&& o1 == o0 + coins + picks + p1.hand + p1.draft
            &&& drawn_from(vps, picks)
            &&& p1.hand.len() == 5
            &&& p1.draft.len() == coins.len() - 3
            &&& (p1.hand + p1.draft).to_multiset() == (coins + picks).to_multiset()
            &&& p1 == (PlayerView { hand: p1.hand, draft: p1.draft, ..p0 })
        })
        &&& u1 == u0
    }
    /// One coin starter card of each letter still on offer and two random
    /// victory-point starter cards are shuffled together; the first five
    /// become the hand and the others the draft. All are recorded as owned:
    /// the coin cards and the two picks as they are taken, and then the hand
    /// and the draft.
    fn player_starting(&self, p: &mut Player, unknown: &mut Vec<usize>, cardmeta: &Vec<ListCard>, owned_deck: &mut Vec<usize>)
        ensures
            ({
                let coins = starters(old(owned_deck)@).1;
                let vps = starters(old(owned_deck)@).2;
                let k = (old(owned_deck)@.len() + coins.len()) as int;
                let picks = final(owned_deck)@.subrange(k, k + 2);
                &&& final(owned_deck)@ == old(owned_deck)@ + coins + picks + final(p)@.hand + final(p)@.draft
                &&& drawn_from(vps, picks)
                &&& final(p)@.hand.len() == 5
                &&& final(p)@.draft.len() == coins.len() - 3
                &&& (final(p)@.hand + final(p)@.draft).to_multiset() == (coins + picks).to_multiset()
                &&& final(p)@ == (PlayerView { hand: final(p)@.hand, draft: final(p)@.draft, ..old(p)@ })
            }),
            final(unknown)@ == old(unknown)@,
    {
        let ghost owned0 = owned_deck@;
        let (_letters, mut collected_id, mut rand_id) = collect_starters(cardmeta, owned_deck);
        let ghost coins = collected_id@;
        let ghost vps = rand_id@;
        let mut i: usize = 0;
        while i < collected_id.len()
            invariant
                i <= collected_id@.len(),
                owned_deck@ == owned0 + collected_id@.subrange(0, i as int),
            decreases collected_id@.len() - i,
        {
            owned_deck.push(collected_id[i]);
            i = i + 1;
            assert(owned_deck@ =~= owned0 + collected_id@.subrange(0, i as int));
        }
        assert(collected_id@.subrange(0, collected_id@.len() as int) =~= collected_id@);
        let ghost owned1 = owned_deck@;
        let mut picks: Vec<usize> = Vec::new();
        pick_one(&mut rand_id, &mut picks, owned_deck);
        let ghost r1 = rand_id@;
        let ghost p1 = picks@;
        let ghost o1 = owned_deck@;
        pick_one(&mut rand_id, &mut picks, owned_deck);
        let ghost pk = picks@;
        proof {
            let c1 = choose|c: int| 0 <= c < vps.len() - 1
                && r1 == #[trigger] vps.remove(c)
                && p1 == Seq::<usize>::empty().push(vps[c])
                && o1 == owned1.push(vps[c]);
            let c2 = choose|c: int| 0 <= c < r1.len() - 1
                && rand_id@ == #[trigger] r1.remove(c)
                && pk == p1.push(r1[c])
                && owned_deck@ == o1.push(r1[c]);
            assert(pk =~= seq![vps[c1], vps.remove(c1)[c2]]);
            assert(drawn_from(vps, pk));
            assert(owned_deck@ =~= owned1 + pk);
        }
        collected_id.append(&mut picks);
        random::shuffle_random(&mut collected_id);
        let ghost sh = collected_id@;
        let vecdraft = collected_id.split_off(5);
        p.hand = collected_id;
        p.draft = vecdraft;
        assert(sh =~= p.hand@ + p.draft@);
        let ghost owned2 = owned_deck@;
        let mut h = codec::copy_ids(&p.hand);
        owned_deck.append(&mut h);
        let mut d = codec::copy_ids(&p.draft);
        owned_deck.append(&mut d);
        proof {
            assert(owned_deck@ =~= owned0 + coins + pk + p@.hand + p@.draft);
            assert(owned_deck@.subrange((owned0.len() + coins.len()) as int, (owned0.len() + coins.len() + 2) as int) =~= pk);
        }
    }

    /// Every card not owned, from the end of the table to its start.
    open spec fn deck_of(&self, owned: Seq<usize>) -> Seq<usize> {
        deck_after(Seq::empty(), owned)
    }

    fn deck_starting(&self, cardmeta: &Vec<ListCard>, owned_deck: &Vec<usize>) -> (deck: Vec<usize>)
        ensures
            deck@ == deck_after(Seq::empty(), owned_deck@),
    {
        deck_with(Vec::new(), cardmeta, owned_deck)
    }

    /// Ticks are counted from zero.
    open spec fn ticks_of(&self) -> Option<u16> {
        Some(0u16)
    }

    fn ticks(&self) -> (t: Option<u16>)
        ensures
            t == Some(0u16),
    {
        Some(0)
    }

    /// The draft is shown and shuffled at random.
    open spec fn show_of(&self) -> (bool, bool) {
        (true, false)
    }

    fn show_draft(&self) -> (r: (bool, bool))
        ensures
            r == (true, false),
    {
        (true, false)
    }

    /// Formed words are announced.
    open spec fn push_of(&self) -> bool {
        true
    }

    fn push_notification(&self) -> (b: bool)
        ensures
            b,
    {
        true
    }
}

/// Walks the cards not in `owned_deck` as `starters` describes it.
pub fn collect_starters(cardmeta: &Vec<ListCard>, owned_deck: &Vec<usize>) -> (r: (Vec<String>, Vec<usize>, Vec<usize>))
    requires
        cards::is_card_table(cardmeta@),
    ensures
        r.0@.map_values(|x: String| x@) == starters(owned_deck@).0,
        r.1@ == starters(owned_deck@).1,
        r.2@ == starters(owned_deck@).2,
{
    let mut remaining_deck: Vec<usize> = Vec::new();
    let mut i: usize = 0;
    while i < cardmeta.len()
        invariant
            i <= cardmeta@.len(),
            cards::is_card_table(cardmeta@),
            remaining_deck@ == unowned(owned_deck@, i as nat),
            forall|j: int| 0 <= j < remaining_deck@.len() ==> remaining_deck@[j] < i,
        decreases cardmeta@.len() - i,
    {
        proof {
            cards::lemma_ids_are_positions(i);
        }
        let id = cardmeta[i].id;
        if !codec::contains_id(owned_deck, id) {
            remaining_deck.push(id);
        }
        i = i + 1;
    }
    let mut letters: Vec<String> = Vec::new();
    let mut coins: Vec<usize> = Vec::new();
    let mut vps: Vec<usize> = Vec::new();
    let mut j: usize = 0;
    while j < remaining_deck.len()
        invariant
            j <= remaining_deck@.len(),
            cards::is_card_table(cardmeta@),
            remaining_deck@ == unowned(owned_deck@, NUM_CARDS as nat),
            forall|k: int| 0 <= k < remaining_deck@.len() ==> remaining_deck@[k] < NUM_CARDS,
            (letters@.map_values(|x: String| x@), coins@, vps@) == starter_picks(remaining_deck@.subrange(0, j as int)),
        decreases remaining_deck@.len() - j,
    {
        let r = remaining_deck[j];
        let ghost pre = remaining_deck@.subrange(0, j as int);
        assert(remaining_deck@.subrange(0, j + 1).drop_last() =~= pre);
        let c = cardmeta[r];
        assert(c == card_spec(r));
        if c.genre == Genre::NONE {
            match c.giveables {
                GIVEABLE::COIN(_) => {
                    let letc = codec::owned(c.letter);
                    if !contains_text(&letters, &letc) {
                        letters.push(letc);
                        coins.push(r);
                        assert(letters@.map_values(|x: String| x@) =~= starter_picks(pre).0.push(c.letter@));
                    }
                },
                GIVEABLE::VP(_) => {
                    vps.push(r);
                },
                _ => {},
            }
        }
        j = j + 1;
    }
    assert(remaining_deck@.subrange(0, remaining_deck@.len() as int) =~= remaining_deck@);
    (letters, coins, vps)
}


proof fn lemma_unowned_members(owned: Seq<usize>, n: nat, c: usize)
    ensures
        unowned(owned, n).contains(c) <==> (c < n && !owned.contains(c)),
    decreases n,
{
    if n > 0 {
        lemma_unowned_members(owned, (n - 1) as nat, c);
        let prev = unowned(owned, (n - 1) as nat);
        if !owned.contains((n - 1) as usize) {
            assert(prev.push((n - 1) as usize).contains(c) <==> (prev.contains(c) || c == n - 1)) by {
                if prev.push((n - 1) as usize).contains(c) {
                    let k = choose|k: int| 0 <= k < prev.len() + 1 && #[trigger] prev.push((n - 1) as usize)[k] == c;
                    if k < prev.len() {
                        assert(prev[k] == c);
                    }
                }
                if prev.contains(c) {
                    let k = choose|k: int| 0 <= k < prev.len() && #[trigger] prev[k] == c;
                    assert(prev.push((n - 1) as usize)[k] == c);
                }
                if c == n - 1 {
                    assert(prev.push((n - 1) as usize)[prev.len() as int] == c);
                }
            }
        }
    }
}

/// The deck holds the reserved cards and every other card of the table not
/// yet dealt, and no card that was dealt unless it is reserved.
pub proof fn lemma_deck_holds_the_rest(reserved: Seq<usize>, owned: Seq<usize>, c: usize)
    requires
        c < NUM_CARDS,
    ensures
        deck_after(reserved, owned).contains(c) <==> (reserved.contains(c) || !owned.contains(c)),
{
    let u = unowned(owned + reserved, NUM_CARDS as nat);
    lemma_unowned_members(owned + reserved, NUM_CARDS as nat, c);
    assert(u.reverse().contains(c) <==> u.contains(c)) by {
        if u.contains(c) {
            let k = choose|k: int| 0 <= k < u.len() && #[trigger] u[k] == c;
            assert(u.reverse()[u.len() - 1 - k] == c);
        }
        if u.reverse().contains(c) {
            let k = choose|k: int| 0 <= k < u.reverse().len() && #[trigger] u.reverse()[k] == c;
            assert(u[u.len() - 1 - k] == c);
        }
    }
    assert((owned + reserved).contains(c) <==> (owned.contains(c) || reserved.contains(c))) by {
        if (owned + reserved).contains(c) {
            let k = choose|k: int| 0 <= k < (owned + reserved).len() && #[trigger] (owned + reserved)[k] == c;
            if k < owned.len() {
                assert(owned[k] == c);
            } else {
                assert(reserved[k - owned.len()] == c);
            }
        }
        if owned.contains(c) {
            let k = choose|k: int| 0 <= k < owned.len() && #[trigger] owned[k] == c;
            assert((owned + reserved)[k] == c);
        }
        if reserved.contains(c) {
            let k = choose|k: int| 0 <= k < reserved.len() && #[trigger] reserved[k] == c;
            assert((owned + reserved)[owned.len() + k] == c);
        }
    }
    let d = deck_after(reserved, owned);
    assert(d.contains(c) <==> (reserved.contains(c) || u.reverse().contains(c))) by {
        if d.contains(c) {
            let k = choose|k: int| 0 <= k < d.len() && #[trigger] d[k] == c;
            if k < reserved.len() {
                assert(reserved[k] == c);
            } else {
                assert(u.reverse()[k - reserved.len()] == c);
            }
        }
        if reserved.contains(c) {
            let k = choose|k: int| 0 <= k < reserved.len() && #[trigger] reserved[k] == c;
            assert(d[k] == c);
        }
        if u.reverse().contains(c) {
            let k = choose|k: int| 0 <= k < u.reverse().len() && #[trigger] u.reverse()[k] == c;
            assert(d[reserved.len() + k] == c);
        }
    }
}

} // verus!
