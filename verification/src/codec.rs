use vstd::prelude::*;
use vstd::string::StringExecFns;

verus! {

/// A table of the lobby as the clients see it.
#[allow(non_snake_case)]
#[derive(Debug, Clone)]
pub struct TableInfo {
    pub numberOfPlayers: usize,
    pub players: Vec<String>,
}

impl TableInfo {
    /// A table with the given player names and seat count.
    pub fn new(players: Vec<String>, number_of_player: usize) -> (t: TableInfo)
        ensures
            t.numberOfPlayers == number_of_player,
            t.players@ == players@,
    {
        TableInfo { numberOfPlayers: number_of_player, players }
    }
}

/// Information that only one player may see (none yet).
#[derive(Debug, Clone)]
pub struct PrivateInformation {}

/// The phase a player is in. The `Pre` variants mark a phase that the next
/// tick of the engine turns into the phase without the prefix.
#[derive(Clone, Copy, Debug, PartialEq, Eq, Structural)]
pub enum GameState {
    ShowDraft,
    Shuffle,
    Spell,
    PreSpell,
    TurnToSubmit,
    PreTurnToSubmit,
    Buy,
    PreBuy,
    DrawCard,
    PreDrawCard,
    LockUp,
    WaitForReply,
    PreWaitForReply,
    TrashOther(usize),
    PreTrashOther(usize),
    PutBackDiscard(usize, usize),
    PrePutBackDiscard(usize, usize),
    ResolveAgain(Option<usize>, usize),
    ShowResult(usize),
}

/// A card laid out to form a word: the card, whether it is inked, the letter
/// it stands for when played as a wild card, and whether it is a timeless
/// classic.
pub type Arranged = (usize, bool, Option<String>, bool);

/// The mathematical value of an `Arranged` entry.
pub type ArrangedView = (usize, bool, Option<Seq<char>>, bool);

pub open spec fn arranged_view(a: Arranged) -> ArrangedView {
    (a.0, a.1, match a.2 { Some(s) => Some(s@), None => None }, a.3)
}

/// The state of one player.
#[derive(Debug, Clone)]
pub struct Player {
    pub name: String,
    pub vp: usize,
    pub coin: usize,
    pub ink: usize,
    pub remover: usize,
    pub literacy_award: usize,
    pub hand: Vec<usize>,
    pub draft: Vec<usize>,
    pub draftlen: usize,
    pub discard: Vec<usize>,
    pub lockup: Vec<usize>,
    pub timeless_classic: Vec<usize>,
    pub arranged: Vec<Arranged>,
    pub skip_cards: Vec<usize>,
}

/// The mathematical value of a `Player`.
#[verifier::ext_equal]
pub struct PlayerView {
    pub name: Seq<char>,
    pub vp: usize,
    pub coin: usize,
    pub ink: usize,
    pub remover: usize,
    pub literacy_award: usize,
    pub hand: Seq<usize>,
    pub draft: Seq<usize>,
    pub draftlen: usize,
    pub discard: Seq<usize>,
    pub lockup: Seq<usize>,
    pub timeless_classic: Seq<usize>,
    pub arranged: Seq<ArrangedView>,
    pub skip_cards: Seq<usize>,
}

impl View for Player {
    type V = PlayerView;

    open spec fn view(&self) -> PlayerView {
        PlayerView {
            name: self.name@,
            vp: self.vp,
            coin: self.coin,
            ink: self.ink,
            remover: self.remover,
            literacy_award: self.literacy_award,
            hand: self.hand@,
            draft: self.draft@,
            draftlen: self.draftlen,
            discard: self.discard@,
            lockup: self.lockup@,
            timeless_classic: self.timeless_classic@,
            arranged: self.arranged@.map_values(|a: Arranged| arranged_view(a)),
            skip_cards: self.skip_cards@,
        }
    }
}

/// A copy of a vector of card ids.
pub fn copy_ids(v: &Vec<usize>) -> (r: Vec<usize>)
    ensures
        r@ == v@,
{
    let mut r: Vec<usize> = Vec::new();
    let mut i: usize = 0;
    while i < v.len()
        invariant
            i <= v@.len(),
            r@ == v@.subrange(0, i as int),
        decreases v@.len() - i,
    {
        r.push(v[i]);
        i = i + 1;
    }
    r
}

/// A copy of an optional string.
pub fn copy_opt_string(s: &Option<String>) -> (r: Option<String>)
    ensures
        match (r, *s) {
            (Some(a), Some(b)) => a@ == b@,
            (None, None) => true,
            _ => false,
        },
{
    match s {
        Some(x) => Some(x.clone()),
        None => None,
    }
}

/// A copy of an arranged entry.
pub fn copy_arranged_entry(a: &Arranged) -> (r: Arranged)
    ensures
        arranged_view(r) == arranged_view(*a),
{
    (a.0, a.1, copy_opt_string(&a.2), a.3)
}

/// A copy of a sequence of arranged entries.
pub fn copy_arranged(v: &Vec<Arranged>) -> (r: Vec<Arranged>)
    ensures
        r@.map_values(|a: Arranged| arranged_view(a)) == v@.map_values(|a: Arranged| arranged_view(a)),
{
    let mut r: Vec<Arranged> = Vec::new();
    let mut i: usize = 0;
    while i < v.len()
        invariant
            i <= v@.len(),
            r@.len() == i,
            forall|j: int| 0 <= j < i ==> arranged_view(#[trigger] r@[j]) == arranged_view(v@[j]),
        decreases v@.len() - i,
    {
        r.push(copy_arranged_entry(&v[i]));
        i = i + 1;
    }
    assert(r@.map_values(|a: Arranged| arranged_view(a)) =~= v@.map_values(|a: Arranged| arranged_view(a)));
    r
}

/// A player with the given name and nothing else.
pub open spec fn new_player(name: Seq<char>) -> PlayerView {
    PlayerView {
        name,
        vp: 0,
        coin: 0,
        ink: 0,
        remover: 0,
        literacy_award: 0,
        hand: Seq::empty(),
        draft: Seq::empty(),
        draftlen: 0,
        discard: Seq::empty(),
        lockup: Seq::empty(),
        timeless_classic: Seq::empty(),
        arranged: Seq::empty(),
        skip_cards: Seq::empty(),
    }
}

impl Player {
    /// A player with the given name and nothing else.
    pub fn new(name: String) -> (p: Player)
        ensures
            p@ == new_player(name@),
    {
        let p = Player {
            name,
            vp: 0,
            coin: 0,
            ink: 0,
            remover: 0,
            literacy_award: 0,
            hand: Vec::new(),
            draft: Vec::new(),
            draftlen: 0,
            discard: Vec::new(),
            lockup: Vec::new(),
            timeless_classic: Vec::new(),
            arranged: Vec::new(),
            skip_cards: Vec::new(),
        };
        assert(p@.arranged =~= Seq::<ArrangedView>::empty());
        p
    }

    /// A copy of the player.
    pub fn duplicate(&self) -> (p: Player)
        ensures
            p@ == self@,
    {
        Player {
            name: self.name.clone(),
            vp: self.vp,
            coin: self.coin,
            ink: self.ink,
            remover: self.remover,
            literacy_award: self.literacy_award,
            hand: copy_ids(&self.hand),
            draft: copy_ids(&self.draft),
            draftlen: self.draftlen,
            discard: copy_ids(&self.discard),
            lockup: copy_ids(&self.lockup),
            timeless_classic: copy_ids(&self.timeless_classic),
            arranged: copy_arranged(&self.arranged),
            skip_cards: copy_ids(&self.skip_cards),
        }
    }
}


/// What happens to the replying player when an option of a request is chosen.
#[derive(Clone, Copy, Debug, PartialEq, Eq, Structural)]
pub enum ReplyEffect {
    /// Nothing changes.
    Nothing,
    /// One ink is given up.
    LoseInk,
    /// One ink remover is given up.
    LoseRemover,
    /// One ink is gained.
    GainInk,
    /// One ink remover is gained.
    GainRemover,
    /// The given victory points are gained.
    GainVp(usize),
    /// The given coins are gained.
    GainCoin(usize),
    /// The card leaves the hand for the given victory points.
    TrashForVp(usize, usize),
    /// The card leaves the hand for the given coins.
    TrashForCoin(usize, usize),
    /// The entry at the given position of the remaining cards goes to the discard pile.
    TakeRemaining(usize),
    /// A locked-up card is bought with the coins and three ink for each missing coin:
    /// its cost, the card, and its position among the locked-up cards.
    BuyLockupWithInk(usize, usize, usize),
    /// An ink remover is spent to clear the ink of the given arranged card.
    RemoveInk(usize),
    /// The first unknown card is laid out inked, for one ink.
    TakeUnknownCard,
    /// The benefits of the given adjacent cards are resolved once more for the given player.
    DoubleAdjacent(usize, usize, Option<usize>),
}

/// One option of a request: the phase that follows, its label, and its effect.
#[derive(Debug, Clone)]
pub struct ReplyOption {
    pub next_state: GameState,
    pub label: String,
    pub effect: ReplyEffect,
}

pub type ReplyOptionView = (GameState, Seq<char>, ReplyEffect);

impl View for ReplyOption {
    type V = ReplyOptionView;

    open spec fn view(&self) -> ReplyOptionView {
        (self.next_state, self.label@, self.effect)
    }
}

/// A request to a player: the card that caused it, the phase to show while it
/// waits, its text, and the options offered.
#[derive(Debug, Clone)]
pub struct WaitForSingleInput {
    pub card_index: usize,
    pub wait_state: GameState,
    pub header: String,
    pub options: Vec<ReplyOption>,
}

pub type WaitView = (usize, GameState, Seq<char>, Seq<ReplyOptionView>);

impl View for WaitForSingleInput {
    type V = WaitView;

    open spec fn view(&self) -> WaitView {
        (self.card_index, self.wait_state, self.header@, self.options@.map_values(|o: ReplyOption| o@))
    }
}

/// The queue of one player: a request to answer, or `None`, a mark that the
/// board is to be sent to everyone.
pub type WaitForInputType = Vec<Option<WaitForSingleInput>>;

pub open spec fn entry_view(e: Option<WaitForSingleInput>) -> Option<WaitView> {
    match e {
        Some(w) => Some(w@),
        None => None,
    }
}

pub open spec fn queue_view(q: WaitForInputType) -> Seq<Option<WaitView>> {
    q@.map_values(|e: Option<WaitForSingleInput>| entry_view(e))
}

pub open spec fn queues_view(qs: Vec<WaitForInputType>) -> Seq<Seq<Option<WaitView>>> {
    qs@.map_values(|q: WaitForInputType| queue_view(q))
}

pub open spec fn players_view(ps: Vec<Player>) -> Seq<PlayerView> {
    ps@.map_values(|p: Player| p@)
}

/// An option with the given parts.
pub fn reply_option(next_state: GameState, label: &str, effect: ReplyEffect) -> (o: ReplyOption)
    ensures
        o@ == (next_state, label@, effect),
{
    ReplyOption { next_state, label: String::from_str(label), effect }
}

/// The text as an owned string.
pub fn owned(s: &str) -> (r: String)
    ensures
        r@ == s@,
{
    String::from_str(s)
}

/// The decimal digits of a number.
pub open spec fn decimal(n: nat) -> Seq<char>
    decreases n,
{
    if n < 10 {
        seq![digit_char(n)]
    } else {
        decimal(n / 10).push(digit_char(n % 10))
    }
}

pub open spec fn digit_char(d: nat) -> char {
    if d == 0 { '0' } else if d == 1 { '1' } else if d == 2 { '2' } else if d == 3 { '3' }
    else if d == 4 { '4' } else if d == 5 { '5' } else if d == 6 { '6' } else if d == 7 { '7' }
    else if d == 8 { '8' } else { '9' }
}

/// The digit `d` as a one-letter string.
fn digit_str(d: usize) -> (s: &'static str)
    requires
        d < 10,
    ensures
        s@ == seq![digit_char(d as nat)],
{
    proof {
        reveal_strlit("0");
        reveal_strlit("1");
        reveal_strlit("2");
        reveal_strlit("3");
        reveal_strlit("4");
        reveal_strlit("5");
        reveal_strlit("6");
        reveal_strlit("7");
        reveal_strlit("8");
        reveal_strlit("9");
    }
    if d == 0 { "0" } else if d == 1 { "1" } else if d == 2 { "2" } else if d == 3 { "3" }
    else if d == 4 { "4" } else if d == 5 { "5" } else if d == 6 { "6" } else if d == 7 { "7" }
    else if d == 8 { "8" } else { "9" }
}

/// The decimal digits of `n`, without sign or leading zeros.
pub(crate) fn usize_to_string(n: usize) -> (s: String)
    ensures
        s@ == decimal(n as nat),
    decreases n,
{
    if n < 10 {
        digit_str(n).to_owned()
    } else {
        let mut s = usize_to_string(n / 10);
        s.append(digit_str(n % 10));
        assert(s@ =~= decimal((n / 10) as nat).push(digit_char((n % 10) as nat)));
        s
    }
}

/// Whether `x` occurs in `v`.
pub fn contains_id(v: &Vec<usize>, x: usize) -> (b: bool)
    ensures
        b == v@.contains(x),
{
    let mut i: usize = 0;
    while i < v.len()
        invariant
            i <= v@.len(),
            forall|j: int| 0 <= j < i ==> v@[j] != x,
        decreases v@.len() - i,
    {
        if v[i] == x {
            return true;
        }
        i = i + 1;
    }
    false
}

/// The first position of `x` in `v`, if any.
pub fn position_of(v: &Vec<usize>, x: usize) -> (r: Option<usize>)
    ensures
        match r {
            Some(i) => i < v@.len() && v@[i as int] == x && forall|j: int| 0 <= j < i ==> v@[j] != x,
            None => !v@.contains(x),
        },
{
    let mut i: usize = 0;
    while i < v.len()
        invariant
            i <= v@.len(),
            forall|j: int| 0 <= j < i ==> v@[j] != x,
        decreases v@.len() - i,
    {
        if v[i] == x {
            return Some(i);
        }
        i = i + 1;
    }
    None
}

/// A player's own arrangement of hand and layout.
#[derive(Debug, Clone)]
pub struct Personal {
    pub hand: Vec<usize>,
    pub arranged: Vec<Arranged>,
}

/// The board as it is sent to the clients.
#[derive(Debug, Clone)]
pub struct BoardCodec {
    pub players: Vec<Player>,
    pub gamestates: Vec<GameState>,
    pub offer_row: Vec<usize>,
    pub turn_index: usize,
    pub ticks: Option<u16>,
}

/// A message for the connection of one player.
#[derive(Debug, Clone)]
pub enum Outgoing {
    /// The state of the board.
    Board { to: usize, board: BoardCodec },
    /// A refused command, with the reason.
    BoardError { to: usize, message: String },
    /// A request: the player asked, the card, the text, the option labels, the tick.
    Request { to: usize, player: usize, card: usize, header: String, options: Vec<String>, ticks: Option<u16> },
    /// A notification to show.
    Notification { to: usize, text: String },
    /// The player's new hand.
    Hand { to: usize, hand: Vec<usize> },
    /// Whose turn it is.
    TurnIndex { to: usize, index: usize },
    /// The player's own index.
    PlayerIndex { to: usize, index: usize },
}

/// The refusal with the given reason.
pub open spec fn is_board_error(m: Outgoing, to: usize, message: Seq<char>) -> bool {
    m matches Outgoing::BoardError { to: t, message: msg } && t == to && msg@ == message
}

/// The commands a client sends during a game.
#[derive(Debug, Clone)]
pub struct GameCommand {
    pub go_to_shuffle: Option<bool>,
    pub take_card_use_ink: Option<bool>,
    pub use_ink: Option<usize>,
    pub use_remover: Option<Vec<usize>>,
    pub arranged: Option<Vec<Arranged>>,
    pub personal: Option<Personal>,
    pub submit_word: Option<bool>,
    pub lockup: Option<(bool, usize)>,
    pub buy_offer: Option<(bool, usize)>,
    pub buy_lockup: Option<(bool, usize)>,
    pub trash_other: Option<(bool, usize)>,
    pub putback_discard: Option<bool>,
    pub reply: Option<usize>,
    pub killserver: Option<bool>,
}

impl GameCommand {
    /// A command that asks for nothing.
    pub fn new() -> (c: GameCommand)
        ensures
            c.go_to_shuffle is None,
            c.take_card_use_ink is None,
            c.use_ink is None,
            c.use_remover is None,
            c.arranged is None,
            c.personal is None,
            c.submit_word is None,
            c.lockup is None,
            c.buy_offer is None,
            c.buy_lockup is None,
            c.trash_other is None,
            c.putback_discard is None,
            c.reply is None,
            c.killserver is None,
    {
        GameCommand {
            go_to_shuffle: None,
            take_card_use_ink: None,
            use_ink: None,
            use_remover: None,
            arranged: None,
            personal: None,
            submit_word: None,
            lockup: None,
            buy_offer: None,
            buy_lockup: None,
            trash_other: None,
            putback_discard: None,
            reply: None,
            killserver: None,
        }
    }
}

} // verus!
