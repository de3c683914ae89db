use vstd::prelude::*;

verus! {

/// A letter card as the client sends it.
#[derive(Debug, Clone)]
pub struct Card {
    pub letter: String,
    pub index: usize,
    pub inked: bool,
}

impl Card {
    /// Marks the card as inked; nothing else changes.
    pub fn inked(&mut self)
        ensures
            final(self).inked,
            final(self).letter@ == old(self).letter@,
            final(self).index == old(self).index,
    {
        self.inked = true;
    }
}

/// What a card gives when it is played, bought, completes a genre, or is trashed.
#[derive(Clone, Copy, Debug, PartialEq, Eq, Structural, Hash)]
pub enum GIVEABLE {
    NONE,
    VP(usize),
    COIN(usize),
    VPCOIN(usize, usize),
    COININK(usize),
    VPINK(usize),
    VPORCOIN(usize),
    VPORCOININK(usize),
    INK,
}

/// The genre of a card; starter cards have none.
#[derive(Clone, Copy, Debug, PartialEq, Eq, Structural, Hash)]
pub enum Genre {
    MYSTERY,
    HORROR,
    ADVENTURE,
    ROMANCE,
    NONE,
}

/// The special abilities of cards, each carried out by a method of `Board`.
#[derive(Clone, Copy, Debug, PartialEq, Eq, Structural, Hash)]
pub enum CardEffect {
    TwoCentPerAdv,
    MinusOtherInk,
    LockupOffer,
    UncoverAdjacent,
    DoubleAdjacent,
    TrashOther,
    OneVpPerWild,
    KeepOrDiscardThree,
}

/// One entry of the card table.
///
/// `giveablefn` is the ability used whenever the card is played, `genrefn` the
/// one used when the card completes a genre.
#[derive(Clone, Copy, Debug)]
pub struct ListCard {
    pub id: usize,
    pub letter: &'static str,
    pub cost: usize,
    pub purchase_giveables: GIVEABLE,
    pub giveables: GIVEABLE,
    pub genre_giveables: GIVEABLE,
    pub trash: GIVEABLE,
    pub genre: Genre,
    pub rotated: bool,
    pub giveablefn: Option<CardEffect>,
    pub genrefn: Option<CardEffect>,
}

/// Number of cards in the game.
pub const NUM_CARDS: usize = 180;

/// The card table: the card whose id is `i`, for `0 <= i < 180`.
pub open spec fn card_spec(i: usize) -> ListCard {
    match i {
        0 => ListCard { id: 0, letter: "a", cost: 7, purchase_giveables: GIVEABLE::NONE, giveables: GIVEABLE::VP(3), genre_giveables: GIVEABLE::VP(2), trash: GIVEABLE::NONE, genre: Genre::ADVENTURE, rotated: false, giveablefn: None, genrefn: None },
        1 => ListCard { id: 1, letter: "b", cost: 4, purchase_giveables: GIVEABLE::VP(3), giveables: GIVEABLE::VP(2), genre_giveables: GIVEABLE::VP(2), trash: GIVEABLE::NONE, genre: Genre::ADVENTURE, rotated: false, giveablefn: None, genrefn: None },
        2 => ListCard { id: 2, letter: "c", cost: 3, purchase_giveables: GIVEABLE::VP(1), giveables: GIVEABLE::COIN(1), genre_giveables: GIVEABLE::COIN(1), trash: GIVEABLE::COIN(2), genre: Genre::ADVENTURE, rotated: false, giveablefn: None, genrefn: None },
        3 => ListCard { id: 3, letter: "d", cost: 4, purchase_giveables: GIVEABLE::VP(1), giveables: GIVEABLE::COIN(2), genre_giveables: GIVEABLE::VP(3), trash: GIVEABLE::NONE, genre: Genre::ADVENTURE, rotated: false, giveablefn: None, genrefn: None },
        4 => ListCard { id: 4, letter: "e", cost: 3, purchase_giveables: GIVEABLE::NONE, giveables: GIVEABLE::VP(1), genre_giveables: GIVEABLE::VP(1), trash: GIVEABLE::COIN(2), genre: Genre::ADVENTURE, rotated: false, giveablefn: None, genrefn: None },
        5 => ListCard { id: 5, letter: "f", cost: 8, purchase_giveables: GIVEABLE::VP(1), giveables: GIVEABLE::VP(5), genre_giveables: GIVEABLE::VP(2), trash: GIVEABLE::NONE, genre: Genre::ADVENTURE, rotated: false, giveablefn: None, genrefn: None },
        6 => ListCard { id: 6, letter: "g", cost: 6, purchase_giveables: GIVEABLE::NONE, giveables: GIVEABLE::VP(4), genre_giveables: GIVEABLE::COIN(1), trash: GIVEABLE::COIN(4), genre: Genre::ADVENTURE, rotated: false, giveablefn: None, genrefn: None },
        7 => ListCard { id: 7, letter: "h", cost: 3, purchase_giveables: GIVEABLE::VP(3), giveables: GIVEABLE::VP(1), genre_giveables: GIVEABLE::VP(1), trash: GIVEABLE::VP(1), genre: Genre::ADVENTURE, rotated: false, giveablefn: None, genrefn: None },
        8 => ListCard { id: 8, letter: "i", cost: 6, purchase_giveables: GIVEABLE::NONE, giveables: GIVEABLE::VP(3), genre_giveables: GIVEABLE::VP(1), trash: GIVEABLE::NONE, genre: Genre::ADVENTURE, rotated: false, giveablefn: None, genrefn: None },
        9 => ListCard { id: 9, letter: "j", cost: 5, purchase_giveables: GIVEABLE::NONE, giveables: GIVEABLE::VP(3), genre_giveables: GIVEABLE::VP(2), trash: GIVEABLE::VP(2), genre: Genre::ADVENTURE, rotated: false, giveablefn: None, genrefn: None },
        10 => ListCard { id: 10, letter: "k", cost: 9, purchase_giveables: GIVEABLE::VP(2), giveables: GIVEABLE::VP(5), genre_giveables: GIVEABLE::VP(3), trash: GIVEABLE::NONE, genre: Genre::ADVENTURE, rotated: false, giveablefn: None, genrefn: None },
        11 => ListCard { id: 11, letter: "l", cost: 4, purchase_giveables: GIVEABLE::VP(3), giveables: GIVEABLE::VP(2), genre_giveables: GIVEABLE::VP(1), trash: GIVEABLE::NONE, genre: Genre::ADVENTURE, rotated: false, giveablefn: None, genrefn: None },
        12 => ListCard { id: 12, letter: "m", cost: 6, purchase_giveables: GIVEABLE::VP(3), giveables: GIVEABLE::VP(3), genre_giveables: GIVEABLE::VP(2), trash: GIVEABLE::NONE, genre: Genre::ADVENTURE, rotated: false, giveablefn: None, genrefn: None },
        13 => ListCard { id: 13, letter: "n", cost: 4, purchase_giveables: GIVEABLE::VP(1), giveables: GIVEABLE::COIN(2), genre_giveables: GIVEABLE::VPCOIN(1,1), trash: GIVEABLE::NONE, genre: Genre::ADVENTURE, rotated: false, giveablefn: None, genrefn: None },
        14 => ListCard { id: 14, letter: "o", cost: 6, purchase_giveables: GIVEABLE::NONE, giveables: GIVEABLE::VP(2), genre_giveables: GIVEABLE::NONE, trash: GIVEABLE::NONE, genre: Genre::ADVENTURE, rotated: false, giveablefn: None, genrefn: Some(CardEffect::TwoCentPerAdv) },
        15 => ListCard { id: 15, letter: "p", cost: 4, purchase_giveables: GIVEABLE::VP(1), giveables: GIVEABLE::VP(2), genre_giveables: GIVEABLE::VP(2), trash: GIVEABLE::NONE, genre: Genre::ADVENTURE, rotated: false, giveablefn: None, genrefn: None },
        16 => ListCard { id: 16, letter: "q", cost: 7, purchase_giveables: GIVEABLE::NONE, giveables: GIVEABLE::VP(3), genre_giveables: GIVEABLE::VP(4), trash: GIVEABLE::VP(3), genre: Genre::ADVENTURE, rotated: false, giveablefn: None, genrefn: None },
        17 => ListCard { id: 17, letter: "r", cost: 3, purchase_giveables: GIVEABLE::VP(1), giveables: GIVEABLE::VP(1), genre_giveables: GIVEABLE::VP(2), trash: GIVEABLE::NONE, genre: Genre::ADVENTURE, rotated: false, giveablefn: None, genrefn: None },
        18 => ListCard { id: 18, letter: "s", cost: 5, purchase_giveables: GIVEABLE::VP(1), giveables: GIVEABLE::VP(2), genre_giveables: GIVEABLE::VP(1), trash: GIVEABLE::VP(2), genre: Genre::ADVENTURE, rotated: false, giveablefn: None, genrefn: None },
        19 => ListCard { id: 19, letter: "t", cost: 4, purchase_giveables: GIVEABLE::VP(2), giveables: GIVEABLE::VP(2), genre_giveables: GIVEABLE::VP(1), trash: GIVEABLE::NONE, genre: Genre::ADVENTURE, rotated: false, giveablefn: None, genrefn: None },
        20 => ListCard { id: 20, letter: "u", cost: 4, purchase_giveables: GIVEABLE::NONE, giveables: GIVEABLE::VP(1), genre_giveables: GIVEABLE::VP(3), trash: GIVEABLE::VP(2), genre: Genre::ADVENTURE, rotated: false, giveablefn: None, genrefn: None },
        21 => ListCard { id: 21, letter: "v", cost: 2, purchase_giveables: GIVEABLE::NONE, giveables: GIVEABLE::VP(1), genre_giveables: GIVEABLE::VP(2), trash: GIVEABLE::NONE, genre: Genre::ADVENTURE, rotated: false, giveablefn: None, genrefn: None },
        22 => ListCard { id: 22, letter: "w", cost: 3, purchase_giveables: GIVEABLE::NONE, giveables: GIVEABLE::VP(2), genre_giveables: GIVEABLE::VP(1), trash: GIVEABLE::COIN(2), genre: Genre::ADVENTURE, rotated: false, giveablefn: None, genrefn: None },
        23 => ListCard { id: 23, letter: "x", cost: 4, purchase_giveables: GIVEABLE::NONE, giveables: GIVEABLE::COIN(2), genre_giveables: GIVEABLE::COIN(2), trash: GIVEABLE::VP(2), genre: Genre::ADVENTURE, rotated: false, giveablefn: None, genrefn: None },
        24 => ListCard { id: 24, letter: "y", cost: 2, purchase_giveables: GIVEABLE::NONE, giveables: GIVEABLE::VP(1), genre_giveables: GIVEABLE::VP(1), trash: GIVEABLE::COIN(1), genre: Genre::ADVENTURE, rotated: false, giveablefn: None, genrefn: None },
        25 => ListCard { id: 25, letter: "z", cost: 5, purchase_giveables: GIVEABLE::VP(3), giveables: GIVEABLE::VP(4), genre_giveables: GIVEABLE::VP(1), trash: GIVEABLE::NONE, genre: Genre::ADVENTURE, rotated: false, giveablefn: None, genrefn: None },
        26 => ListCard { id: 26, letter: "a", cost: 5, purchase_giveables: GIVEABLE::VP(1), giveables: GIVEABLE::VP(2), genre_giveables: GIVEABLE::VP(1), trash: GIVEABLE::COIN(3), genre: Genre::ADVENTURE, rotated: false, giveablefn: None, genrefn: None },
        27 => ListCard { id: 27, letter: "c", cost: 5, purchase_giveables: GIVEABLE::NONE, giveables: GIVEABLE::VP(2), genre_giveables: GIVEABLE::VP(1), trash: GIVEABLE::NONE, genre: Genre::ADVENTURE, rotated: true, giveablefn: None, genrefn: None },
        28 => ListCard { id: 28, letter: "g", cost: 2, purchase_giveables: GIVEABLE::NONE, giveables: GIVEABLE::VP(1), genre_giveables: GIVEABLE::VP(2), trash: GIVEABLE::NONE, genre: Genre::ADVENTURE, rotated: false, giveablefn: None, genrefn: None },
        29 => ListCard { id: 29, letter: "i", cost: 3, purchase_giveables: GIVEABLE::NONE, giveables: GIVEABLE::VP(2), genre_giveables: GIVEABLE::NONE, trash: GIVEABLE::NONE, genre: Genre::ADVENTURE, rotated: false, giveablefn: None, genrefn: None },
        30 => ListCard { id: 30, letter: "j", cost: 3, purchase_giveables: GIVEABLE::NONE, giveables: GIVEABLE::VP(2), genre_giveables: GIVEABLE::VP(1), trash: GIVEABLE::COIN(2), genre: Genre::ADVENTURE, rotated: false, giveablefn: None, genrefn: None },
        31 => ListCard { id: 31, letter: "p", cost: 8, purchase_giveables: GIVEABLE::NONE, giveables: GIVEABLE::VP(2), genre_giveables: GIVEABLE::VP(2), trash: GIVEABLE::NONE, genre: Genre::ADVENTURE, rotated: true, giveablefn: None, genrefn: None },
        32 => ListCard { id: 32, letter: "l", cost: 2, purchase_giveables: GIVEABLE::VP(1), giveables: GIVEABLE::VP(1), genre_giveables: GIVEABLE::VP(1), trash: GIVEABLE::VP(1), genre: Genre::ADVENTURE, rotated: false, giveablefn: None, genrefn: None },
        33 => ListCard { id: 33, letter: "w", cost: 5, purchase_giveables: GIVEABLE::VP(2), giveables: GIVEABLE::VP(2), genre_giveables: GIVEABLE::NONE, trash: GIVEABLE::NONE, genre: Genre::ADVENTURE, rotated: true, giveablefn: None, genrefn: None },
        34 => ListCard { id: 34, letter: "y", cost: 4, purchase_giveables: GIVEABLE::VP(4), giveables: GIVEABLE::COIN(2), genre_giveables: GIVEABLE::VP(2), trash: GIVEABLE::COIN(2), genre: Genre::ADVENTURE, rotated: false, giveablefn: None, genrefn: None },
        35 => ListCard { id: 35, letter: "b", cost: 6, purchase_giveables: GIVEABLE::NONE, giveables: GIVEABLE::COIN(3), genre_giveables: GIVEABLE::COININK(2), trash: GIVEABLE::NONE, genre: Genre::HORROR, rotated: false, giveablefn: None, genrefn: None },
        36 => ListCard { id: 36, letter: "c", cost: 5, purchase_giveables: GIVEABLE::NONE, giveables: GIVEABLE::VPINK(2), genre_giveables: GIVEABLE::VP(1), trash: GIVEABLE::NONE, genre: Genre::HORROR, rotated: false, giveablefn: None, genrefn: None },
        37 => ListCard { id: 37, letter: "d", cost: 9, purchase_giveables: GIVEABLE::NONE, giveables: GIVEABLE::VPINK(3), genre_giveables: GIVEABLE::VP(3), trash: GIVEABLE::NONE, genre: Genre::HORROR, rotated: false, giveablefn: None, genrefn: None },
        38 => ListCard { id: 38, letter: "e", cost: 8, purchase_giveables: GIVEABLE::NONE, giveables: GIVEABLE::COININK(2), genre_giveables: GIVEABLE::VPORCOIN(2), trash: GIVEABLE::NONE, genre: Genre::HORROR, rotated: false, giveablefn: None, genrefn: None },
        39 => ListCard { id: 39, letter: "f", cost: 3, purchase_giveables: GIVEABLE::NONE, giveables: GIVEABLE::VP(2), genre_giveables: GIVEABLE::VPORCOININK(2), trash: GIVEABLE::NONE, genre: Genre::HORROR, rotated: false, giveablefn: None, genrefn: None },
        40 => ListCard { id: 40, letter: "g", cost: 4, purchase_giveables: GIVEABLE::NONE, giveables: GIVEABLE::VP(2), genre_giveables: GIVEABLE::VPINK(2), trash: GIVEABLE::NONE, genre: Genre::HORROR, rotated: false, giveablefn: None, genrefn: None },
        41 => ListCard { id: 41, letter: "h", cost: 7, purchase_giveables: GIVEABLE::NONE, giveables: GIVEABLE::VPCOIN(1,2), genre_giveables: GIVEABLE::VPCOIN(2,1), trash: GIVEABLE::NONE, genre: Genre::HORROR, rotated: false, giveablefn: None, genrefn: Some(CardEffect::MinusOtherInk) },
        42 => ListCard { id: 42, letter: "i", cost: 4, purchase_giveables: GIVEABLE::NONE, giveables: GIVEABLE::VP(2), genre_giveables: GIVEABLE::VPORCOIN(2), trash: GIVEABLE::NONE, genre: Genre::HORROR, rotated: false, giveablefn: None, genrefn: None },
        43 => ListCard { id: 43, letter: "j", cost: 5, purchase_giveables: GIVEABLE::NONE, giveables: GIVEABLE::VPINK(3), genre_giveables: GIVEABLE::VP(2), trash: GIVEABLE::NONE, genre: Genre::HORROR, rotated: false, giveablefn: None, genrefn: None },
        44 => ListCard { id: 44, letter: "k", cost: 2, purchase_giveables: GIVEABLE::NONE, giveables: GIVEABLE::VPORCOIN(1), genre_giveables: GIVEABLE::COIN(2), trash: GIVEABLE::NONE, genre: Genre::HORROR, rotated: false, giveablefn: None, genrefn: None },
        45 => ListCard { id: 45, letter: "l", cost: 3, purchase_giveables: GIVEABLE::NONE, giveables: GIVEABLE::VP(2), genre_giveables: GIVEABLE::INK, trash: GIVEABLE::NONE, genre: Genre::HORROR, rotated: false, giveablefn: None, genrefn: None },
        46 => ListCard { id: 46, letter: "m", cost: 3, purchase_giveables: GIVEABLE::NONE, giveables: GIVEABLE::VP(2), genre_giveables: GIVEABLE::VP(1), trash: GIVEABLE::NONE, genre: Genre::HORROR, rotated: false, giveablefn: None, genrefn: None },
        47 => ListCard { id: 47, letter: "n", cost: 5, purchase_giveables: GIVEABLE::NONE, giveables: GIVEABLE::VPINK(2), genre_giveables: GIVEABLE::COIN(1), trash: GIVEABLE::NONE, genre: Genre::HORROR, rotated: false, giveablefn: None, genrefn: None },
        48 => ListCard { id: 48, letter: "o", cost: 4, purchase_giveables: GIVEABLE::NONE, giveables: GIVEABLE::VPORCOIN(2), genre_giveables: GIVEABLE::VPORCOIN(1), trash: GIVEABLE::NONE, genre: Genre::HORROR, rotated: false, giveablefn: None, genrefn: None },
        49 => ListCard { id: 49, letter: "p", cost: 3, purchase_giveables: GIVEABLE::NONE, giveables: GIVEABLE::VPINK(2), genre_giveables: GIVEABLE::NONE, trash: GIVEABLE::NONE, genre: Genre::HORROR, rotated: false, giveablefn: None, genrefn: None },
        50 => ListCard { id: 50, letter: "q", cost: 4, purchase_giveables: GIVEABLE::NONE, giveables: GIVEABLE::COIN(3), genre_giveables: GIVEABLE::COININK(1), trash: GIVEABLE::NONE, genre: Genre::HORROR, rotated: false, giveablefn: None, genrefn: None },
        51 => ListCard { id: 51, letter: "r", cost: 4, purchase_giveables: GIVEABLE::NONE, giveables: GIVEABLE::VPORCOIN(1), genre_giveables: GIVEABLE::COININK(2), trash: GIVEABLE::NONE, genre: Genre::HORROR, rotated: false, giveablefn: None, genrefn: None },
        52 => ListCard { id: 52, letter: "s", cost: 2, purchase_giveables: GIVEABLE::NONE, giveables: GIVEABLE::VP(1), genre_giveables: GIVEABLE::VP(1), trash: GIVEABLE::NONE, genre: Genre::HORROR, rotated: false, giveablefn: None, genrefn: None },
        53 => ListCard { id: 53, letter: "t", cost: 4, purchase_giveables: GIVEABLE::NONE, giveables: GIVEABLE::VP(2), genre_giveables: GIVEABLE::VPINK(1), trash: GIVEABLE::NONE, genre: Genre::HORROR, rotated: false, giveablefn: None, genrefn: None },
        54 => ListCard { id: 54, letter: "u", cost: 2, purchase_giveables: GIVEABLE::NONE, giveables: GIVEABLE::VP(1), genre_giveables: GIVEABLE::VPORCOIN(2), trash: GIVEABLE::NONE, genre: Genre::HORROR, rotated: false, giveablefn: None, genrefn: None },
        55 => ListCard { id: 55, letter: "v", cost: 4, purchase_giveables: GIVEABLE::NONE, giveables: GIVEABLE::COIN(2), genre_giveables: GIVEABLE::VPINK(2), trash: GIVEABLE::NONE, genre: Genre::HORROR, rotated: false, giveablefn: None, genrefn: None },
        56 => ListCard { id: 56, letter: "w", cost: 4, purchase_giveables: GIVEABLE::NONE, giveables: GIVEABLE::VPINK(2), genre_giveables: GIVEABLE::VP(2), trash: GIVEABLE::NONE, genre: Genre::HORROR, rotated: false, giveablefn: None, genrefn: None },
        57 => ListCard { id: 57, letter: "x", cost: 6, purchase_giveables: GIVEABLE::NONE, giveables: GIVEABLE::VPINK(3), genre_giveables: GIVEABLE::VP(3), trash: GIVEABLE::NONE, genre: Genre::HORROR, rotated: false, giveablefn: None, genrefn: None },
        58 => ListCard { id: 58, letter: "y", cost: 3, purchase_giveables: GIVEABLE::NONE, giveables: GIVEABLE::COIN(2), genre_giveables: GIVEABLE::COININK(1), trash: GIVEABLE::NONE, genre: Genre::HORROR, rotated: false, giveablefn: None, genrefn: None },
        59 => ListCard { id: 59, letter: "z", cost: 3, purchase_giveables: GIVEABLE::NONE, giveables: GIVEABLE::VPORCOIN(2), genre_giveables: GIVEABLE::VPORCOININK(1), trash: GIVEABLE::NONE, genre: Genre::HORROR, rotated: false, giveablefn: None, genrefn: None },
        60 => ListCard { id: 60, letter: "v", cost: 5, purchase_giveables: GIVEABLE::NONE, giveables: GIVEABLE::COIN(1), genre_giveables: GIVEABLE::COININK(1), trash: GIVEABLE::NONE, genre: Genre::HORROR, rotated: true, giveablefn: None, genrefn: None },
        61 => ListCard { id: 61, letter: "x", cost: 2, purchase_giveables: GIVEABLE::NONE, giveables: GIVEABLE::VPORCOIN(2), genre_giveables: GIVEABLE::VP(1), trash: GIVEABLE::NONE, genre: Genre::HORROR, rotated: false, giveablefn: None, genrefn: None },
        62 => ListCard { id: 62, letter: "w", cost: 5, purchase_giveables: GIVEABLE::NONE, giveables: GIVEABLE::COININK(2), genre_giveables: GIVEABLE::COIN(3), trash: GIVEABLE::NONE, genre: Genre::HORROR, rotated: false, giveablefn: None, genrefn: None },
        63 => ListCard { id: 63, letter: "u", cost: 6, purchase_giveables: GIVEABLE::NONE, giveables: GIVEABLE::VP(4), genre_giveables: GIVEABLE::VP(1), trash: GIVEABLE::NONE, genre: Genre::HORROR, rotated: false, giveablefn: None, genrefn: None },
        64 => ListCard { id: 64, letter: "n", cost: 6, purchase_giveables: GIVEABLE::NONE, giveables: GIVEABLE::VPORCOIN(1), genre_giveables: GIVEABLE::VPINK(2), trash: GIVEABLE::NONE, genre: Genre::HORROR, rotated: true, giveablefn: None, genrefn: None },
        65 => ListCard { id: 65, letter: "s", cost: 7, purchase_giveables: GIVEABLE::NONE, giveables: GIVEABLE::VPINK(3), genre_giveables: GIVEABLE::VP(1), trash: GIVEABLE::NONE, genre: Genre::HORROR, rotated: false, giveablefn: None, genrefn: None },
        66 => ListCard { id: 66, letter: "c", cost: 8, purchase_giveables: GIVEABLE::NONE, giveables: GIVEABLE::COININK(2), genre_giveables: GIVEABLE::COIN(3), trash: GIVEABLE::NONE, genre: Genre::HORROR, rotated: false, giveablefn: None, genrefn: None },
        67 => ListCard { id: 67, letter: "e", cost: 5, purchase_giveables: GIVEABLE::NONE, giveables: GIVEABLE::VPORCOIN(2), genre_giveables: GIVEABLE::VP(1), trash: GIVEABLE::NONE, genre: Genre::HORROR, rotated: false, giveablefn: None, genrefn: None },
        68 => ListCard { id: 68, letter: "d", cost: 4, purchase_giveables: GIVEABLE::NONE, giveables: GIVEABLE::VPORCOIN(1), genre_giveables: GIVEABLE::VPCOIN(1,1), trash: GIVEABLE::NONE, genre: Genre::HORROR, rotated: false, giveablefn: None, genrefn: None },
        69 => ListCard { id: 69, letter: "a", cost: 3, purchase_giveables: GIVEABLE::NONE, giveables: GIVEABLE::VPORCOIN(2), genre_giveables: GIVEABLE::NONE, trash: GIVEABLE::NONE, genre: Genre::HORROR, rotated: false, giveablefn: None, genrefn: None },
        70 => ListCard { id: 70, letter: "b", cost: 4, purchase_giveables: GIVEABLE::NONE, giveables: GIVEABLE::COIN(2), genre_giveables: GIVEABLE::COIN(2), trash: GIVEABLE::NONE, genre: Genre::MYSTERY, rotated: false, giveablefn: Some(CardEffect::LockupOffer), genrefn: None },
        71 => ListCard { id: 71, letter: "c", cost: 5, purchase_giveables: GIVEABLE::NONE, giveables: GIVEABLE::VP(2), genre_giveables: GIVEABLE::NONE, trash: GIVEABLE::NONE, genre: Genre::MYSTERY, rotated: false, giveablefn: Some(CardEffect::UncoverAdjacent), genrefn: Some(CardEffect::LockupOffer) },
        72 => ListCard { id: 72, letter: "d", cost: 4, purchase_giveables: GIVEABLE::NONE, giveables: GIVEABLE::VP(1), genre_giveables: GIVEABLE::VP(2), trash: GIVEABLE::NONE, genre: Genre::MYSTERY, rotated: false, giveablefn: Some(CardEffect::UncoverAdjacent), genrefn: None },
        73 => ListCard { id: 73, letter: "e", cost: 4, purchase_giveables: GIVEABLE::NONE, giveables: GIVEABLE::COIN(2), genre_giveables: GIVEABLE::NONE, trash: GIVEABLE::NONE, genre: Genre::MYSTERY, rotated: false, giveablefn: None, genrefn: Some(CardEffect::UncoverAdjacent) },
        74 => ListCard { id: 74, letter: "f", cost: 2, purchase_giveables: GIVEABLE::NONE, giveables: GIVEABLE::VP(1), genre_giveables: GIVEABLE::VP(1), trash: GIVEABLE::NONE, genre: Genre::MYSTERY, rotated: false, giveablefn: Some(CardEffect::LockupOffer), genrefn: None },
        75 => ListCard { id: 75, letter: "g", cost: 6, purchase_giveables: GIVEABLE::NONE, giveables: GIVEABLE::VP(3), genre_giveables: GIVEABLE::VP(2), trash: GIVEABLE::NONE, genre: Genre::MYSTERY, rotated: false, giveablefn: None, genrefn: Some(CardEffect::UncoverAdjacent) },
        76 => ListCard { id: 76, letter: "h", cost: 3, purchase_giveables: GIVEABLE::NONE, giveables: GIVEABLE::VP(1), genre_giveables: GIVEABLE::VP(1), trash: GIVEABLE::NONE, genre: Genre::MYSTERY, rotated: false, giveablefn: Some(CardEffect::LockupOffer), genrefn: None },
        77 => ListCard { id: 77, letter: "i", cost: 5, purchase_giveables: GIVEABLE::NONE, giveables: GIVEABLE::COIN(2), genre_giveables: GIVEABLE::NONE, trash: GIVEABLE::NONE, genre: Genre::MYSTERY, rotated: false, giveablefn: Some(CardEffect::UncoverAdjacent), genrefn: None },
        78 => ListCard { id: 78, letter: "j", cost: 8, purchase_giveables: GIVEABLE::NONE, giveables: GIVEABLE::VP(5), genre_giveables: GIVEABLE::VP(2), trash: GIVEABLE::NONE, genre: Genre::MYSTERY, rotated: false, giveablefn: Some(CardEffect::UncoverAdjacent), genrefn: None },
        79 => ListCard { id: 79, letter: "k", cost: 2, purchase_giveables: GIVEABLE::NONE, giveables: GIVEABLE::VP(1), genre_giveables: GIVEABLE::VP(1), trash: GIVEABLE::NONE, genre: Genre::MYSTERY, rotated: false, giveablefn: None, genrefn: Some(CardEffect::UncoverAdjacent) },
        80 => ListCard { id: 80, letter: "l", cost: 6, purchase_giveables: GIVEABLE::NONE, giveables: GIVEABLE::COIN(2), genre_giveables: GIVEABLE::COIN(2), trash: GIVEABLE::NONE, genre: Genre::MYSTERY, rotated: false, giveablefn: None, genrefn: Some(CardEffect::UncoverAdjacent) },
        81 => ListCard { id: 81, letter: "m", cost: 3, purchase_giveables: GIVEABLE::NONE, giveables: GIVEABLE::COIN(1), genre_giveables: GIVEABLE::COIN(1), trash: GIVEABLE::NONE, genre: Genre::MYSTERY, rotated: false, giveablefn: Some(CardEffect::UncoverAdjacent), genrefn: None },
        82 => ListCard { id: 82, letter: "n", cost: 7, purchase_giveables: GIVEABLE::NONE, giveables: GIVEABLE::VP(3), genre_giveables: GIVEABLE::VP(1), trash: GIVEABLE::NONE, genre: Genre::MYSTERY, rotated: false, giveablefn: None, genrefn: Some(CardEffect::OneVpPerWild) },
        83 => ListCard { id: 83, letter: "o", cost: 3, purchase_giveables: GIVEABLE::NONE, giveables: GIVEABLE::VP(1), genre_giveables: GIVEABLE::NONE, trash: GIVEABLE::NONE, genre: Genre::MYSTERY, rotated: false, giveablefn: Some(CardEffect::LockupOffer), genrefn: Some(CardEffect::UncoverAdjacent) },
        84 => ListCard { id: 84, letter: "p", cost: 4, purchase_giveables: GIVEABLE::NONE, giveables: GIVEABLE::COIN(1), genre_giveables: GIVEABLE::COIN(2), trash: GIVEABLE::NONE, genre: Genre::MYSTERY, rotated: false, giveablefn: Some(CardEffect::UncoverAdjacent), genrefn: None },
        85 => ListCard { id: 85, letter: "q", cost: 3, purchase_giveables: GIVEABLE::NONE, giveables: GIVEABLE::VP(2), genre_giveables: GIVEABLE::VP(2), trash: GIVEABLE::NONE, genre: Genre::MYSTERY, rotated: false, giveablefn: None, genrefn: Some(CardEffect::UncoverAdjacent) },
        86 => ListCard { id: 86, letter: "r", cost: 4, purchase_giveables: GIVEABLE::NONE, giveables: GIVEABLE::COIN(1), genre_giveables: GIVEABLE::COIN(2), trash: GIVEABLE::NONE, genre: Genre::MYSTERY, rotated: false, giveablefn: None, genrefn: Some(CardEffect::UncoverAdjacent) },
        87 => ListCard { id: 87, letter: "s", cost: 4, purchase_giveables: GIVEABLE::NONE, giveables: GIVEABLE::COIN(1), genre_giveables: GIVEABLE::COIN(2), trash: GIVEABLE::NONE, genre: Genre::MYSTERY, rotated: false, giveablefn: Some(CardEffect::LockupOffer), genrefn: None },
        88 => ListCard { id: 88, letter: "t", cost: 6, purchase_giveables: GIVEABLE::NONE, giveables: GIVEABLE::VP(2), genre_giveables: GIVEABLE::VP(2), trash: GIVEABLE::NONE, genre: Genre::MYSTERY, rotated: false, giveablefn: Some(CardEffect::UncoverAdjacent), genrefn: None },
        89 => ListCard { id: 89, letter: "u", cost: 2, purchase_giveables: GIVEABLE::NONE, giveables: GIVEABLE::COIN(1), genre_giveables: GIVEABLE::COIN(1), trash: GIVEABLE::NONE, genre: Genre::MYSTERY, rotated: false, giveablefn: None, genrefn: Some(CardEffect::UncoverAdjacent) },
        90 => ListCard { id: 90, letter: "v", cost: 9, purchase_giveables: GIVEABLE::NONE, giveables: GIVEABLE::VP(4), genre_giveables: GIVEABLE::VP(4), trash: GIVEABLE::NONE, genre: Genre::MYSTERY, rotated: false, giveablefn: Some(CardEffect::UncoverAdjacent), genrefn: None },
        91 => ListCard { id: 91, letter: "w", cost: 4, purchase_giveables: GIVEABLE::NONE, giveables: GIVEABLE::COIN(2), genre_giveables: GIVEABLE::COIN(2), trash: GIVEABLE::NONE, genre: Genre::MYSTERY, rotated: false, giveablefn: None, genrefn: Some(CardEffect::UncoverAdjacent) },
        92 => ListCard { id: 92, letter: "x", cost: 3, purchase_giveables: GIVEABLE::NONE, giveables: GIVEABLE::VP(3), genre_giveables: GIVEABLE::NONE, trash: GIVEABLE::NONE, genre: Genre::MYSTERY, rotated: false, giveablefn: Some(CardEffect::LockupOffer), genrefn: None },
        93 => ListCard { id: 93, letter: "y", cost: 7, purchase_giveables: GIVEABLE::NONE, giveables: GIVEABLE::VP(4), genre_giveables: GIVEABLE::VP(2), trash: GIVEABLE::NONE, genre: Genre::MYSTERY, rotated: false, giveablefn: None, genrefn: Some(CardEffect::UncoverAdjacent) },
        94 => ListCard { id: 94, letter: "z", cost: 5, purchase_giveables: GIVEABLE::NONE, giveables: GIVEABLE::VP(3), genre_giveables: GIVEABLE::VP(2), trash: GIVEABLE::NONE, genre: Genre::MYSTERY, rotated: false, giveablefn: None, genrefn: Some(CardEffect::UncoverAdjacent) },
        95 => ListCard { id: 95, letter: "i", cost: 3, purchase_giveables: GIVEABLE::NONE, giveables: GIVEABLE::VP(2), genre_giveables: GIVEABLE::NONE, trash: GIVEABLE::NONE, genre: Genre::MYSTERY, rotated: false, giveablefn: None, genrefn: Some(CardEffect::LockupOffer) },
        96 => ListCard { id: 96, letter: "a", cost: 5, purchase_giveables: GIVEABLE::NONE, giveables: GIVEABLE::COIN(2), genre_giveables: GIVEABLE::COIN(1), trash: GIVEABLE::NONE, genre: Genre::MYSTERY, rotated: true, giveablefn: None, genrefn: None },
        97 => ListCard { id: 97, letter: "f", cost: 5, purchase_giveables: GIVEABLE::NONE, giveables: GIVEABLE::VP(1), genre_giveables: GIVEABLE::VP(1), trash: GIVEABLE::NONE, genre: Genre::MYSTERY, rotated: false, giveablefn: Some(CardEffect::LockupOffer), genrefn: None },
        98 => ListCard { id: 98, letter: "m", cost: 4, purchase_giveables: GIVEABLE::NONE, giveables: GIVEABLE::COIN(1), genre_giveables: GIVEABLE::COIN(1), trash: GIVEABLE::NONE, genre: Genre::MYSTERY, rotated: true, giveablefn: None, genrefn: Some(CardEffect::LockupOffer) },
        99 => ListCard { id: 99, letter: "k", cost: 4, purchase_giveables: GIVEABLE::NONE, giveables: GIVEABLE::COIN(2), genre_giveables: GIVEABLE::COIN(2), trash: GIVEABLE::NONE, genre: Genre::MYSTERY, rotated: false, giveablefn: Some(CardEffect::UncoverAdjacent), genrefn: None },
        100 => ListCard { id: 100, letter: "q", cost: 5, purchase_giveables: GIVEABLE::NONE, giveables: GIVEABLE::VP(2), genre_giveables: GIVEABLE::VP(3), trash: GIVEABLE::NONE, genre: Genre::MYSTERY, rotated: false, giveablefn: Some(CardEffect::UncoverAdjacent), genrefn: None },
        101 => ListCard { id: 101, letter: "t", cost: 8, purchase_giveables: GIVEABLE::NONE, giveables: GIVEABLE::VP(2), genre_giveables: GIVEABLE::VP(2), trash: GIVEABLE::NONE, genre: Genre::MYSTERY, rotated: true, giveablefn: None, genrefn: Some(CardEffect::LockupOffer) },
        102 => ListCard { id: 102, letter: "r", cost: 6, purchase_giveables: GIVEABLE::NONE, giveables: GIVEABLE::VP(2), genre_giveables: GIVEABLE::VP(1), trash: GIVEABLE::NONE, genre: Genre::MYSTERY, rotated: false, giveablefn: Some(CardEffect::UncoverAdjacent), genrefn: Some(CardEffect::LockupOffer) },
        103 => ListCard { id: 103, letter: "p", cost: 2, purchase_giveables: GIVEABLE::NONE, giveables: GIVEABLE::COIN(1), genre_giveables: GIVEABLE::COIN(1), trash: GIVEABLE::NONE, genre: Genre::MYSTERY, rotated: false, giveablefn: None, genrefn: Some(CardEffect::LockupOffer) },
        104 => ListCard { id: 104, letter: "a", cost: 3, purchase_giveables: GIVEABLE::NONE, giveables: GIVEABLE::VP(1), genre_giveables: GIVEABLE::NONE, trash: GIVEABLE::NONE, genre: Genre::MYSTERY, rotated: false, giveablefn: Some(CardEffect::UncoverAdjacent), genrefn: None },
        105 => ListCard { id: 105, letter: "z", cost: 5, purchase_giveables: GIVEABLE::NONE, giveables: GIVEABLE::COIN(2), genre_giveables: GIVEABLE::COIN(2), trash: GIVEABLE::NONE, genre: Genre::ROMANCE, rotated: false, giveablefn: Some(CardEffect::DoubleAdjacent), genrefn: None },
        106 => ListCard { id: 106, letter: "w", cost: 4, purchase_giveables: GIVEABLE::NONE, giveables: GIVEABLE::VP(1), genre_giveables: GIVEABLE::VP(1), trash: GIVEABLE::NONE, genre: Genre::ROMANCE, rotated: false, giveablefn: Some(CardEffect::TrashOther), genrefn: Some(CardEffect::DoubleAdjacent) },
        107 => ListCard { id: 107, letter: "v", cost: 3, purchase_giveables: GIVEABLE::NONE, giveables: GIVEABLE::VP(2), genre_giveables: GIVEABLE::VP(1), trash: GIVEABLE::NONE, genre: Genre::ROMANCE, rotated: false, giveablefn: None, genrefn: Some(CardEffect::TrashOther) },
        108 => ListCard { id: 108, letter: "u", cost: 9, purchase_giveables: GIVEABLE::NONE, giveables: GIVEABLE::VP(5), genre_giveables: GIVEABLE::VP(1), trash: GIVEABLE::NONE, genre: Genre::ROMANCE, rotated: false, giveablefn: None, genrefn: Some(CardEffect::DoubleAdjacent) },
        109 => ListCard { id: 109, letter: "t", cost: 3, purchase_giveables: GIVEABLE::NONE, giveables: GIVEABLE::COIN(1), genre_giveables: GIVEABLE::COIN(1), trash: GIVEABLE::NONE, genre: Genre::ROMANCE, rotated: false, giveablefn: None, genrefn: Some(CardEffect::TrashOther) },
        110 => ListCard { id: 110, letter: "s", cost: 4, purchase_giveables: GIVEABLE::NONE, giveables: GIVEABLE::VP(1), genre_giveables: GIVEABLE::VP(1), trash: GIVEABLE::NONE, genre: Genre::ROMANCE, rotated: false, giveablefn: Some(CardEffect::TrashOther), genrefn: None },
        111 => ListCard { id: 111, letter: "r", cost: 5, purchase_giveables: GIVEABLE::NONE, giveables: GIVEABLE::VP(2), genre_giveables: GIVEABLE::VP(1), trash: GIVEABLE::NONE, genre: Genre::ROMANCE, rotated: false, giveablefn: None, genrefn: Some(CardEffect::KeepOrDiscardThree) },
        112 => ListCard { id: 112, letter: "q", cost: 4, purchase_giveables: GIVEABLE::NONE, giveables: GIVEABLE::VP(2), genre_giveables: GIVEABLE::VP(2), trash: GIVEABLE::NONE, genre: Genre::ROMANCE, rotated: false, giveablefn: Some(CardEffect::TrashOther), genrefn: None },
        113 => ListCard { id: 113, letter: "p", cost: 6, purchase_giveables: GIVEABLE::NONE, giveables: GIVEABLE::VP(2), genre_giveables: GIVEABLE::VP(1), trash: GIVEABLE::NONE, genre: Genre::ROMANCE, rotated: false, giveablefn: None, genrefn: Some(CardEffect::DoubleAdjacent) },
        114 => ListCard { id: 114, letter: "o", cost: 4, purchase_giveables: GIVEABLE::NONE, giveables: GIVEABLE::COIN(2), genre_giveables: GIVEABLE::NONE, trash: GIVEABLE::NONE, genre: Genre::ROMANCE, rotated: false, giveablefn: None, genrefn: Some(CardEffect::DoubleAdjacent) },
        115 => ListCard { id: 115, letter: "n", cost: 2, purchase_giveables: GIVEABLE::NONE, giveables: GIVEABLE::VP(1), genre_giveables: GIVEABLE::NONE, trash: GIVEABLE::NONE, genre: Genre::ROMANCE, rotated: false, giveablefn: None, genrefn: Some(CardEffect::TrashOther) },
        116 => ListCard { id: 116, letter: "m", cost: 2, purchase_giveables: GIVEABLE::NONE, giveables: GIVEABLE::COIN(1), genre_giveables: GIVEABLE::NONE, trash: GIVEABLE::NONE, genre: Genre::ROMANCE, rotated: false, giveablefn: Some(CardEffect::TrashOther), genrefn: None },
        117 => ListCard { id: 117, letter: "l", cost: 8, purchase_giveables: GIVEABLE::NONE, giveables: GIVEABLE::VP(3), genre_giveables: GIVEABLE::VP(2), trash: GIVEABLE::NONE, genre: Genre::ROMANCE, rotated: false, giveablefn: None, genrefn: Some(CardEffect::DoubleAdjacent) },
        118 => ListCard { id: 118, letter: "k", cost: 3, purchase_giveables: GIVEABLE::NONE, giveables: GIVEABLE::COIN(2), genre_giveables: GIVEABLE::COIN(1), trash: GIVEABLE::NONE, genre: Genre::ROMANCE, rotated: false, giveablefn: None, genrefn: Some(CardEffect::TrashOther) },
        119 => ListCard { id: 119, letter: "j", cost: 6, purchase_giveables: GIVEABLE::NONE, giveables: GIVEABLE::COIN(2), genre_giveables: GIVEABLE::COIN(2), trash: GIVEABLE::NONE, genre: Genre::ROMANCE, rotated: false, giveablefn: Some(CardEffect::DoubleAdjacent), genrefn: Some(CardEffect::TrashOther) },
        120 => ListCard { id: 120, letter: "i", cost: 2, purchase_giveables: GIVEABLE::NONE, giveables: GIVEABLE::COIN(1), genre_giveables: GIVEABLE::COIN(1), trash: GIVEABLE::NONE, genre: Genre::ROMANCE, rotated: false, giveablefn: None, genrefn: None },
        121 => ListCard { id: 121, letter: "h", cost: 3, purchase_giveables: GIVEABLE::NONE, giveables: GIVEABLE::COIN(1), genre_giveables: GIVEABLE::COIN(1), trash: GIVEABLE::NONE, genre: Genre::ROMANCE, rotated: false, giveablefn: Some(CardEffect::TrashOther), genrefn: None },
        122 => ListCard { id: 122, letter: "g", cost: 3, purchase_giveables: GIVEABLE::NONE, giveables: GIVEABLE::VP(1), genre_giveables: GIVEABLE::VP(1), trash: GIVEABLE::NONE, genre: Genre::ROMANCE, rotated: false, giveablefn: Some(CardEffect::TrashOther), genrefn: None },
        123 => ListCard { id: 123, letter: "f", cost: 4, purchase_giveables: GIVEABLE::NONE, giveables: GIVEABLE::VP(2), genre_giveables: GIVEABLE::VP(1), trash: GIVEABLE::NONE, genre: Genre::ROMANCE, rotated: false, giveablefn: Some(CardEffect::TrashOther), genrefn: None },
        124 => ListCard { id: 124, letter: "e", cost: 6, purchase_giveables: GIVEABLE::NONE, giveables: GIVEABLE::VP(3), genre_giveables: GIVEABLE::NONE, trash: GIVEABLE::NONE, genre: Genre::ROMANCE, rotated: false, giveablefn: None, genrefn: Some(CardEffect::TrashOther) },
        125 => ListCard { id: 125, letter: "d", cost: 4, purchase_giveables: GIVEABLE::NONE, giveables: GIVEABLE::COIN(2), genre_giveables: GIVEABLE::NONE, trash: GIVEABLE::NONE, genre: Genre::ROMANCE, rotated: false, giveablefn: None, genrefn: Some(CardEffect::DoubleAdjacent) },
        126 => ListCard { id: 126, letter: "c", cost: 3, purchase_giveables: GIVEABLE::NONE, giveables: GIVEABLE::VP(2), genre_giveables: GIVEABLE::NONE, trash: GIVEABLE::NONE, genre: Genre::ROMANCE, rotated: false, giveablefn: None, genrefn: Some(CardEffect::TrashOther) },
        127 => ListCard { id: 127, letter: "b", cost: 3, purchase_giveables: GIVEABLE::NONE, giveables: GIVEABLE::COIN(2), genre_giveables: GIVEABLE::NONE, trash: GIVEABLE::NONE, genre: Genre::ROMANCE, rotated: false, giveablefn: Some(CardEffect::DoubleAdjacent), genrefn: None },
        128 => ListCard { id: 128, letter: "a", cost: 4, purchase_giveables: GIVEABLE::NONE, giveables: GIVEABLE::COIN(1), genre_giveables: GIVEABLE::COIN(1), trash: GIVEABLE::NONE, genre: Genre::ROMANCE, rotated: false, giveablefn: Some(CardEffect::TrashOther), genrefn: None },
        129 => ListCard { id: 129, letter: "b", cost: 5, purchase_giveables: GIVEABLE::NONE, giveables: GIVEABLE::COIN(1), genre_giveables: GIVEABLE::COIN(1), trash: GIVEABLE::NONE, genre: Genre::ROMANCE, rotated: true, giveablefn: None, genrefn: Some(CardEffect::TrashOther) },
        130 => ListCard { id: 130, letter: "e", cost: 2, purchase_giveables: GIVEABLE::NONE, giveables: GIVEABLE::COIN(1), genre_giveables: GIVEABLE::COIN(1), trash: GIVEABLE::NONE, genre: Genre::ROMANCE, rotated: false, giveablefn: None, genrefn: None },
        131 => ListCard { id: 131, letter: "f", cost: 6, purchase_giveables: GIVEABLE::NONE, giveables: GIVEABLE::COIN(2), genre_giveables: GIVEABLE::COIN(1), trash: GIVEABLE::NONE, genre: Genre::ROMANCE, rotated: false, giveablefn: Some(CardEffect::DoubleAdjacent), genrefn: Some(CardEffect::TrashOther) },
        132 => ListCard { id: 132, letter: "h", cost: 7, purchase_giveables: GIVEABLE::NONE, giveables: GIVEABLE::VP(3), genre_giveables: GIVEABLE::VP(2), trash: GIVEABLE::NONE, genre: Genre::ROMANCE, rotated: false, giveablefn: None, genrefn: Some(CardEffect::DoubleAdjacent) },
        133 => ListCard { id: 133, letter: "k", cost: 5, purchase_giveables: GIVEABLE::NONE, giveables: GIVEABLE::COIN(1), genre_giveables: GIVEABLE::COIN(1), trash: GIVEABLE::NONE, genre: Genre::ROMANCE, rotated: true, giveablefn: None, genrefn: Some(CardEffect::TrashOther) },
        134 => ListCard { id: 134, letter: "n", cost: 5, purchase_giveables: GIVEABLE::NONE, giveables: GIVEABLE::COIN(2), genre_giveables: GIVEABLE::COIN(1), trash: GIVEABLE::NONE, genre: Genre::ROMANCE, rotated: false, giveablefn: Some(CardEffect::TrashOther), genrefn: None },
        135 => ListCard { id: 135, letter: "o", cost: 8, purchase_giveables: GIVEABLE::NONE, giveables: GIVEABLE::VPCOIN(1,2), genre_giveables: GIVEABLE::VPCOIN(1,1), trash: GIVEABLE::NONE, genre: Genre::ROMANCE, rotated: true, giveablefn: None, genrefn: None },
        136 => ListCard { id: 136, letter: "r", cost: 5, purchase_giveables: GIVEABLE::NONE, giveables: GIVEABLE::VP(2), genre_giveables: GIVEABLE::NONE, trash: GIVEABLE::NONE, genre: Genre::ROMANCE, rotated: true, giveablefn: None, genrefn: Some(CardEffect::TrashOther) },
        137 => ListCard { id: 137, letter: "z", cost: 4, purchase_giveables: GIVEABLE::NONE, giveables: GIVEABLE::VP(2), genre_giveables: GIVEABLE::VP(2), trash: GIVEABLE::NONE, genre: Genre::ROMANCE, rotated: false, giveablefn: Some(CardEffect::TrashOther), genrefn: None },
        138 => ListCard { id: 138, letter: "y", cost: 4, purchase_giveables: GIVEABLE::NONE, giveables: GIVEABLE::VP(1), genre_giveables: GIVEABLE::NONE, trash: GIVEABLE::NONE, genre: Genre::ROMANCE, rotated: false, giveablefn: Some(CardEffect::DoubleAdjacent), genrefn: Some(CardEffect::TrashOther) },
        139 => ListCard { id: 139, letter: "x", cost: 7, purchase_giveables: GIVEABLE::NONE, giveables: GIVEABLE::VP(4), genre_giveables: GIVEABLE::VP(2), trash: GIVEABLE::NONE, genre: Genre::ROMANCE, rotated: false, giveablefn: Some(CardEffect::TrashOther), genrefn: None },
        140 => ListCard { id: 140, letter: "a", cost: 0, purchase_giveables: GIVEABLE::NONE, giveables: GIVEABLE::COIN(1), genre_giveables: GIVEABLE::NONE, trash: GIVEABLE::NONE, genre: Genre::NONE, rotated: false, giveablefn: None, genrefn: None },
        141 => ListCard { id: 141, letter: "a", cost: 0, purchase_giveables: GIVEABLE::NONE, giveables: GIVEABLE::COIN(1), genre_giveables: GIVEABLE::NONE, trash: GIVEABLE::NONE, genre: Genre::NONE, rotated: false, giveablefn: None, genrefn: None },
        142 => ListCard { id: 142, letter: "c", cost: 0, purchase_giveables: GIVEABLE::NONE, giveables: GIVEABLE::VP(1), genre_giveables: GIVEABLE::NONE, trash: GIVEABLE::NONE, genre: Genre::NONE, rotated: false, giveablefn: None, genrefn: None },
        143 => ListCard { id: 143, letter: "d", cost: 0, purchase_giveables: GIVEABLE::NONE, giveables: GIVEABLE::VP(1), genre_giveables: GIVEABLE::NONE, trash: GIVEABLE::NONE, genre: Genre::NONE, rotated: false, giveablefn: None, genrefn: None },
        144 => ListCard { id: 144, letter: "e", cost: 0, purchase_giveables: GIVEABLE::NONE, giveables: GIVEABLE::COIN(1), genre_giveables: GIVEABLE::NONE, trash: GIVEABLE::NONE, genre: Genre::NONE, rotated: false, giveablefn: None, genrefn: None },
        145 => ListCard { id: 145, letter: "a", cost: 0, purchase_giveables: GIVEABLE::NONE, giveables: GIVEABLE::COIN(1), genre_giveables: GIVEABLE::NONE, trash: GIVEABLE::NONE, genre: Genre::NONE, rotated: false, giveablefn: None, genrefn: None },
        146 => ListCard { id: 146, letter: "g", cost: 0, purchase_giveables: GIVEABLE::NONE, giveables: GIVEABLE::VP(1), genre_giveables: GIVEABLE::NONE, trash: GIVEABLE::NONE, genre: Genre::NONE, rotated: false, giveablefn: None, genrefn: None },
        147 => ListCard { id: 147, letter: "h", cost: 0, purchase_giveables: GIVEABLE::NONE, giveables: GIVEABLE::VP(1), genre_giveables: GIVEABLE::NONE, trash: GIVEABLE::NONE, genre: Genre::NONE, rotated: false, giveablefn: None, genrefn: None },
        148 => ListCard { id: 148, letter: "i", cost: 0, purchase_giveables: GIVEABLE::NONE, giveables: GIVEABLE::COIN(1), genre_giveables: GIVEABLE::NONE, trash: GIVEABLE::NONE, genre: Genre::NONE, rotated: false, giveablefn: None, genrefn: None },
        149 => ListCard { id: 149, letter: "a", cost: 0, purchase_giveables: GIVEABLE::NONE, giveables: GIVEABLE::COIN(1), genre_giveables: GIVEABLE::NONE, trash: GIVEABLE::NONE, genre: Genre::NONE, rotated: false, giveablefn: None, genrefn: None },
        150 => ListCard { id: 150, letter: "e", cost: 0, purchase_giveables: GIVEABLE::NONE, giveables: GIVEABLE::COIN(1), genre_giveables: GIVEABLE::NONE, trash: GIVEABLE::NONE, genre: Genre::NONE, rotated: false, giveablefn: None, genrefn: None },
        151 => ListCard { id: 151, letter: "l", cost: 0, purchase_giveables: GIVEABLE::NONE, giveables: GIVEABLE::COIN(1), genre_giveables: GIVEABLE::NONE, trash: GIVEABLE::NONE, genre: Genre::NONE, rotated: false, giveablefn: None, genrefn: None },
        152 => ListCard { id: 152, letter: "m", cost: 0, purchase_giveables: GIVEABLE::NONE, giveables: GIVEABLE::VP(1), genre_giveables: GIVEABLE::NONE, trash: GIVEABLE::NONE, genre: Genre::NONE, rotated: false, giveablefn: None, genrefn: None },
        153 => ListCard { id: 153, letter: "n", cost: 0, purchase_giveables: GIVEABLE::NONE, giveables: GIVEABLE::COIN(1), genre_giveables: GIVEABLE::NONE, trash: GIVEABLE::NONE, genre: Genre::NONE, rotated: false, giveablefn: None, genrefn: None },
        154 => ListCard { id: 154, letter: "o", cost: 0, purchase_giveables: GIVEABLE::NONE, giveables: GIVEABLE::VP(1), genre_giveables: GIVEABLE::NONE, trash: GIVEABLE::NONE, genre: Genre::NONE, rotated: false, giveablefn: None, genrefn: None },
        155 => ListCard { id: 155, letter: "p", cost: 0, purchase_giveables: GIVEABLE::NONE, giveables: GIVEABLE::VP(1), genre_giveables: GIVEABLE::NONE, trash: GIVEABLE::NONE, genre: Genre::NONE, rotated: false, giveablefn: None, genrefn: None },
        156 => ListCard { id: 156, letter: "e", cost: 0, purchase_giveables: GIVEABLE::NONE, giveables: GIVEABLE::COIN(1), genre_giveables: GIVEABLE::NONE, trash: GIVEABLE::NONE, genre: Genre::NONE, rotated: false, giveablefn: None, genrefn: None },
        157 => ListCard { id: 157, letter: "r", cost: 0, purchase_giveables: GIVEABLE::NONE, giveables: GIVEABLE::COIN(1), genre_giveables: GIVEABLE::NONE, trash: GIVEABLE::NONE, genre: Genre::NONE, rotated: false, giveablefn: None, genrefn: None },
        158 => ListCard { id: 158, letter: "s", cost: 0, purchase_giveables: GIVEABLE::NONE, giveables: GIVEABLE::COIN(1), genre_giveables: GIVEABLE::NONE, trash: GIVEABLE::NONE, genre: Genre::NONE, rotated: false, giveablefn: None, genrefn: None },
        159 => ListCard { id: 159, letter: "t", cost: 0, purchase_giveables: GIVEABLE::NONE, giveables: GIVEABLE::COIN(1), genre_giveables: GIVEABLE::NONE, trash: GIVEABLE::NONE, genre: Genre::NONE, rotated: false, giveablefn: None, genrefn: None },
        160 => ListCard { id: 160, letter: "u", cost: 0, purchase_giveables: GIVEABLE::NONE, giveables: GIVEABLE::VP(1), genre_giveables: GIVEABLE::NONE, trash: GIVEABLE::NONE, genre: Genre::NONE, rotated: false, giveablefn: None, genrefn: None },
        161 => ListCard { id: 161, letter: "e", cost: 0, purchase_giveables: GIVEABLE::NONE, giveables: GIVEABLE::COIN(1), genre_giveables: GIVEABLE::NONE, trash: GIVEABLE::NONE, genre: Genre::NONE, rotated: false, giveablefn: None, genrefn: None },
        162 => ListCard { id: 162, letter: "i", cost: 0, purchase_giveables: GIVEABLE::NONE, giveables: GIVEABLE::COIN(1), genre_giveables: GIVEABLE::NONE, trash: GIVEABLE::NONE, genre: Genre::NONE, rotated: false, giveablefn: None, genrefn: None },
        163 => ListCard { id: 163, letter: "i", cost: 0, purchase_giveables: GIVEABLE::NONE, giveables: GIVEABLE::COIN(1), genre_giveables: GIVEABLE::NONE, trash: GIVEABLE::NONE, genre: Genre::NONE, rotated: false, giveablefn: None, genrefn: None },
        164 => ListCard { id: 164, letter: "i", cost: 0, purchase_giveables: GIVEABLE::NONE, giveables: GIVEABLE::COIN(1), genre_giveables: GIVEABLE::NONE, trash: GIVEABLE::NONE, genre: Genre::NONE, rotated: false, giveablefn: None, genrefn: None },
        165 => ListCard { id: 165, letter: "l", cost: 0, purchase_giveables: GIVEABLE::NONE, giveables: GIVEABLE::COIN(1), genre_giveables: GIVEABLE::NONE, trash: GIVEABLE::NONE, genre: Genre::NONE, rotated: false, giveablefn: None, genrefn: None },
        166 => ListCard { id: 166, letter: "l", cost: 0, purchase_giveables: GIVEABLE::NONE, giveables: GIVEABLE::COIN(1), genre_giveables: GIVEABLE::NONE, trash: GIVEABLE::NONE, genre: Genre::NONE, rotated: false, giveablefn: None, genrefn: None },
        167 => ListCard { id: 167, letter: "l", cost: 0, purchase_giveables: GIVEABLE::NONE, giveables: GIVEABLE::COIN(1), genre_giveables: GIVEABLE::NONE, trash: GIVEABLE::NONE, genre: Genre::NONE, rotated: false, giveablefn: None, genrefn: None },
        168 => ListCard { id: 168, letter: "n", cost: 0, purchase_giveables: GIVEABLE::NONE, giveables: GIVEABLE::COIN(1), genre_giveables: GIVEABLE::NONE, trash: GIVEABLE::NONE, genre: Genre::NONE, rotated: false, giveablefn: None, genrefn: None },
        169 => ListCard { id: 169, letter: "n", cost: 0, purchase_giveables: GIVEABLE::NONE, giveables: GIVEABLE::COIN(1), genre_giveables: GIVEABLE::NONE, trash: GIVEABLE::NONE, genre: Genre::NONE, rotated: false, giveablefn: None, genrefn: None },
        170 => ListCard { id: 170, letter: "n", cost: 0, purchase_giveables: GIVEABLE::NONE, giveables: GIVEABLE::COIN(1), genre_giveables: GIVEABLE::NONE, trash: GIVEABLE::NONE, genre: Genre::NONE, rotated: false, giveablefn: None, genrefn: None },
        171 => ListCard { id: 171, letter: "r", cost: 0, purchase_giveables: GIVEABLE::NONE, giveables: GIVEABLE::COIN(1), genre_giveables: GIVEABLE::NONE, trash: GIVEABLE::NONE, genre: Genre::NONE, rotated: false, giveablefn: None, genrefn: None },
        172 => ListCard { id: 172, letter: "r", cost: 0, purchase_giveables: GIVEABLE::NONE, giveables: GIVEABLE::COIN(1), genre_giveables: GIVEABLE::NONE, trash: GIVEABLE::NONE, genre: Genre::NONE, rotated: false, giveablefn: None, genrefn: None },
        173 => ListCard { id: 173, letter: "r", cost: 0, purchase_giveables: GIVEABLE::NONE, giveables: GIVEABLE::COIN(1), genre_giveables: GIVEABLE::NONE, trash: GIVEABLE::NONE, genre: Genre::NONE, rotated: false, giveablefn: None, genrefn: None },
        174 => ListCard { id: 174, letter: "s", cost: 0, purchase_giveables: GIVEABLE::NONE, giveables: GIVEABLE::COIN(1), genre_giveables: GIVEABLE::NONE, trash: GIVEABLE::NONE, genre: Genre::NONE, rotated: false, giveablefn: None, genrefn: None },
        175 => ListCard { id: 175, letter: "s", cost: 0, purchase_giveables: GIVEABLE::NONE, giveables: GIVEABLE::COIN(1), genre_giveables: GIVEABLE::NONE, trash: GIVEABLE::NONE, genre: Genre::NONE, rotated: false, giveablefn: None, genrefn: None },
        176 => ListCard { id: 176, letter: "s", cost: 0, purchase_giveables: GIVEABLE::NONE, giveables: GIVEABLE::COIN(1), genre_giveables: GIVEABLE::NONE, trash: GIVEABLE::NONE, genre: Genre::NONE, rotated: false, giveablefn: None, genrefn: None },
        177 => ListCard { id: 177, letter: "t", cost: 0, purchase_giveables: GIVEABLE::NONE, giveables: GIVEABLE::COIN(1), genre_giveables: GIVEABLE::NONE, trash: GIVEABLE::NONE, genre: Genre::NONE, rotated: false, giveablefn: None, genrefn: None },
        178 => ListCard { id: 178, letter: "t", cost: 0, purchase_giveables: GIVEABLE::NONE, giveables: GIVEABLE::COIN(1), genre_giveables: GIVEABLE::NONE, trash: GIVEABLE::NONE, genre: Genre::NONE, rotated: false, giveablefn: None, genrefn: None },
        179 => ListCard { id: 179, letter: "t", cost: 0, purchase_giveables: GIVEABLE::NONE, giveables: GIVEABLE::COIN(1), genre_giveables: GIVEABLE::NONE, trash: GIVEABLE::NONE, genre: Genre::NONE, rotated: false, giveablefn: None, genrefn: None },
        _ => ListCard { id: 0, letter: "a", cost: 0, purchase_giveables: GIVEABLE::NONE, giveables: GIVEABLE::NONE, genre_giveables: GIVEABLE::NONE, trash: GIVEABLE::NONE, genre: Genre::NONE, rotated: false, giveablefn: None, genrefn: None },
    }
}

/// The table entry of card `i`.
#[verifier::rlimit(100)]
pub fn card_info(i: usize) -> (c: ListCard)
    requires
        i < NUM_CARDS,
    ensures
        c == card_spec(i),
{
    match i {
        0 => ListCard { id: 0, letter: "a", cost: 7, purchase_giveables: GIVEABLE::NONE, giveables: GIVEABLE::VP(3), genre_giveables: GIVEABLE::VP(2), trash: GIVEABLE::NONE, genre: Genre::ADVENTURE, rotated: false, giveablefn: None, genrefn: None },
        1 => ListCard { id: 1, letter: "b", cost: 4, purchase_giveables: GIVEABLE::VP(3), giveables: GIVEABLE::VP(2), genre_giveables: GIVEABLE::VP(2), trash: GIVEABLE::NONE, genre: Genre::ADVENTURE, rotated: false, giveablefn: None, genrefn: None },
        2 => ListCard { id: 2, letter: "c", cost: 3, purchase_giveables: GIVEABLE::VP(1), giveables: GIVEABLE::COIN(1), genre_giveables: GIVEABLE::COIN(1), trash: GIVEABLE::COIN(2), genre: Genre::ADVENTURE, rotated: false, giveablefn: None, genrefn: None },
        3 => ListCard { id: 3, letter: "d", cost: 4, purchase_giveables: GIVEABLE::VP(1), giveables: GIVEABLE::COIN(2), genre_giveables: GIVEABLE::VP(3), trash: GIVEABLE::NONE, genre: Genre::ADVENTURE, rotated: false, giveablefn: None, genrefn: None },
        4 => ListCard { id: 4, letter: "e", cost: 3, purchase_giveables: GIVEABLE::NONE, giveables: GIVEABLE::VP(1), genre_giveables: GIVEABLE::VP(1), trash: GIVEABLE::COIN(2), genre: Genre::ADVENTURE, rotated: false, giveablefn: None, genrefn: None },
        5 => ListCard { id: 5, letter: "f", cost: 8, purchase_giveables: GIVEABLE::VP(1), giveables: GIVEABLE::VP(5), genre_giveables: GIVEABLE::VP(2), trash: GIVEABLE::NONE, genre: Genre::ADVENTURE, rotated: false, giveablefn: None, genrefn: None },
        6 => ListCard { id: 6, letter: "g", cost: 6, purchase_giveables: GIVEABLE::NONE, giveables: GIVEABLE::VP(4), genre_giveables: GIVEABLE::COIN(1), trash: GIVEABLE::COIN(4), genre: Genre::ADVENTURE, rotated: false, giveablefn: None, genrefn: None },
        7 => ListCard { id: 7, letter: "h", cost: 3, purchase_giveables: GIVEABLE::VP(3), giveables: GIVEABLE::VP(1), genre_giveables: GIVEABLE::VP(1), trash: GIVEABLE::VP(1), genre: Genre::ADVENTURE, rotated: false, giveablefn: None, genrefn: None },
        8 => ListCard { id: 8, letter: "i", cost: 6, purchase_giveables: GIVEABLE::NONE, giveables: GIVEABLE::VP(3), genre_giveables: GIVEABLE::VP(1), trash: GIVEABLE::NONE, genre: Genre::ADVENTURE, rotated: false, giveablefn: None, genrefn: None },
        9 => ListCard { id: 9, letter: "j", cost: 5, purchase_giveables: GIVEABLE::NONE, giveables: GIVEABLE::VP(3), genre_giveables: GIVEABLE::VP(2), trash: GIVEABLE::VP(2), genre: Genre::ADVENTURE, rotated: false, giveablefn: None, genrefn: None },
        10 => ListCard { id: 10, letter: "k", cost: 9, purchase_giveables: GIVEABLE::VP(2), giveables: GIVEABLE::VP(5), genre_giveables: GIVEABLE::VP(3), trash: GIVEABLE::NONE, genre: Genre::ADVENTURE, rotated: false, giveablefn: None, genrefn: None },
        11 => ListCard { id: 11, letter: "l", cost: 4, purchase_giveables: GIVEABLE::VP(3), giveables: GIVEABLE::VP(2), genre_giveables: GIVEABLE::VP(1), trash: GIVEABLE::NONE, genre: Genre::ADVENTURE, rotated: false, giveablefn: None, genrefn: None },
        12 => ListCard { id: 12, letter: "m", cost: 6, purchase_giveables: GIVEABLE::VP(3), giveables: GIVEABLE::VP(3), genre_giveables: GIVEABLE::VP(2), trash: GIVEABLE::NONE, genre: Genre::ADVENTURE, rotated: false, giveablefn: None, genrefn: None },
        13 => ListCard { id: 13, letter: "n", cost: 4, purchase_giveables: GIVEABLE::VP(1), giveables: GIVEABLE::COIN(2), genre_giveables: GIVEABLE::VPCOIN(1,1), trash: GIVEABLE::NONE, genre: Genre::ADVENTURE, rotated: false, giveablefn: None, genrefn: None },
        14 => ListCard { id: 14, letter: "o", cost: 6, purchase_giveables: GIVEABLE::NONE, giveables: GIVEABLE::VP(2), genre_giveables: GIVEABLE::NONE, trash: GIVEABLE::NONE, genre: Genre::ADVENTURE, rotated: false, giveablefn: None, genrefn: Some(CardEffect::TwoCentPerAdv) },
        15 => ListCard { id: 15, letter: "p", cost: 4, purchase_giveables: GIVEABLE::VP(1), giveables: GIVEABLE::VP(2), genre_giveables: GIVEABLE::VP(2), trash: GIVEABLE::NONE, genre: Genre::ADVENTURE, rotated: false, giveablefn: None, genrefn: None },
        16 => ListCard { id: 16, letter: "q", cost: 7, purchase_giveables: GIVEABLE::NONE, giveables: GIVEABLE::VP(3), genre_giveables: GIVEABLE::VP(4), trash: GIVEABLE::VP(3), genre: Genre::ADVENTURE, rotated: false, giveablefn: None, genrefn: None },
        17 => ListCard { id: 17, letter: "r", cost: 3, purchase_giveables: GIVEABLE::VP(1), giveables: GIVEABLE::VP(1), genre_giveables: GIVEABLE::VP(2), trash: GIVEABLE::NONE, genre: Genre::ADVENTURE, rotated: false, giveablefn: None, genrefn: None },
        18 => ListCard { id: 18, letter: "s", cost: 5, purchase_giveables: GIVEABLE::VP(1), giveables: GIVEABLE::VP(2), genre_giveables: GIVEABLE::VP(1), trash: GIVEABLE::VP(2), genre: Genre::ADVENTURE, rotated: false, giveablefn: None, genrefn: None },
        19 => ListCard { id: 19, letter: "t", cost: 4, purchase_giveables: GIVEABLE::VP(2), giveables: GIVEABLE::VP(2), genre_giveables: GIVEABLE::VP(1), trash: GIVEABLE::NONE, genre: Genre::ADVENTURE, rotated: false, giveablefn: None, genrefn: None },
        20 => ListCard { id: 20, letter: "u", cost: 4, purchase_giveables: GIVEABLE::NONE, giveables: GIVEABLE::VP(1), genre_giveables: GIVEABLE::VP(3), trash: GIVEABLE::VP(2), genre: Genre::ADVENTURE, rotated: false, giveablefn: None, genrefn: None },
        21 => ListCard { id: 21, letter: "v", cost: 2, purchase_giveables: GIVEABLE::NONE, giveables: GIVEABLE::VP(1), genre_giveables: GIVEABLE::VP(2), trash: GIVEABLE::NONE, genre: Genre::ADVENTURE, rotated: false, giveablefn: None, genrefn: None },
        22 => ListCard { id: 22, letter: "w", cost: 3, purchase_giveables: GIVEABLE::NONE, giveables: GIVEABLE::VP(2), genre_giveables: GIVEABLE::VP(1), trash: GIVEABLE::COIN(2), genre: Genre::ADVENTURE, rotated: false, giveablefn: None, genrefn: None },
        23 => ListCard { id: 23, letter: "x", cost: 4, purchase_giveables: GIVEABLE::NONE, giveables: GIVEABLE::COIN(2), genre_giveables: GIVEABLE::COIN(2), trash: GIVEABLE::VP(2), genre: Genre::ADVENTURE, rotated: false, giveablefn: None, genrefn: None },
        24 => ListCard { id: 24, letter: "y", cost: 2, purchase_giveables: GIVEABLE::NONE, giveables: GIVEABLE::VP(1), genre_giveables: GIVEABLE::VP(1), trash: GIVEABLE::COIN(1), genre: Genre::ADVENTURE, rotated: false, giveablefn: None, genrefn: None },
        25 => ListCard { id: 25, letter: "z", cost: 5, purchase_giveables: GIVEABLE::VP(3), giveables: GIVEABLE::VP(4), genre_giveables: GIVEABLE::VP(1), trash: GIVEABLE::NONE, genre: Genre::ADVENTURE, rotated: false, giveablefn: None, genrefn: None },
        26 => ListCard { id: 26, letter: "a", cost: 5, purchase_giveables: GIVEABLE::VP(1), giveables: GIVEABLE::VP(2), genre_giveables: GIVEABLE::VP(1), trash: GIVEABLE::COIN(3), genre: Genre::ADVENTURE, rotated: false, giveablefn: None, genrefn: None },
        27 => ListCard { id: 27, letter: "c", cost: 5, purchase_giveables: GIVEABLE::NONE, giveables: GIVEABLE::VP(2), genre_giveables: GIVEABLE::VP(1), trash: GIVEABLE::NONE, genre: Genre::ADVENTURE, rotated: true, giveablefn: None, genrefn: None },
        28 => ListCard { id: 28, letter: "g", cost: 2, purchase_giveables: GIVEABLE::NONE, giveables: GIVEABLE::VP(1), genre_giveables: GIVEABLE::VP(2), trash: GIVEABLE::NONE, genre: Genre::ADVENTURE, rotated: false, giveablefn: None, genrefn: None },
        29 => ListCard { id: 29, letter: "i", cost: 3, purchase_giveables: GIVEABLE::NONE, giveables: GIVEABLE::VP(2), genre_giveables: GIVEABLE::NONE, trash: GIVEABLE::NONE, genre: Genre::ADVENTURE, rotated: false, giveablefn: None, genrefn: None },
        30 => ListCard { id: 30, letter: "j", cost: 3, purchase_giveables: GIVEABLE::NONE, giveables: GIVEABLE::VP(2), genre_giveables: GIVEABLE::VP(1), trash: GIVEABLE::COIN(2), genre: Genre::ADVENTURE, rotated: false, giveablefn: None, genrefn: None },
        31 => ListCard { id: 31, letter: "p", cost: 8, purchase_giveables: GIVEABLE::NONE, giveables: GIVEABLE::VP(2), genre_giveables: GIVEABLE::VP(2), trash: GIVEABLE::NONE, genre: Genre::ADVENTURE, rotated: true, giveablefn: None, genrefn: None },
        32 => ListCard { id: 32, letter: "l", cost: 2, purchase_giveables: GIVEABLE::VP(1), giveables: GIVEABLE::VP(1), genre_giveables: GIVEABLE::VP(1), trash: GIVEABLE::VP(1), genre: Genre::ADVENTURE, rotated: false, giveablefn: None, genrefn: None },
        33 => ListCard { id: 33, letter: "w", cost: 5, purchase_giveables: GIVEABLE::VP(2), giveables: GIVEABLE::VP(2), genre_giveables: GIVEABLE::NONE, trash: GIVEABLE::NONE, genre: Genre::ADVENTURE, rotated: true, giveablefn: None, genrefn: None },
        34 => ListCard { id: 34, letter: "y", cost: 4, purchase_giveables: GIVEABLE::VP(4), giveables: GIVEABLE::COIN(2), genre_giveables: GIVEABLE::VP(2), trash: GIVEABLE::COIN(2), genre: Genre::ADVENTURE, rotated: false, giveablefn: None, genrefn: None },
        35 => ListCard { id: 35, letter: "b", cost: 6, purchase_giveables: GIVEABLE::NONE, giveables: GIVEABLE::COIN(3), genre_giveables: GIVEABLE::COININK(2), trash: GIVEABLE::NONE, genre: Genre::HORROR, rotated: false, giveablefn: None, genrefn: None },
        36 => ListCard { id: 36, letter: "c", cost: 5, purchase_giveables: GIVEABLE::NONE, giveables: GIVEABLE::VPINK(2), genre_giveables: GIVEABLE::VP(1), trash: GIVEABLE::NONE, genre: Genre::HORROR, rotated: false, giveablefn: None, genrefn: None },
        37 => ListCard { id: 37, letter: "d", cost: 9, purchase_giveables: GIVEABLE::NONE, giveables: GIVEABLE::VPINK(3), genre_giveables: GIVEABLE::VP(3), trash: GIVEABLE::NONE, genre: Genre::HORROR, rotated: false, giveablefn: None, genrefn: None },
        38 => ListCard { id: 38, letter: "e", cost: 8, purchase_giveables: GIVEABLE::NONE, giveables: GIVEABLE::COININK(2), genre_giveables: GIVEABLE::VPORCOIN(2), trash: GIVEABLE::NONE, genre: Genre::HORROR, rotated: false, giveablefn: None, genrefn: None },
        39 => ListCard { id: 39, letter: "f", cost: 3, purchase_giveables: GIVEABLE::NONE, giveables: GIVEABLE::VP(2), genre_giveables: GIVEABLE::VPORCOININK(2), trash: GIVEABLE::NONE, genre: Genre::HORROR, rotated: false, giveablefn: None, genrefn: None },
        40 => ListCard { id: 40, letter: "g", cost: 4, purchase_giveables: GIVEABLE::NONE, giveables: GIVEABLE::VP(2), genre_giveables: GIVEABLE::VPINK(2), trash: GIVEABLE::NONE, genre: Genre::HORROR, rotated: false, giveablefn: None, genrefn: None },
        41 => ListCard { id: 41, letter: "h", cost: 7, purchase_giveables: GIVEABLE::NONE, giveables: GIVEABLE::VPCOIN(1,2), genre_giveables: GIVEABLE::VPCOIN(2,1), trash: GIVEABLE::NONE, genre: Genre::HORROR, rotated: false, giveablefn: None, genrefn: Some(CardEffect::MinusOtherInk) },
        42 => ListCard { id: 42, letter: "i", cost: 4, purchase_giveables: GIVEABLE::NONE, giveables: GIVEABLE::VP(2), genre_giveables: GIVEABLE::VPORCOIN(2), trash: GIVEABLE::NONE, genre: Genre::HORROR, rotated: false, giveablefn: None, genrefn: None },
        43 => ListCard { id: 43, letter: "j", cost: 5, purchase_giveables: GIVEABLE::NONE, giveables: GIVEABLE::VPINK(3), genre_giveables: GIVEABLE::VP(2), trash: GIVEABLE::NONE, genre: Genre::HORROR, rotated: false, giveablefn: None, genrefn: None },
        44 => ListCard { id: 44, letter: "k", cost: 2, purchase_giveables: GIVEABLE::NONE, giveables: GIVEABLE::VPORCOIN(1), genre_giveables: GIVEABLE::COIN(2), trash: GIVEABLE::NONE, genre: Genre::HORROR, rotated: false, giveablefn: None, genrefn: None },
        45 => ListCard { id: 45, letter: "l", cost: 3, purchase_giveables: GIVEABLE::NONE, giveables: GIVEABLE::VP(2), genre_giveables: GIVEABLE::INK, trash: GIVEABLE::NONE, genre: Genre::HORROR, rotated: false, giveablefn: None, genrefn: None },
        46 => ListCard { id: 46, letter: "m", cost: 3, purchase_giveables: GIVEABLE::NONE, giveables: GIVEABLE::VP(2), genre_giveables: GIVEABLE::VP(1), trash: GIVEABLE::NONE, genre: Genre::HORROR, rotated: false, giveablefn: None, genrefn: None },
        47 => ListCard { id: 47, letter: "n", cost: 5, purchase_giveables: GIVEABLE::NONE, giveables: GIVEABLE::VPINK(2), genre_giveables: GIVEABLE::COIN(1), trash: GIVEABLE::NONE, genre: Genre::HORROR, rotated: false, giveablefn: None, genrefn: None },
        48 => ListCard { id: 48, letter: "o", cost: 4, purchase_giveables: GIVEABLE::NONE, giveables: GIVEABLE::VPORCOIN(2), genre_giveables: GIVEABLE::VPORCOIN(1), trash: GIVEABLE::NONE, genre: Genre::HORROR, rotated: false, giveablefn: None, genrefn: None },
        49 => ListCard { id: 49, letter: "p", cost: 3, purchase_giveables: GIVEABLE::NONE, giveables: GIVEABLE::VPINK(2), genre_giveables: GIVEABLE::NONE, trash: GIVEABLE::NONE, genre: Genre::HORROR, rotated: false, giveablefn: None, genrefn: None },
        50 => ListCard { id: 50, letter: "q", cost: 4, purchase_giveables: GIVEABLE::NONE, giveables: GIVEABLE::COIN(3), genre_giveables: GIVEABLE::COININK(1), trash: GIVEABLE::NONE, genre: Genre::HORROR, rotated: false, giveablefn: None, genrefn: None },
        51 => ListCard { id: 51, letter: "r", cost: 4, purchase_giveables: GIVEABLE::NONE, giveables: GIVEABLE::VPORCOIN(1), genre_giveables: GIVEABLE::COININK(2), trash: GIVEABLE::NONE, genre: Genre::HORROR, rotated: false, giveablefn: None, genrefn: None },
        52 => ListCard { id: 52, letter: "s", cost: 2, purchase_giveables: GIVEABLE::NONE, giveables: GIVEABLE::VP(1), genre_giveables: GIVEABLE::VP(1), trash: GIVEABLE::NONE, genre: Genre::HORROR, rotated: false, giveablefn: None, genrefn: None },
        53 => ListCard { id: 53, letter: "t", cost: 4, purchase_giveables: GIVEABLE::NONE, giveables: GIVEABLE::VP(2), genre_giveables: GIVEABLE::VPINK(1), trash: GIVEABLE::NONE, genre: Genre::HORROR, rotated: false, giveablefn: None, genrefn: None },
        54 => ListCard { id: 54, letter: "u", cost: 2, purchase_giveables: GIVEABLE::NONE, giveables: GIVEABLE::VP(1), genre_giveables: GIVEABLE::VPORCOIN(2), trash: GIVEABLE::NONE, genre: Genre::HORROR, rotated: false, giveablefn: None, genrefn: None },
        55 => ListCard { id: 55, letter: "v", cost: 4, purchase_giveables: GIVEABLE::NONE, giveables: GIVEABLE::COIN(2), genre_giveables: GIVEABLE::VPINK(2), trash: GIVEABLE::NONE, genre: Genre::HORROR, rotated: false, giveablefn: None, genrefn: None },
        56 => ListCard { id: 56, letter: "w", cost: 4, purchase_giveables: GIVEABLE::NONE, giveables: GIVEABLE::VPINK(2), genre_giveables: GIVEABLE::VP(2), trash: GIVEABLE::NONE, genre: Genre::HORROR, rotated: false, giveablefn: None, genrefn: None },
        57 => ListCard { id: 57, letter: "x", cost: 6, purchase_giveables: GIVEABLE::NONE, giveables: GIVEABLE::VPINK(3), genre_giveables: GIVEABLE::VP(3), trash: GIVEABLE::NONE, genre: Genre::HORROR, rotated: false, giveablefn: None, genrefn: None },
        58 => ListCard { id: 58, letter: "y", cost: 3, purchase_giveables: GIVEABLE::NONE, giveables: GIVEABLE::COIN(2), genre_giveables: GIVEABLE::COININK(1), trash: GIVEABLE::NONE, genre: Genre::HORROR, rotated: false, giveablefn: None, genrefn: None },
        59 => ListCard { id: 59, letter: "z", cost: 3, purchase_giveables: GIVEABLE::NONE, giveables: GIVEABLE::VPORCOIN(2), genre_giveables: GIVEABLE::VPORCOININK(1), trash: GIVEABLE::NONE, genre: Genre::HORROR, rotated: false, giveablefn: None, genrefn: None },
        60 => ListCard { id: 60, letter: "v", cost: 5, purchase_giveables: GIVEABLE::NONE, giveables: GIVEABLE::COIN(1), genre_giveables: GIVEABLE::COININK(1), trash: GIVEABLE::NONE, genre: Genre::HORROR, rotated: true, giveablefn: None, genrefn: None },
        61 => ListCard { id: 61, letter: "x", cost: 2, purchase_giveables: GIVEABLE::NONE, giveables: GIVEABLE::VPORCOIN(2), genre_giveables: GIVEABLE::VP(1), trash: GIVEABLE::NONE, genre: Genre::HORROR, rotated: false, giveablefn: None, genrefn: None },
        62 => ListCard { id: 62, letter: "w", cost: 5, purchase_giveables: GIVEABLE::NONE, giveables: GIVEABLE::COININK(2), genre_giveables: GIVEABLE::COIN(3), trash: GIVEABLE::NONE, genre: Genre::HORROR, rotated: false, giveablefn: None, genrefn: None },
        63 => ListCard { id: 63, letter: "u", cost: 6, purchase_giveables: GIVEABLE::NONE, giveables: GIVEABLE::VP(4), genre_giveables: GIVEABLE::VP(1), trash: GIVEABLE::NONE, genre: Genre::HORROR, rotated: false, giveablefn: None, genrefn: None },
        64 => ListCard { id: 64, letter: "n", cost: 6, purchase_giveables: GIVEABLE::NONE, giveables: GIVEABLE::VPORCOIN(1), genre_giveables: GIVEABLE::VPINK(2), trash: GIVEABLE::NONE, genre: Genre::HORROR, rotated: true, giveablefn: None, genrefn: None },
        65 => ListCard { id: 65, letter: "s", cost: 7, purchase_giveables: GIVEABLE::NONE, giveables: GIVEABLE::VPINK(3), genre_giveables: GIVEABLE::VP(1), trash: GIVEABLE::NONE, genre: Genre::HORROR, rotated: false, giveablefn: None, genrefn: None },
        66 => ListCard { id: 66, letter: "c", cost: 8, purchase_giveables: GIVEABLE::NONE, giveables: GIVEABLE::COININK(2), genre_giveables: GIVEABLE::COIN(3), trash: GIVEABLE::NONE, genre: Genre::HORROR, rotated: false, giveablefn: None, genrefn: None },
        67 => ListCard { id: 67, letter: "e", cost: 5, purchase_giveables: GIVEABLE::NONE, giveables: GIVEABLE::VPORCOIN(2), genre_giveables: GIVEABLE::VP(1), trash: GIVEABLE::NONE, genre: Genre::HORROR, rotated: false, giveablefn: None, genrefn: None },
        68 => ListCard { id: 68, letter: "d", cost: 4, purchase_giveables: GIVEABLE::NONE, giveables: GIVEABLE::VPORCOIN(1), genre_giveables: GIVEABLE::VPCOIN(1,1), trash: GIVEABLE::NONE, genre: Genre::HORROR, rotated: false, giveablefn: None, genrefn: None },
        69 => ListCard { id: 69, letter: "a", cost: 3, purchase_giveables: GIVEABLE::NONE, giveables: GIVEABLE::VPORCOIN(2), genre_giveables: GIVEABLE::NONE, trash: GIVEABLE::NONE, genre: Genre::HORROR, rotated: false, giveablefn: None, genrefn: None },
        70 => ListCard { id: 70, letter: "b", cost: 4, purchase_giveables: GIVEABLE::NONE, giveables: GIVEABLE::COIN(2), genre_giveables: GIVEABLE::COIN(2), trash: GIVEABLE::NONE, genre: Genre::MYSTERY, rotated: false, giveablefn: Some(CardEffect::LockupOffer), genrefn: None },
        71 => ListCard { id: 71, letter: "c", cost: 5, purchase_giveables: GIVEABLE::NONE, giveables: GIVEABLE::VP(2), genre_giveables: GIVEABLE::NONE, trash: GIVEABLE::NONE, genre: Genre::MYSTERY, rotated: false, giveablefn: Some(CardEffect::UncoverAdjacent), genrefn: Some(CardEffect::LockupOffer) },
        72 => ListCard { id: 72, letter: "d", cost: 4, purchase_giveables: GIVEABLE::NONE, giveables: GIVEABLE::VP(1), genre_giveables: GIVEABLE::VP(2), trash: GIVEABLE::NONE, genre: Genre::MYSTERY, rotated: false, giveablefn: Some(CardEffect::UncoverAdjacent), genrefn: None },
        73 => ListCard { id: 73, letter: "e", cost: 4, purchase_giveables: GIVEABLE::NONE, giveables: GIVEABLE::COIN(2), genre_giveables: GIVEABLE::NONE, trash: GIVEABLE::NONE, genre: Genre::MYSTERY, rotated: false, giveablefn: None, genrefn: Some(CardEffect::UncoverAdjacent) },
        74 => ListCard { id: 74, letter: "f", cost: 2, purchase_giveables: GIVEABLE::NONE, giveables: GIVEABLE::VP(1), genre_giveables: GIVEABLE::VP(1), trash: GIVEABLE::NONE, genre: Genre::MYSTERY, rotated: false, giveablefn: Some(CardEffect::LockupOffer), genrefn: None },
        75 => ListCard { id: 75, letter: "g", cost: 6, purchase_giveables: GIVEABLE::NONE, giveables: GIVEABLE::VP(3), genre_giveables: GIVEABLE::VP(2), trash: GIVEABLE::NONE, genre: Genre::MYSTERY, rotated: false, giveablefn: None, genrefn: Some(CardEffect::UncoverAdjacent) },
        76 => ListCard { id: 76, letter: "h", cost: 3, purchase_giveables: GIVEABLE::NONE, giveables: GIVEABLE::VP(1), genre_giveables: GIVEABLE::VP(1), trash: GIVEABLE::NONE, genre: Genre::MYSTERY, rotated: false, giveablefn: Some(CardEffect::LockupOffer), genrefn: None },
        77 => ListCard { id: 77, letter: "i", cost: 5, purchase_giveables: GIVEABLE::NONE, giveables: GIVEABLE::COIN(2), genre_giveables: GIVEABLE::NONE, trash: GIVEABLE::NONE, genre: Genre::MYSTERY, rotated: false, giveablefn: Some(CardEffect::UncoverAdjacent), genrefn: None },
        78 => ListCard { id: 78, letter: "j", cost: 8, purchase_giveables: GIVEABLE::NONE, giveables: GIVEABLE::VP(5), genre_giveables: GIVEABLE::VP(2), trash: GIVEABLE::NONE, genre: Genre::MYSTERY, rotated: false, giveablefn: Some(CardEffect::UncoverAdjacent), genrefn: None },
        79 => ListCard { id: 79, letter: "k", cost: 2, purchase_giveables: GIVEABLE::NONE, giveables: GIVEABLE::VP(1), genre_giveables: GIVEABLE::VP(1), trash: GIVEABLE::NONE, genre: Genre::MYSTERY, rotated: false, giveablefn: None, genrefn: Some(CardEffect::UncoverAdjacent) },
        80 => ListCard { id: 80, letter: "l", cost: 6, purchase_giveables: GIVEABLE::NONE, giveables: GIVEABLE::COIN(2), genre_giveables: GIVEABLE::COIN(2), trash: GIVEABLE::NONE, genre: Genre::MYSTERY, rotated: false, giveablefn: None, genrefn: Some(CardEffect::UncoverAdjacent) },
        81 => ListCard { id: 81, letter: "m", cost: 3, purchase_giveables: GIVEABLE::NONE, giveables: GIVEABLE::COIN(1), genre_giveables: GIVEABLE::COIN(1), trash: GIVEABLE::NONE, genre: Genre::MYSTERY, rotated: false, giveablefn: Some(CardEffect::UncoverAdjacent), genrefn: None },
        82 => ListCard { id: 82, letter: "n", cost: 7, purchase_giveables: GIVEABLE::NONE, giveables: GIVEABLE::VP(3), genre_giveables: GIVEABLE::VP(1), trash: GIVEABLE::NONE, genre: Genre::MYSTERY, rotated: false, giveablefn: None, genrefn: Some(CardEffect::OneVpPerWild) },
        83 => ListCard { id: 83, letter: "o", cost: 3, purchase_giveables: GIVEABLE::NONE, giveables: GIVEABLE::VP(1), genre_giveables: GIVEABLE::NONE, trash: GIVEABLE::NONE, genre: Genre::MYSTERY, rotated: false, giveablefn: Some(CardEffect::LockupOffer), genrefn: Some(CardEffect::UncoverAdjacent) },
        84 => ListCard { id: 84, letter: "p", cost: 4, purchase_giveables: GIVEABLE::NONE, giveables: GIVEABLE::COIN(1), genre_giveables: GIVEABLE::COIN(2), trash: GIVEABLE::NONE, genre: Genre::MYSTERY, rotated: false, giveablefn: Some(CardEffect::UncoverAdjacent), genrefn: None },
        85 => ListCard { id: 85, letter: "q", cost: 3, purchase_giveables: GIVEABLE::NONE, giveables: GIVEABLE::VP(2), genre_giveables: GIVEABLE::VP(2), trash: GIVEABLE::NONE, genre: Genre::MYSTERY, rotated: false, giveablefn: None, genrefn: Some(CardEffect::UncoverAdjacent) },
        86 => ListCard { id: 86, letter: "r", cost: 4, purchase_giveables: GIVEABLE::NONE, giveables: GIVEABLE::COIN(1), genre_giveables: GIVEABLE::COIN(2), trash: GIVEABLE::NONE, genre: Genre::MYSTERY, rotated: false, giveablefn: None, genrefn: Some(CardEffect::UncoverAdjacent) },
        87 => ListCard { id: 87, letter: "s", cost: 4, purchase_giveables: GIVEABLE::NONE, giveables: GIVEABLE::COIN(1), genre_giveables: GIVEABLE::COIN(2), trash: GIVEABLE::NONE, genre: Genre::MYSTERY, rotated: false, giveablefn: Some(CardEffect::LockupOffer), genrefn: None },
        88 => ListCard { id: 88, letter: "t", cost: 6, purchase_giveables: GIVEABLE::NONE, giveables: GIVEABLE::VP(2), genre_giveables: GIVEABLE::VP(2), trash: GIVEABLE::NONE, genre: Genre::MYSTERY, rotated: false, giveablefn: Some(CardEffect::UncoverAdjacent), genrefn: None },
        89 => ListCard { id: 89, letter: "u", cost: 2, purchase_giveables: GIVEABLE::NONE, giveables: GIVEABLE::COIN(1), genre_giveables: GIVEABLE::COIN(1), trash: GIVEABLE::NONE, genre: Genre::MYSTERY, rotated: false, giveablefn: None, genrefn: Some(CardEffect::UncoverAdjacent) },
        90 => ListCard { id: 90, letter: "v", cost: 9, purchase_giveables: GIVEABLE::NONE, giveables: GIVEABLE::VP(4), genre_giveables: GIVEABLE::VP(4), trash: GIVEABLE::NONE, genre: Genre::MYSTERY, rotated: false, giveablefn: Some(CardEffect::UncoverAdjacent), genrefn: None },
        91 => ListCard { id: 91, letter: "w", cost: 4, purchase_giveables: GIVEABLE::NONE, giveables: GIVEABLE::COIN(2), genre_giveables: GIVEABLE::COIN(2), trash: GIVEABLE::NONE, genre: Genre::MYSTERY, rotated: false, giveablefn: None, genrefn: Some(CardEffect::UncoverAdjacent) },
        92 => ListCard { id: 92, letter: "x", cost: 3, purchase_giveables: GIVEABLE::NONE, giveables: GIVEABLE::VP(3), genre_giveables: GIVEABLE::NONE, trash: GIVEABLE::NONE, genre: Genre::MYSTERY, rotated: false, giveablefn: Some(CardEffect::LockupOffer), genrefn: None },
        93 => ListCard { id: 93, letter: "y", cost: 7, purchase_giveables: GIVEABLE::NONE, giveables: GIVEABLE::VP(4), genre_giveables: GIVEABLE::VP(2), trash: GIVEABLE::NONE, genre: Genre::MYSTERY, rotated: false, giveablefn: None, genrefn: Some(CardEffect::UncoverAdjacent) },
        94 => ListCard { id: 94, letter: "z", cost: 5, purchase_giveables: GIVEABLE::NONE, giveables: GIVEABLE::VP(3), genre_giveables: GIVEABLE::VP(2), trash: GIVEABLE::NONE, genre: Genre::MYSTERY, rotated: false, giveablefn: None, genrefn: Some(CardEffect::UncoverAdjacent) },
        95 => ListCard { id: 95, letter: "i", cost: 3, purchase_giveables: GIVEABLE::NONE, giveables: GIVEABLE::VP(2), genre_giveables: GIVEABLE::NONE, trash: GIVEABLE::NONE, genre: Genre::MYSTERY, rotated: false, giveablefn: None, genrefn: Some(CardEffect::LockupOffer) },
        96 => ListCard { id: 96, letter: "a", cost: 5, purchase_giveables: GIVEABLE::NONE, giveables: GIVEABLE::COIN(2), genre_giveables: GIVEABLE::COIN(1), trash: GIVEABLE::NONE, genre: Genre::MYSTERY, rotated: true, giveablefn: None, genrefn: None },
        97 => ListCard { id: 97, letter: "f", cost: 5, purchase_giveables: GIVEABLE::NONE, giveables: GIVEABLE::VP(1), genre_giveables: GIVEABLE::VP(1), trash: GIVEABLE::NONE, genre: Genre::MYSTERY, rotated: false, giveablefn: Some(CardEffect::LockupOffer), genrefn: None },
        98 => ListCard { id: 98, letter: "m", cost: 4, purchase_giveables: GIVEABLE::NONE, giveables: GIVEABLE::COIN(1), genre_giveables: GIVEABLE::COIN(1), trash: GIVEABLE::NONE, genre: Genre::MYSTERY, rotated: true, giveablefn: None, genrefn: Some(CardEffect::LockupOffer) },
        99 => ListCard { id: 99, letter: "k", cost: 4, purchase_giveables: GIVEABLE::NONE, giveables: GIVEABLE::COIN(2), genre_giveables: GIVEABLE::COIN(2), trash: GIVEABLE::NONE, genre: Genre::MYSTERY, rotated: false, giveablefn: Some(CardEffect::UncoverAdjacent), genrefn: None },
        100 => ListCard { id: 100, letter: "q", cost: 5, purchase_giveables: GIVEABLE::NONE, giveables: GIVEABLE::VP(2), genre_giveables: GIVEABLE::VP(3), trash: GIVEABLE::NONE, genre: Genre::MYSTERY, rotated: false, giveablefn: Some(CardEffect::UncoverAdjacent), genrefn: None },
        101 => ListCard { id: 101, letter: "t", cost: 8, purchase_giveables: GIVEABLE::NONE, giveables: GIVEABLE::VP(2), genre_giveables: GIVEABLE::VP(2), trash: GIVEABLE::NONE, genre: Genre::MYSTERY, rotated: true, giveablefn: None, genrefn: Some(CardEffect::LockupOffer) },
        102 => ListCard { id: 102, letter: "r", cost: 6, purchase_giveables: GIVEABLE::NONE, giveables: GIVEABLE::VP(2), genre_giveables: GIVEABLE::VP(1), trash: GIVEABLE::NONE, genre: Genre::MYSTERY, rotated: false, giveablefn: Some(CardEffect::UncoverAdjacent), genrefn: Some(CardEffect::LockupOffer) },
        103 => ListCard { id: 103, letter: "p", cost: 2, purchase_giveables: GIVEABLE::NONE, giveables: GIVEABLE::COIN(1), genre_giveables: GIVEABLE::COIN(1), trash: GIVEABLE::NONE, genre: Genre::MYSTERY, rotated: false, giveablefn: None, genrefn: Some(CardEffect::LockupOffer) },
        104 => ListCard { id: 104, letter: "a", cost: 3, purchase_giveables: GIVEABLE::NONE, giveables: GIVEABLE::VP(1), genre_giveables: GIVEABLE::NONE, trash: GIVEABLE::NONE, genre: Genre::MYSTERY, rotated: false, giveablefn: Some(CardEffect::UncoverAdjacent), genrefn: None },
        105 => ListCard { id: 105, letter: "z", cost: 5, purchase_giveables: GIVEABLE::NONE, giveables: GIVEABLE::COIN(2), genre_giveables: GIVEABLE::COIN(2), trash: GIVEABLE::NONE, genre: Genre::ROMANCE, rotated: false, giveablefn: Some(CardEffect::DoubleAdjacent), genrefn: None },
        106 => ListCard { id: 106, letter: "w", cost: 4, purchase_giveables: GIVEABLE::NONE, giveables: GIVEABLE::VP(1), genre_giveables: GIVEABLE::VP(1), trash: GIVEABLE::NONE, genre: Genre::ROMANCE, rotated: false, giveablefn: Some(CardEffect::TrashOther), genrefn: Some(CardEffect::DoubleAdjacent) },
        107 => ListCard { id: 107, letter: "v", cost: 3, purchase_giveables: GIVEABLE::NONE, giveables: GIVEABLE::VP(2), genre_giveables: GIVEABLE::VP(1), trash: GIVEABLE::NONE, genre: Genre::ROMANCE, rotated: false, giveablefn: None, genrefn: Some(CardEffect::TrashOther) },
        108 => ListCard { id: 108, letter: "u", cost: 9, purchase_giveables: GIVEABLE::NONE, giveables: GIVEABLE::VP(5), genre_giveables: GIVEABLE::VP(1), trash: GIVEABLE::NONE, genre: Genre::ROMANCE, rotated: false, giveablefn: None, genrefn: Some(CardEffect::DoubleAdjacent) },
        109 => ListCard { id: 109, letter: "t", cost: 3, purchase_giveables: GIVEABLE::NONE, giveables: GIVEABLE::COIN(1), genre_giveables: GIVEABLE::COIN(1), trash: GIVEABLE::NONE, genre: Genre::ROMANCE, rotated: false, giveablefn: None, genrefn: Some(CardEffect::TrashOther) },
        110 => ListCard { id: 110, letter: "s", cost: 4, purchase_giveables: GIVEABLE::NONE, giveables: GIVEABLE::VP(1), genre_giveables: GIVEABLE::VP(1), trash: GIVEABLE::NONE, genre: Genre::ROMANCE, rotated: false, giveablefn: Some(CardEffect::TrashOther), genrefn: None },
        111 => ListCard { id: 111, letter: "r", cost: 5, purchase_giveables: GIVEABLE::NONE, giveables: GIVEABLE::VP(2), genre_giveables: GIVEABLE::VP(1), trash: GIVEABLE::NONE, genre: Genre::ROMANCE, rotated: false, giveablefn: None, genrefn: Some(CardEffect::KeepOrDiscardThree) },
        112 => ListCard { id: 112, letter: "q", cost: 4, purchase_giveables: GIVEABLE::NONE, giveables: GIVEABLE::VP(2), genre_giveables: GIVEABLE::VP(2), trash: GIVEABLE::NONE, genre: Genre::ROMANCE, rotated: false, giveablefn: Some(CardEffect::TrashOther), genrefn: None },
        113 => ListCard { id: 113, letter: "p", cost: 6, purchase_giveables: GIVEABLE::NONE, giveables: GIVEABLE::VP(2), genre_giveables: GIVEABLE::VP(1), trash: GIVEABLE::NONE, genre: Genre::ROMANCE, rotated: false, giveablefn: None, genrefn: Some(CardEffect::DoubleAdjacent) },
        114 => ListCard { id: 114, letter: "o", cost: 4, purchase_giveables: GIVEABLE::NONE, giveables: GIVEABLE::COIN(2), genre_giveables: GIVEABLE::NONE, trash: GIVEABLE::NONE, genre: Genre::ROMANCE, rotated: false, giveablefn: None, genrefn: Some(CardEffect::DoubleAdjacent) },
        115 => ListCard { id: 115, letter: "n", cost: 2, purchase_giveables: GIVEABLE::NONE, giveables: GIVEABLE::VP(1), genre_giveables: GIVEABLE::NONE, trash: GIVEABLE::NONE, genre: Genre::ROMANCE, rotated: false, giveablefn: None, genrefn: Some(CardEffect::TrashOther) },
        116 => ListCard { id: 116, letter: "m", cost: 2, purchase_giveables: GIVEABLE::NONE, giveables: GIVEABLE::COIN(1), genre_giveables: GIVEABLE::NONE, trash: GIVEABLE::NONE, genre: Genre::ROMANCE, rotated: false, giveablefn: Some(CardEffect::TrashOther), genrefn: None },
        117 => ListCard { id: 117, letter: "l", cost: 8, purchase_giveables: GIVEABLE::NONE, giveables: GIVEABLE::VP(3), genre_giveables: GIVEABLE::VP(2), trash: GIVEABLE::NONE, genre: Genre::ROMANCE, rotated: false, giveablefn: None, genrefn: Some(CardEffect::DoubleAdjacent) },
        118 => ListCard { id: 118, letter: "k", cost: 3, purchase_giveables: GIVEABLE::NONE, giveables: GIVEABLE::COIN(2), genre_giveables: GIVEABLE::COIN(1), trash: GIVEABLE::NONE, genre: Genre::ROMANCE, rotated: false, giveablefn: None, genrefn: Some(CardEffect::TrashOther) },
        119 => ListCard { id: 119, letter: "j", cost: 6, purchase_giveables: GIVEABLE::NONE, giveables: GIVEABLE::COIN(2), genre_giveables: GIVEABLE::COIN(2), trash: GIVEABLE::NONE, genre: Genre::ROMANCE, rotated: false, giveablefn: Some(CardEffect::DoubleAdjacent), genrefn: Some(CardEffect::TrashOther) },
        120 => ListCard { id: 120, letter: "i", cost: 2, purchase_giveables: GIVEABLE::NONE, giveables: GIVEABLE::COIN(1), genre_giveables: GIVEABLE::COIN(1), trash: GIVEABLE::NONE, genre: Genre::ROMANCE, rotated: false, giveablefn: None, genrefn: None },
        121 => ListCard { id: 121, letter: "h", cost: 3, purchase_giveables: GIVEABLE::NONE, giveables: GIVEABLE::COIN(1), genre_giveables: GIVEABLE::COIN(1), trash: GIVEABLE::NONE, genre: Genre::ROMANCE, rotated: false, giveablefn: Some(CardEffect::TrashOther), genrefn: None },
        122 => ListCard { id: 122, letter: "g", cost: 3, purchase_giveables: GIVEABLE::NONE, giveables: GIVEABLE::VP(1), genre_giveables: GIVEABLE::VP(1), trash: GIVEABLE::NONE, genre: Genre::ROMANCE, rotated: false, giveablefn: Some(CardEffect::TrashOther), genrefn: None },
        123 => ListCard { id: 123, letter: "f", cost: 4, purchase_giveables: GIVEABLE::NONE, giveables: GIVEABLE::VP(2), genre_giveables: GIVEABLE::VP(1), trash: GIVEABLE::NONE, genre: Genre::ROMANCE, rotated: false, giveablefn: Some(CardEffect::TrashOther), genrefn: None },
        124 => ListCard { id: 124, letter: "e", cost: 6, purchase_giveables: GIVEABLE::NONE, giveables: GIVEABLE::VP(3), genre_giveables: GIVEABLE::NONE, trash: GIVEABLE::NONE, genre: Genre::ROMANCE, rotated: false, giveablefn: None, genrefn: Some(CardEffect::TrashOther) },
        125 => ListCard { id: 125, letter: "d", cost: 4, purchase_giveables: GIVEABLE::NONE, giveables: GIVEABLE::COIN(2), genre_giveables: GIVEABLE::NONE, trash: GIVEABLE::NONE, genre: Genre::ROMANCE, rotated: false, giveablefn: None, genrefn: Some(CardEffect::DoubleAdjacent) },
        126 => ListCard { id: 126, letter: "c", cost: 3, purchase_giveables: GIVEABLE::NONE, giveables: GIVEABLE::VP(2), genre_giveables: GIVEABLE::NONE, trash: GIVEABLE::NONE, genre: Genre::ROMANCE, rotated: false, giveablefn: None, genrefn: Some(CardEffect::TrashOther) },
        127 => ListCard { id: 127, letter: "b", cost: 3, purchase_giveables: GIVEABLE::NONE, giveables: GIVEABLE::COIN(2), genre_giveables: GIVEABLE::NONE, trash: GIVEABLE::NONE, genre: Genre::ROMANCE, rotated: false, giveablefn: Some(CardEffect::DoubleAdjacent), genrefn: None },
        128 => ListCard { id: 128, letter: "a", cost: 4, purchase_giveables: GIVEABLE::NONE, giveables: GIVEABLE::COIN(1), genre_giveables: GIVEABLE::COIN(1), trash: GIVEABLE::NONE, genre: Genre::ROMANCE, rotated: false, giveablefn: Some(CardEffect::TrashOther), genrefn: None },
        129 => ListCard { id: 129, letter: "b", cost: 5, purchase_giveables: GIVEABLE::NONE, giveables: GIVEABLE::COIN(1), genre_giveables: GIVEABLE::COIN(1), trash: GIVEABLE::NONE, genre: Genre::ROMANCE, rotated: true, giveablefn: None, genrefn: Some(CardEffect::TrashOther) },
        130 => ListCard { id: 130, letter: "e", cost: 2, purchase_giveables: GIVEABLE::NONE, giveables: GIVEABLE::COIN(1), genre_giveables: GIVEABLE::COIN(1), trash: GIVEABLE::NONE, genre: Genre::ROMANCE, rotated: false, giveablefn: None, genrefn: None },
        131 => ListCard { id: 131, letter: "f", cost: 6, purchase_giveables: GIVEABLE::NONE, giveables: GIVEABLE::COIN(2), genre_giveables: GIVEABLE::COIN(1), trash: GIVEABLE::NONE, genre: Genre::ROMANCE, rotated: false, giveablefn: Some(CardEffect::DoubleAdjacent), genrefn: Some(CardEffect::TrashOther) },
        132 => ListCard { id: 132, letter: "h", cost: 7, purchase_giveables: GIVEABLE::NONE, giveables: GIVEABLE::VP(3), genre_giveables: GIVEABLE::VP(2), trash: GIVEABLE::NONE, genre: Genre::ROMANCE, rotated: false, giveablefn: None, genrefn: Some(CardEffect::DoubleAdjacent) },
        133 => ListCard { id: 133, letter: "k", cost: 5, purchase_giveables: GIVEABLE::NONE, giveables: GIVEABLE::COIN(1), genre_giveables: GIVEABLE::COIN(1), trash: GIVEABLE::NONE, genre: Genre::ROMANCE, rotated: true, giveablefn: None, genrefn: Some(CardEffect::TrashOther) },
        134 => ListCard { id: 134, letter: "n", cost: 5, purchase_giveables: GIVEABLE::NONE, giveables: GIVEABLE::COIN(2), genre_giveables: GIVEABLE::COIN(1), trash: GIVEABLE::NONE, genre: Genre::ROMANCE, rotated: false, giveablefn: Some(CardEffect::TrashOther), genrefn: None },
        135 => ListCard { id: 135, letter: "o", cost: 8, purchase_giveables: GIVEABLE::NONE, giveables: GIVEABLE::VPCOIN(1,2), genre_giveables: GIVEABLE::VPCOIN(1,1), trash: GIVEABLE::NONE, genre: Genre::ROMANCE, rotated: true, giveablefn: None, genrefn: None },
        136 => ListCard { id: 136, letter: "r", cost: 5, purchase_giveables: GIVEABLE::NONE, giveables: GIVEABLE::VP(2), genre_giveables: GIVEABLE::NONE, trash: GIVEABLE::NONE, genre: Genre::ROMANCE, rotated: true, giveablefn: None, genrefn: Some(CardEffect::TrashOther) },
        137 => ListCard { id: 137, letter: "z", cost: 4, purchase_giveables: GIVEABLE::NONE, giveables: GIVEABLE::VP(2), genre_giveables: GIVEABLE::VP(2), trash: GIVEABLE::NONE, genre: Genre::ROMANCE, rotated: false, giveablefn: Some(CardEffect::TrashOther), genrefn: None },
        138 => ListCard { id: 138, letter: "y", cost: 4, purchase_giveables: GIVEABLE::NONE, giveables: GIVEABLE::VP(1), genre_giveables: GIVEABLE::NONE, trash: GIVEABLE::NONE, genre: Genre::ROMANCE, rotated: false, giveablefn: Some(CardEffect::DoubleAdjacent), genrefn: Some(CardEffect::TrashOther) },
        139 => ListCard { id: 139, letter: "x", cost: 7, purchase_giveables: GIVEABLE::NONE, giveables: GIVEABLE::VP(4), genre_giveables: GIVEABLE::VP(2), trash: GIVEABLE::NONE, genre: Genre::ROMANCE, rotated: false, giveablefn: Some(CardEffect::TrashOther), genrefn: None },
        140 => ListCard { id: 140, letter: "a", cost: 0, purchase_giveables: GIVEABLE::NONE, giveables: GIVEABLE::COIN(1), genre_giveables: GIVEABLE::NONE, trash: GIVEABLE::NONE, genre: Genre::NONE, rotated: false, giveablefn: None, genrefn: None },
        141 => ListCard { id: 141, letter: "a", cost: 0, purchase_giveables: GIVEABLE::NONE, giveables: GIVEABLE::COIN(1), genre_giveables: GIVEABLE::NONE, trash: GIVEABLE::NONE, genre: Genre::NONE, rotated: false, giveablefn: None, genrefn: None },
        142 => ListCard { id: 142, letter: "c", cost: 0, purchase_giveables: GIVEABLE::NONE, giveables: GIVEABLE::VP(1), genre_giveables: GIVEABLE::NONE, trash: GIVEABLE::NONE, genre: Genre::NONE, rotated: false, giveablefn: None, genrefn: None },
        143 => ListCard { id: 143, letter: "d", cost: 0, purchase_giveables: GIVEABLE::NONE, giveables: GIVEABLE::VP(1), genre_giveables: GIVEABLE::NONE, trash: GIVEABLE::NONE, genre: Genre::NONE, rotated: false, giveablefn: None, genrefn: None },
        144 => ListCard { id: 144, letter: "e", cost: 0, purchase_giveables: GIVEABLE::NONE, giveables: GIVEABLE::COIN(1), genre_giveables: GIVEABLE::NONE, trash: GIVEABLE::NONE, genre: Genre::NONE, rotated: false, giveablefn: None, genrefn: None },
        145 => ListCard { id: 145, letter: "a", cost: 0, purchase_giveables: GIVEABLE::NONE, giveables: GIVEABLE::COIN(1), genre_giveables: GIVEABLE::NONE, trash: GIVEABLE::NONE, genre: Genre::NONE, rotated: false, giveablefn: None, genrefn: None },
        146 => ListCard { id: 146, letter: "g", cost: 0, purchase_giveables: GIVEABLE::NONE, giveables: GIVEABLE::VP(1), genre_giveables: GIVEABLE::NONE, trash: GIVEABLE::NONE, genre: Genre::NONE, rotated: false, giveablefn: None, genrefn: None },
        147 => ListCard { id: 147, letter: "h", cost: 0, purchase_giveables: GIVEABLE::NONE, giveables: GIVEABLE::VP(1), genre_giveables: GIVEABLE::NONE, trash: GIVEABLE::NONE, genre: Genre::NONE, rotated: false, giveablefn: None, genrefn: None },
        148 => ListCard { id: 148, letter: "i", cost: 0, purchase_giveables: GIVEABLE::NONE, giveables: GIVEABLE::COIN(1), genre_giveables: GIVEABLE::NONE, trash: GIVEABLE::NONE, genre: Genre::NONE, rotated: false, giveablefn: None, genrefn: None },
        149 => ListCard { id: 149, letter: "a", cost: 0, purchase_giveables: GIVEABLE::NONE, giveables: GIVEABLE::COIN(1), genre_giveables: GIVEABLE::NONE, trash: GIVEABLE::NONE, genre: Genre::NONE, rotated: false, giveablefn: None, genrefn: None },
        150 => ListCard { id: 150, letter: "e", cost: 0, purchase_giveables: GIVEABLE::NONE, giveables: GIVEABLE::COIN(1), genre_giveables: GIVEABLE::NONE, trash: GIVEABLE::NONE, genre: Genre::NONE, rotated: false, giveablefn: None, genrefn: None },
        151 => ListCard { id: 151, letter: "l", cost: 0, purchase_giveables: GIVEABLE::NONE, giveables: GIVEABLE::COIN(1), genre_giveables: GIVEABLE::NONE, trash: GIVEABLE::NONE, genre: Genre::NONE, rotated: false, giveablefn: None, genrefn: None },
        152 => ListCard { id: 152, letter: "m", cost: 0, purchase_giveables: GIVEABLE::NONE, giveables: GIVEABLE::VP(1), genre_giveables: GIVEABLE::NONE, trash: GIVEABLE::NONE, genre: Genre::NONE, rotated: false, giveablefn: None, genrefn: None },
        153 => ListCard { id: 153, letter: "n", cost: 0, purchase_giveables: GIVEABLE::NONE, giveables: GIVEABLE::COIN(1), genre_giveables: GIVEABLE::NONE, trash: GIVEABLE::NONE, genre: Genre::NONE, rotated: false, giveablefn: None, genrefn: None },
        154 => ListCard { id: 154, letter: "o", cost: 0, purchase_giveables: GIVEABLE::NONE, giveables: GIVEABLE::VP(1), genre_giveables: GIVEABLE::NONE, trash: GIVEABLE::NONE, genre: Genre::NONE, rotated: false, giveablefn: None, genrefn: None },
        155 => ListCard { id: 155, letter: "p", cost: 0, purchase_giveables: GIVEABLE::NONE, giveables: GIVEABLE::VP(1), genre_giveables: GIVEABLE::NONE, trash: GIVEABLE::NONE, genre: Genre::NONE, rotated: false, giveablefn: None, genrefn: None },
        156 => ListCard { id: 156, letter: "e", cost: 0, purchase_giveables: GIVEABLE::NONE, giveables: GIVEABLE::COIN(1), genre_giveables: GIVEABLE::NONE, trash: GIVEABLE::NONE, genre: Genre::NONE, rotated: false, giveablefn: None, genrefn: None },
        157 => ListCard { id: 157, letter: "r", cost: 0, purchase_giveables: GIVEABLE::NONE, giveables: GIVEABLE::COIN(1), genre_giveables: GIVEABLE::NONE, trash: GIVEABLE::NONE, genre: Genre::NONE, rotated: false, giveablefn: None, genrefn: None },
        158 => ListCard { id: 158, letter: "s", cost: 0, purchase_giveables: GIVEABLE::NONE, giveables: GIVEABLE::COIN(1), genre_giveables: GIVEABLE::NONE, trash: GIVEABLE::NONE, genre: Genre::NONE, rotated: false, giveablefn: None, genrefn: None },
        159 => ListCard { id: 159, letter: "t", cost: 0, purchase_giveables: GIVEABLE::NONE, giveables: GIVEABLE::COIN(1), genre_giveables: GIVEABLE::NONE, trash: GIVEABLE::NONE, genre: Genre::NONE, rotated: false, giveablefn: None, genrefn: None },
        160 => ListCard { id: 160, letter: "u", cost: 0, purchase_giveables: GIVEABLE::NONE, giveables: GIVEABLE::VP(1), genre_giveables: GIVEABLE::NONE, trash: GIVEABLE::NONE, genre: Genre::NONE, rotated: false, giveablefn: None, genrefn: None },
        161 => ListCard { id: 161, letter: "e", cost: 0, purchase_giveables: GIVEABLE::NONE, giveables: GIVEABLE::COIN(1), genre_giveables: GIVEABLE::NONE, trash: GIVEABLE::NONE, genre: Genre::NONE, rotated: false, giveablefn: None, genrefn: None },
        162 => ListCard { id: 162, letter: "i", cost: 0, purchase_giveables: GIVEABLE::NONE, giveables: GIVEABLE::COIN(1), genre_giveables: GIVEABLE::NONE, trash: GIVEABLE::NONE, genre: Genre::NONE, rotated: false, giveablefn: None, genrefn: None },
        163 => ListCard { id: 163, letter: "i", cost: 0, purchase_giveables: GIVEABLE::NONE, giveables: GIVEABLE::COIN(1), genre_giveables: GIVEABLE::NONE, trash: GIVEABLE::NONE, genre: Genre::NONE, rotated: false, giveablefn: None, genrefn: None },
        164 => ListCard { id: 164, letter: "i", cost: 0, purchase_giveables: GIVEABLE::NONE, giveables: GIVEABLE::COIN(1), genre_giveables: GIVEABLE::NONE, trash: GIVEABLE::NONE, genre: Genre::NONE, rotated: false, giveablefn: None, genrefn: None },
        165 => ListCard { id: 165, letter: "l", cost: 0, purchase_giveables: GIVEABLE::NONE, giveables: GIVEABLE::COIN(1), genre_giveables: GIVEABLE::NONE, trash: GIVEABLE::NONE, genre: Genre::NONE, rotated: false, giveablefn: None, genrefn: None },
        166 => ListCard { id: 166, letter: "l", cost: 0, purchase_giveables: GIVEABLE::NONE, giveables: GIVEABLE::COIN(1), genre_giveables: GIVEABLE::NONE, trash: GIVEABLE::NONE, genre: Genre::NONE, rotated: false, giveablefn: None, genrefn: None },
        167 => ListCard { id: 167, letter: "l", cost: 0, purchase_giveables: GIVEABLE::NONE, giveables: GIVEABLE::COIN(1), genre_giveables: GIVEABLE::NONE, trash: GIVEABLE::NONE, genre: Genre::NONE, rotated: false, giveablefn: None, genrefn: None },
        168 => ListCard { id: 168, letter: "n", cost: 0, purchase_giveables: GIVEABLE::NONE, giveables: GIVEABLE::COIN(1), genre_giveables: GIVEABLE::NONE, trash: GIVEABLE::NONE, genre: Genre::NONE, rotated: false, giveablefn: None, genrefn: None },
        169 => ListCard { id: 169, letter: "n", cost: 0, purchase_giveables: GIVEABLE::NONE, giveables: GIVEABLE::COIN(1), genre_giveables: GIVEABLE::NONE, trash: GIVEABLE::NONE, genre: Genre::NONE, rotated: false, giveablefn: None, genrefn: None },
        170 => ListCard { id: 170, letter: "n", cost: 0, purchase_giveables: GIVEABLE::NONE, giveables: GIVEABLE::COIN(1), genre_giveables: GIVEABLE::NONE, trash: GIVEABLE::NONE, genre: Genre::NONE, rotated: false, giveablefn: None, genrefn: None },
        171 => ListCard { id: 171, letter: "r", cost: 0, purchase_giveables: GIVEABLE::NONE, giveables: GIVEABLE::COIN(1), genre_giveables: GIVEABLE::NONE, trash: GIVEABLE::NONE, genre: Genre::NONE, rotated: false, giveablefn: None, genrefn: None },
        172 => ListCard { id: 172, letter: "r", cost: 0, purchase_giveables: GIVEABLE::NONE, giveables: GIVEABLE::COIN(1), genre_giveables: GIVEABLE::NONE, trash: GIVEABLE::NONE, genre: Genre::NONE, rotated: false, giveablefn: None, genrefn: None },
        173 => ListCard { id: 173, letter: "r", cost: 0, purchase_giveables: GIVEABLE::NONE, giveables: GIVEABLE::COIN(1), genre_giveables: GIVEABLE::NONE, trash: GIVEABLE::NONE, genre: Genre::NONE, rotated: false, giveablefn: None, genrefn: None },
        174 => ListCard { id: 174, letter: "s", cost: 0, purchase_giveables: GIVEABLE::NONE, giveables: GIVEABLE::COIN(1), genre_giveables: GIVEABLE::NONE, trash: GIVEABLE::NONE, genre: Genre::NONE, rotated: false, giveablefn: None, genrefn: None },
        175 => ListCard { id: 175, letter: "s", cost: 0, purchase_giveables: GIVEABLE::NONE, giveables: GIVEABLE::COIN(1), genre_giveables: GIVEABLE::NONE, trash: GIVEABLE::NONE, genre: Genre::NONE, rotated: false, giveablefn: None, genrefn: None },
        176 => ListCard { id: 176, letter: "s", cost: 0, purchase_giveables: GIVEABLE::NONE, giveables: GIVEABLE::COIN(1), genre_giveables: GIVEABLE::NONE, trash: GIVEABLE::NONE, genre: Genre::NONE, rotated: false, giveablefn: None, genrefn: None },
        177 => ListCard { id: 177, letter: "t", cost: 0, purchase_giveables: GIVEABLE::NONE, giveables: GIVEABLE::COIN(1), genre_giveables: GIVEABLE::NONE, trash: GIVEABLE::NONE, genre: Genre::NONE, rotated: false, giveablefn: None, genrefn: None },
        178 => ListCard { id: 178, letter: "t", cost: 0, purchase_giveables: GIVEABLE::NONE, giveables: GIVEABLE::COIN(1), genre_giveables: GIVEABLE::NONE, trash: GIVEABLE::NONE, genre: Genre::NONE, rotated: false, giveablefn: None, genrefn: None },
        179 => ListCard { id: 179, letter: "t", cost: 0, purchase_giveables: GIVEABLE::NONE, giveables: GIVEABLE::COIN(1), genre_giveables: GIVEABLE::NONE, trash: GIVEABLE::NONE, genre: Genre::NONE, rotated: false, giveablefn: None, genrefn: None },
        _ => ListCard { id: 0, letter: "a", cost: 0, purchase_giveables: GIVEABLE::NONE, giveables: GIVEABLE::NONE, genre_giveables: GIVEABLE::NONE, trash: GIVEABLE::NONE, genre: Genre::NONE, rotated: false, giveablefn: None, genrefn: None },
    }
}

/// Whether `s` is the whole card table, indexed by card id.
pub open spec fn is_card_table(s: Seq<ListCard>) -> bool {
    &&& s.len() == NUM_CARDS
    &&& forall|i: int| 0 <= i < NUM_CARDS ==> #[trigger] s[i] == card_spec(i as usize)
}

/// The whole card table, indexed by card id.
pub fn populate() -> (cards: Vec<ListCard>)
    ensures
        is_card_table(cards@),
{
    let mut cards: Vec<ListCard> = Vec::new();
    let mut i: usize = 0;
    while i < NUM_CARDS
        invariant
            i <= NUM_CARDS,
            cards@.len() == i,
            forall|j: int| 0 <= j < i ==> cards@[j] == card_spec(j as usize),
        decreases NUM_CARDS - i,
    {
        cards.push(card_info(i));
        i = i + 1;
    }
    cards
}

/// The victory points a benefit grants outright.
pub open spec fn vp_amount(g: GIVEABLE) -> nat {
    match g {
        GIVEABLE::VP(x) => x as nat,
        GIVEABLE::VPCOIN(x, _) => x as nat,
        GIVEABLE::VPINK(x) => x as nat,
        _ => 0,
    }
}

/// The coins a benefit grants outright.
pub open spec fn coin_amount(g: GIVEABLE) -> nat {
    match g {
        GIVEABLE::COIN(x) => x as nat,
        GIVEABLE::VPCOIN(_, x) => x as nat,
        GIVEABLE::COININK(x) => x as nat,
        _ => 0,
    }
}

/// No benefit of the table grants more than five victory points or five coins at once.
pub proof fn lemma_table_amounts(i: usize)
    requires
        i < NUM_CARDS,
    ensures
        vp_amount(card_spec(i).giveables) <= 5,
        coin_amount(card_spec(i).giveables) <= 5,
        vp_amount(card_spec(i).genre_giveables) <= 5,
        coin_amount(card_spec(i).genre_giveables) <= 5,
        vp_amount(card_spec(i).purchase_giveables) <= 5,
        coin_amount(card_spec(i).purchase_giveables) <= 5,
{
}

/// Every card id is its position in the table.
pub proof fn lemma_ids_are_positions(i: usize)
    requires
        i < NUM_CARDS,
    ensures
        card_spec(i).id == i,
{
}

} // verus!
