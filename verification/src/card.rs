//! Cards: suits, ranks, colors, facing, and the 52 face identities.

use vstd::prelude::*;

verus! {

/// The color of a suit: Spades and Clubs are black, Hearts and Diamonds red.
#[derive(Debug, Copy, Clone, Eq, PartialEq, Structural)]
pub enum Color {
    Black,
    Red,
}

/// Whether a card currently shows its face or its back.
#[derive(Debug, Copy, Clone, Eq, PartialEq, Structural)]
pub enum Facing {
    FaceDown,
    FaceUp,
}

impl Facing {
    /// The opposite facing.
    pub open spec fn spec_reversed(self) -> Facing {
        match self {
            Facing::FaceDown => Facing::FaceUp,
            Facing::FaceUp => Facing::FaceDown,
        }
    }

    pub fn reversed(self) -> (r: Self)
        ensures
            r == self.spec_reversed(),
    {
        match self {
            Self::FaceDown => Self::FaceUp,
            Self::FaceUp => Self::FaceDown,
        }
    }
}

/// The thirteen ranks, Ace low through King high.
#[derive(Debug, Copy, Clone, Eq, PartialEq, Structural)]
pub enum Rank {
    Ace,
    Two,
    Three,
    Four,
    Five,
    Six,
    Seven,
    Eight,
    Nine,
    Ten,
    Jack,
    Queen,
    King,
}

/// The position of a rank in the Ace..King order, as a number in 0..13.
pub open spec fn rank_index(r: Rank) -> int {
    match r {
        Rank::Ace => 0,
        Rank::Two => 1,
        Rank::Three => 2,
        Rank::Four => 3,
        Rank::Five => 4,
        Rank::Six => 5,
        Rank::Seven => 6,
        Rank::Eight => 7,
        Rank::Nine => 8,
        Rank::Ten => 9,
        Rank::Jack => 10,
        Rank::Queen => 11,
        Rank::King => 12,
    }
}

/// The rank at a given position of the Ace..King order.
pub open spec fn rank_at(i: int) -> Rank {
    if i == 0 {
        Rank::Ace
    } else if i == 1 {
        Rank::Two
    } else if i == 2 {
        Rank::Three
    } else if i == 3 {
        Rank::Four
    } else if i == 4 {
        Rank::Five
    } else if i == 5 {
        Rank::Six
    } else if i == 6 {
        Rank::Seven
    } else if i == 7 {
        Rank::Eight
    } else if i == 8 {
        Rank::Nine
    } else if i == 9 {
        Rank::Ten
    } else if i == 10 {
        Rank::Jack
    } else if i == 11 {
        Rank::Queen
    } else {
        Rank::King
    }
}

impl Rank {
    /// The rank one step above this one, if any.
    pub open spec fn spec_next(self) -> Option<Rank> {
        if self == Rank::King {
            None
        } else {
            Some(rank_at(rank_index(self) + 1))
        }
    }

    /// Whether `self` is exactly one rank above `other`.
    pub open spec fn spec_follows(self, other: Rank) -> bool {
        rank_index(self) == rank_index(other) + 1
    }

    /// Pair this rank with a suit to form a card face.
    pub fn of(self, suit: Suit) -> (f: CardFace)
        ensures
            f == (CardFace { suit, rank: self }),
    {
        CardFace { suit, rank: self }
    }

    pub fn next(self) -> (r: Option<Self>)
        ensures
            r == self.spec_next(),
    {
        match self {
            Self::Ace => Some(Self::Two),
            Self::Two => Some(Self::Three),
            Self::Three => Some(Self::Four),
            Self::Four => Some(Self::Five),
            Self::Five => Some(Self::Six),
            Self::Six => Some(Self::Seven),
            Self::Seven => Some(Self::Eight),
            Self::Eight => Some(Self::Nine),
            Self::Nine => Some(Self::Ten),
            Self::Ten => Some(Self::Jack),
            Self::Jack => Some(Self::Queen),
            Self::Queen => Some(Self::King),
            Self::King => None,
        }
    }

    pub fn follows(self, other: Rank) -> (r: bool)
        ensures
            r == self.spec_follows(other),
    {
        match other.next() {
            Some(other_next) => self == other_next,
            None => false,
        }
    }
}

/// The four suits.
#[derive(Debug, Copy, Clone, Eq, PartialEq, Structural)]
pub enum Suit {
    Spades,
    Hearts,
    Diamonds,
    Clubs,
}

/// The position of a suit in the Spades, Hearts, Diamonds, Clubs order.
pub open spec fn suit_index(s: Suit) -> int {
    match s {
        Suit::Spades => 0,
        Suit::Hearts => 1,
        Suit::Diamonds => 2,
        Suit::Clubs => 3,
    }
}

/// The suit at a given position of the Spades, Hearts, Diamonds, Clubs order.
pub open spec fn suit_at(i: int) -> Suit {
    if i == 0 {
        Suit::Spades
    } else if i == 1 {
        Suit::Hearts
    } else if i == 2 {
        Suit::Diamonds
    } else {
        Suit::Clubs
    }
}

impl Suit {
    pub open spec fn spec_color(self) -> Color {
        match self {
            Suit::Spades | Suit::Clubs => Color::Black,
            Suit::Hearts | Suit::Diamonds => Color::Red,
        }
    }

    pub fn color(self) -> (c: Color)
        ensures
            c == self.spec_color(),
    {
        match self {
            Self::Spades | Self::Clubs => Color::Black,
            Self::Hearts | Self::Diamonds => Color::Red,
        }
    }
}

/// The immutable identity of a card: its suit and rank. 52 such identities
/// exist; the full deck is their cross product.
#[derive(Debug, Copy, Clone, Eq, PartialEq, Structural)]
pub struct CardFace {
    pub suit: Suit,
    pub rank: Rank,
}

impl CardFace {
    pub fn color(&self) -> (c: Color)
        ensures
            c == self.suit.spec_color(),
    {
        self.suit.color()
    }

    pub fn is_ace(&self) -> (r: bool)
        ensures
            r == (self.rank == Rank::Ace),
    {
        matches!(self.rank, Rank::Ace)
    }

    pub fn is_king(&self) -> (r: bool)
        ensures
            r == (self.rank == Rank::King),
    {
        matches!(self.rank, Rank::King)
    }

    pub fn with_facing(self, facing: Facing) -> (c: Card)
        ensures
            c == (Card { face: self, facing }),
    {
        Card { face: self, facing }
    }

    pub fn face_down(self) -> (c: Card)
        ensures
            c == (Card { face: self, facing: Facing::FaceDown }),
    {
        self.with_facing(Facing::FaceDown)
    }

    pub fn face_up(self) -> (c: Card)
        ensures
            c == (Card { face: self, facing: Facing::FaceUp }),
    {
        self.with_facing(Facing::FaceUp)
    }

    /// The face of the same suit one rank higher, if any.
    pub fn next_in_suit(self) -> (r: Option<Self>)
        ensures
            r == match self.rank.spec_next() {
                Some(rank) => Some(CardFace { rank, suit: self.suit }),
                None => None::<CardFace>,
            },
    {
        match self.rank.next() {
            Some(rank) => Some(Self { rank, ..self }),
            None => None,
        }
    }
}

/// A card: a face identity together with its current facing.
#[derive(Debug, Copy, Clone, Eq, PartialEq, Structural)]
pub struct Card {
    pub face: CardFace,
    pub facing: Facing,
}

/// The card face at a given position of the canonical deck order:
/// suit-major, rank-minor, so position `i` holds rank `i % 13` of suit
/// `i / 13`.
pub open spec fn face_at(i: int) -> CardFace {
    CardFace { suit: suit_at(i / 13), rank: rank_at(i % 13) }
}

impl Card {
    /// A card flipped over: same face, opposite facing.
    pub open spec fn spec_reversed(self) -> Card {
        Card { face: self.face, facing: self.facing.spec_reversed() }
    }

    pub fn suit(&self) -> (s: Suit)
        ensures
            s == self.face.suit,
    {
        self.face.suit
    }

    pub fn rank(&self) -> (r: Rank)
        ensures
            r == self.face.rank,
    {
        self.face.rank
    }

    pub fn color(&self) -> (c: Color)
        ensures
            c == self.face.suit.spec_color(),
    {
        self.face.color()
    }

    pub fn is_ace(&self) -> (r: bool)
        ensures
            r == (self.face.rank == Rank::Ace),
    {
        self.face.is_ace()
    }

    pub fn is_king(&self) -> (r: bool)
        ensures
            r == (self.face.rank == Rank::King),
    {
        self.face.is_king()
    }

    pub fn is_face_down(&self) -> (r: bool)
        ensures
            r == (self.facing == Facing::FaceDown),
    {
        matches!(self.facing, Facing::FaceDown)
    }

    pub fn is_face_up(&self) -> (r: bool)
        ensures
            r == (self.facing == Facing::FaceUp),
    {
        matches!(self.facing, Facing::FaceUp)
    }

    /// Flip this card over in place.
    pub fn reverse(&mut self)
        ensures
            *final(self) == old(self).spec_reversed(),
    {
        self.facing = self.facing.reversed()
    }

    pub fn face_down(self) -> (c: Self)
        ensures
            c == (Card { face: self.face, facing: Facing::FaceDown }),
    {
        Card { face: self.face, facing: Facing::FaceDown }
    }

    pub fn face_up(self) -> (c: Self)
        ensures
            c == (Card { face: self.face, facing: Facing::FaceUp }),
    {
        Card { face: self.face, facing: Facing::FaceUp }
    }

    pub fn reversed(self) -> (c: Self)
        ensures
            c == self.spec_reversed(),
    {
        let mut card = self;
        card.reverse();
        card
    }

    /// All 52 cards in the canonical deck order, each with the given facing.
    pub fn values_with_facing(facing: Facing) -> (v: Vec<Self>)
        ensures
            v@.len() == 52,
            forall|i: int|
                0 <= i < 52 ==> #[trigger] v@[i] == (Card { face: face_at(i), facing }),
    {
        let mut v: Vec<Card> = Vec::new();
        let mut s: usize = 0;
        while s < 4
            invariant
                s <= 4,
                v@.len() == 13 * s,
                forall|i: int|
                    0 <= i < v@.len() ==> #[trigger] v@[i] == (Card { face: face_at(i), facing }),
            decreases 4 - s,
        {
            let suit = match s {
                0 => Suit::Spades,
                1 => Suit::Hearts,
                2 => Suit::Diamonds,
                _ => Suit::Clubs,
            };
            let mut r: usize = 0;
            while r < 13
                invariant
                    s < 4,
                    r <= 13,
                    suit == suit_at(s as int),
                    v@.len() == 13 * s + r,
                    forall|i: int|
                        0 <= i < v@.len() ==> #[trigger] v@[i] == (Card {
                            face: face_at(i),
                            facing,
                        }),
                decreases 13 - r,
            {
                let rank = match r {
                    0 => Rank::Ace,
                    1 => Rank::Two,
                    2 => Rank::Three,
                    3 => Rank::Four,
                    4 => Rank::Five,
                    5 => Rank::Six,
                    6 => Rank::Seven,
                    7 => Rank::Eight,
                    8 => Rank::Nine,
                    9 => Rank::Ten,
                    10 => Rank::Jack,
                    11 => Rank::Queen,
                    _ => Rank::King,
                };
                assert(rank == rank_at(r as int));
                assert((13 * s + r) as int / 13 == s as int && (13 * s + r) as int % 13 == r as int)
                    by (nonlinear_arith)
                    requires
                        s < 4,
                        r < 13,
                ;
                v.push(Card { face: CardFace { suit, rank }, facing });
                r = r + 1;
            }
            s = s + 1;
        }
        v
    }

    pub fn values_face_down() -> (v: Vec<Self>)
        ensures
            v@.len() == 52,
            forall|i: int|
                0 <= i < 52 ==> #[trigger] v@[i] == (Card {
                    face: face_at(i),
                    facing: Facing::FaceDown,
                }),
    {
        Self::values_with_facing(Facing::FaceDown)
    }

    pub fn values_face_up() -> (v: Vec<Self>)
        ensures
            v@.len() == 52,
            forall|i: int|
                0 <= i < 52 ==> #[trigger] v@[i] == (Card {
                    face: face_at(i),
                    facing: Facing::FaceUp,
                }),
    {
        Self::values_with_facing(Facing::FaceUp)
    }
}

} // verus!
