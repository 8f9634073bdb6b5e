use vstd::prelude::*;

verus! {

/// The four suits of a standard deck.
#[derive(Debug, PartialEq, Eq, Structural, Clone, Copy, PartialOrd, Ord, Hash)]
pub enum Suit {
    Spades,
    Hearts,
    Diamonds,
    Clubs,
}

/// The thirteen ranks of a standard deck, from the lowest to the highest.
#[derive(Debug, PartialEq, Eq, Structural, Clone, Copy, PartialOrd, Ord, Hash)]
pub enum Value {
    Two,
    Three,
    Four,
    Five,
    Six,
    Seven,
    Eight,
    Nine,
    Ten,
    Jack,
    Queen,
    King,
    Ace,
}

/// A playing card: a rank and a suit.
#[derive(Debug, PartialEq, Eq, Structural, Clone, Copy, PartialOrd, Ord, Hash)]
pub struct Card {
    pub value: Value,
    pub suit: Suit,
}

/// Points that a rank is worth: its number for Two to Ten, 10 for a face
/// card, and always 11 for an Ace.
pub open spec fn points(v: Value) -> nat {
    match v {
        Value::Two => 2,
        Value::Three => 3,
        Value::Four => 4,
        Value::Five => 5,
        Value::Six => 6,
        Value::Seven => 7,
        Value::Eight => 8,
        Value::Nine => 9,
        Value::Ten | Value::Jack | Value::Queen | Value::King => 10,
        Value::Ace => 11,
    }
}

/// Position of a suit in the order Spades, Hearts, Diamonds, Clubs.
pub open spec fn suit_index(s: Suit) -> nat {
    match s {
        Suit::Spades => 0,
        Suit::Hearts => 1,
        Suit::Diamonds => 2,
        Suit::Clubs => 3,
    }
}

/// Position of a rank in the order Two to Ace.
pub open spec fn value_index(v: Value) -> nat {
    match v {
        Value::Two => 0,
        Value::Three => 1,
        Value::Four => 2,
        Value::Five => 3,
        Value::Six => 4,
        Value::Seven => 5,
        Value::Eight => 6,
        Value::Nine => 7,
        Value::Ten => 8,
        Value::Jack => 9,
        Value::Queen => 10,
        Value::King => 11,
        Value::Ace => 12,
    }
}

/// The suit at a position of the order Spades, Hearts, Diamonds, Clubs.
pub open spec fn suit_at(i: int) -> Suit {
    if i == 0 {
        Suit::Spades
    } else if i == 1 {
        Suit::Hearts
    } else if i == 2 {
        Suit::Diamonds
    } else {
        Suit::Clubs
    }
}

/// The rank at a position of the order Two to Ace.
pub open spec fn value_at(i: int) -> Value {
    if i == 0 {
        Value::Two
    } else if i == 1 {
        Value::Three
    } else if i == 2 {
        Value::Four
    } else if i == 3 {
        Value::Five
    } else if i == 4 {
        Value::Six
    } else if i == 5 {
        Value::Seven
    } else if i == 6 {
        Value::Eight
    } else if i == 7 {
        Value::Nine
    } else if i == 8 {
        Value::Ten
    } else if i == 9 {
        Value::Jack
    } else if i == 10 {
        Value::Queen
    } else if i == 11 {
        Value::King
    } else {
        Value::Ace
    }
}

/// Name of a suit as shown to the player.
pub open spec fn suit_name(s: Suit) -> Seq<char> {
    match s {
        Suit::Spades => "Spades"@,
        Suit::Hearts => "Hearts"@,
        Suit::Diamonds => "Diamonds"@,
        Suit::Clubs => "Clubs"@,
    }
}

/// Short symbol of a rank: its number, or J, Q, K, A.
pub open spec fn value_symbol(v: Value) -> Seq<char> {
    match v {
        Value::Two => "2"@,
        Value::Three => "3"@,
        Value::Four => "4"@,
        Value::Five => "5"@,
        Value::Six => "6"@,
        Value::Seven => "7"@,
        Value::Eight => "8"@,
        Value::Nine => "9"@,
        Value::Ten => "10"@,
        Value::Jack => "J"@,
        Value::Queen => "Q"@,
        Value::King => "K"@,
        Value::Ace => "A"@,
    }
}

/// Full name of a rank, as it appears in a card's label.
pub open spec fn value_name(v: Value) -> Seq<char> {
    match v {
        Value::Two => "Two"@,
        Value::Three => "Three"@,
        Value::Four => "Four"@,
        Value::Five => "Five"@,
        Value::Six => "Six"@,
        Value::Seven => "Seven"@,
        Value::Eight => "Eight"@,
        Value::Nine => "Nine"@,
        Value::Ten => "Ten"@,
        Value::Jack => "Jack"@,
        Value::Queen => "Queen"@,
        Value::King => "King"@,
        Value::Ace => "Ace"@,
    }
}

/// A card's label: "<rank name> of <suit name>", such as "King of Spades".
pub open spec fn card_label(c: Card) -> Seq<char> {
    value_name(c.value) + " of "@ + suit_name(c.suit)
}

impl Suit {
    /// The suit's name, such as "Hearts".
    pub fn name(&self) -> (r: String)
        ensures
            r@ == suit_name(*self),
    {
        match self {
            Suit::Spades => String::from_str("Spades"),
            Suit::Hearts => String::from_str("Hearts"),
            Suit::Diamonds => String::from_str("Diamonds"),
            Suit::Clubs => String::from_str("Clubs"),
        }
    }
}

impl Value {
    /// Points the rank is worth in a hand.
    pub fn points(&self) -> (r: usize)
        ensures
            r == points(*self),
    {
        match self {
            Value::Two => 2,
            Value::Three => 3,
            Value::Four => 4,
            Value::Five => 5,
            Value::Six => 6,
            Value::Seven => 7,
            Value::Eight => 8,
            Value::Nine => 9,
            Value::Ten | Value::Jack | Value::Queen | Value::King => 10,
            Value::Ace => 11,
        }
    }

    /// The rank's short symbol, such as "10" or "Q".
    pub fn symbol(&self) -> (r: String)
        ensures
            r@ == value_symbol(*self),
    {
        match self {
            Value::Two => String::from_str("2"),
            Value::Three => String::from_str("3"),
            Value::Four => String::from_str("4"),
            Value::Five => String::from_str("5"),
            Value::Six => String::from_str("6"),
            Value::Seven => String::from_str("7"),
            Value::Eight => String::from_str("8"),
            Value::Nine => String::from_str("9"),
            Value::Ten => String::from_str("10"),
            Value::Jack => String::from_str("J"),
            Value::Queen => String::from_str("Q"),
            Value::King => String::from_str("K"),
            Value::Ace => String::from_str("A"),
        }
    }

    /// The rank's full name, such as "Queen".
    pub fn name(&self) -> (r: String)
        ensures
            r@ == value_name(*self),
    {
        match self {
            Value::Two => String::from_str("Two"),
            Value::Three => String::from_str("Three"),
            Value::Four => String::from_str("Four"),
            Value::Five => String::from_str("Five"),
            Value::Six => String::from_str("Six"),
            Value::Seven => String::from_str("Seven"),
            Value::Eight => String::from_str("Eight"),
            Value::Nine => String::from_str("Nine"),
            Value::Ten => String::from_str("Ten"),
            Value::Jack => String::from_str("Jack"),
            Value::Queen => String::from_str("Queen"),
            Value::King => String::from_str("King"),
            Value::Ace => String::from_str("Ace"),
        }
    }
}

impl From<Value> for usize {
    fn from(value: Value) -> (r: usize) {
        value.points()
    }
}

impl vstd::std_specs::convert::FromSpecImpl<Value> for usize {
    open spec fn obeys_from_spec() -> bool {
        true
    }

    open spec fn from_spec(v: Value) -> usize {
        points(v) as usize
    }
}

impl Card {
    /// The card with the given rank and suit.
    pub fn new(value: Value, suit: Suit) -> (r: Self)
        ensures
            r == (Card { value, suit }),
    {
        Self { value, suit }
    }

    /// The card's label, such as "King of Spades".
    pub fn label(&self) -> (r: String)
        ensures
            r@ == card_label(*self),
    {
        let mut s = self.value.name();
        s.append(" of ");
        let suit = self.suit.name();
        s.append(suit.as_str());
        s
    }
}

} // verus!
