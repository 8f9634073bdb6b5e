use vstd::prelude::*;
use vstd::seq_lib::lemma_multiset_commutative;
use rand::rngs::StdRng;

use crate::card::Card;
use crate::deck::{
    card_total, draw, hand_total, is_full_deck, lemma_is_full_deck, shuffled_deck,
};

verus! {

/// A hand over this total is bust.
pub const MAX_VALUE: usize = 21;

/// What the player may do while the round is open.
#[derive(Debug, PartialEq, Eq, Structural, Clone, Copy)]
pub enum Choice {
    Hit,
    Stand,
}

/// The player's line of input as a choice: exactly "1" is a hit, exactly "2"
/// stands, and anything else is no choice.
pub open spec fn parse_choice(s: Seq<char>) -> Option<Choice> {
    if s == "1"@ {
        Some(Choice::Hit)
    } else if s == "2"@ {
        Some(Choice::Stand)
    } else {
        None
    }
}

/// What one step of the round leads to.
#[derive(Debug, PartialEq, Eq, Structural, Clone, Copy)]
pub enum Outcome {
    /// The player drew a card and is still at or under the limit.
    Playing,
    /// The input was neither choice; nothing changed.
    InvalidOption,
    /// The player drew past the limit and lost.
    Bust,
    /// The player asked for a card and the deck had none left: a loss.
    OutOfCards,
    /// The player stood with at least the dealer's total.
    Won,
    /// The player stood with less than the dealer's total.
    Lost,
}

impl Outcome {
    /// Whether the round has ended.
    pub open spec fn spec_is_over(self) -> bool {
        !(self is Playing || self is InvalidOption)
    }

    /// Whether the round has ended.
    #[verifier::when_used_as_spec(spec_is_over)]
    pub fn is_over(self) -> (r: bool)
        ensures
            r == self.spec_is_over(),
    {
        !matches!(self, Outcome::Playing | Outcome::InvalidOption)
    }

    /// Whether the round ended with the player winning.
    pub fn player_won(self) -> (r: bool)
        ensures
            r == (self is Won),
    {
        matches!(self, Outcome::Won)
    }
}

impl Choice {
    /// Reads a line of input as a choice.
    pub fn parse(line: &str) -> (r: Option<Choice>)
        ensures
            r == parse_choice(line@),
    {
        proof {
            reveal_strlit("1");
            reveal_strlit("2");
        }
        if line.unicode_len() != 1 {
            proof {
                assert(line@ != "1"@ && line@ != "2"@);
            }
            return None;
        }
        let c = line.get_char(0);
        if c == '1' {
            assert(line@ =~= "1"@);
            Some(Choice::Hit)
        } else if c == '2' {
            assert(line@ =~= "2"@);
            Some(Choice::Stand)
        } else {
            None
        }
    }
}

/// The state of one round: the rest of the deck and the two hands.
pub struct Round {
    deck: Vec<Card>,
    dealer: Vec<Card>,
    player: Vec<Card>,
}

/// The contents of a round as sequences of cards.
pub struct RoundView {
    pub deck: Seq<Card>,
    pub dealer: Seq<Card>,
    pub player: Seq<Card>,
}

impl View for Round {
    type V = RoundView;

    closed spec fn view(&self) -> RoundView {
        RoundView { deck: self.deck@, dealer: self.dealer@, player: self.player@ }
    }
}

impl RoundView {
    /// Every card of the round: deck, then dealer's hand, then player's hand.
    pub open spec fn cards(self) -> Seq<Card> {
        self.deck + self.dealer + self.player
    }

    /// The deck and the two hands together hold the 52 cards, each once.
    pub open spec fn wf(self) -> bool {
        is_full_deck(self.cards())
    }

    /// What standing decides: a loss only where the player's total is below
    /// the dealer's.
    pub open spec fn stand_outcome(self) -> Outcome {
        if hand_total(self.player) < hand_total(self.dealer) {
            Outcome::Lost
        } else {
            Outcome::Won
        }
    }
}

proof fn lemma_wf_lengths(v: RoundView)
    requires
        v.wf(),
    ensures
        v.deck.len() + v.dealer.len() + v.player.len() == 52,
{
    lemma_is_full_deck(v.cards());
}

impl Round {
    /// Deals from a full deck: the last two cards to the dealer, the two
    /// before them to the player; the rest stays in the deck.
    pub fn deal(deck: Vec<Card>) -> (r: Round)
        requires
            is_full_deck(deck@),
        ensures
            r@.wf(),
            r@.dealer == deck@.subrange(50, 52),
            r@.player == deck@.subrange(48, 50),
            r@.deck == deck@.subrange(0, 48),
    {
        proof {
            lemma_is_full_deck(deck@);
        }
        let ghost d = deck@;
        let mut deck = deck;
        let dealer = draw(&mut deck, 2).unwrap();
        let player = draw(&mut deck, 2).unwrap();
        let r = Round { deck, dealer, player };
        proof {
            broadcast use lemma_multiset_commutative;

            let a = d.subrange(0, 48);
            let b = d.subrange(48, 50);
            let c = d.subrange(50, 52);
            assert(d =~= a + b + c);
            assert(r@.cards() =~= a + c + b);
            assert(r@.cards().to_multiset() =~= d.to_multiset());
        }
        r
    }

    /// Starts a round: a fresh deck shuffled with `rng`, then dealt.
    pub fn start(rng: &mut StdRng) -> (r: Round)
        ensures
            r@.wf(),
            r@.dealer.len() == 2,
            r@.player.len() == 2,
            r@.deck.len() == 48,
    {
        let deck = shuffled_deck(rng);
        Round::deal(deck)
    }

    /// The cards left in the deck.
    pub fn deck(&self) -> (r: &Vec<Card>)
        ensures
            r@ == self@.deck,
    {
        &self.deck
    }

    /// The dealer's hand.
    pub fn dealer(&self) -> (r: &Vec<Card>)
        ensures
            r@ == self@.dealer,
    {
        &self.dealer
    }

    /// The player's hand.
    pub fn player(&self) -> (r: &Vec<Card>)
        ensures
            r@ == self@.player,
    {
        &self.player
    }

    /// Total of the player's hand.
    pub fn player_total(&self) -> (r: usize)
        requires
            self@.wf(),
        ensures
            r == hand_total(self@.player),
    {
        proof {
            lemma_wf_lengths(self@);
        }
        card_total(self.player.as_slice())
    }

    /// Total of the dealer's hand.
    pub fn dealer_total(&self) -> (r: usize)
        requires
            self@.wf(),
        ensures
            r == hand_total(self@.dealer),
    {
        proof {
            lemma_wf_lengths(self@);
        }
        card_total(self.dealer.as_slice())
    }

    /// The player draws the deck's last card. Over the limit the round is
    /// lost, whatever the dealer holds; with no card left it is lost too and
    /// nothing moves.
    pub fn hit(&mut self) -> (r: Outcome)
        requires
            old(self)@.wf(),
        ensures
            final(self)@.wf(),
            final(self)@.dealer == old(self)@.dealer,
            old(self)@.deck.len() == 0 ==> r == Outcome::OutOfCards && final(self)@ == old(
                self,
            )@,
            old(self)@.deck.len() > 0 ==> {
                &&& final(self)@.deck == old(self)@.deck.drop_last()
                &&& final(self)@.player == old(self)@.player.push(old(self)@.deck.last())
                &&& r == if hand_total(final(self)@.player) > MAX_VALUE {
                    Outcome::Bust
                } else {
                    Outcome::Playing
                }
            },
    {
        let ghost before = self@;
        match draw(&mut self.deck, 1) {
            None => Outcome::OutOfCards,
            Some(drawn) => {
                let card = drawn[0];
                self.player.push(card);
                proof {
                    broadcast use lemma_multiset_commutative;

                    let d = before.deck.drop_last();
                    assert(drawn@ =~= seq![card]);
                    assert(before.deck =~= d + seq![card]);
                    assert(self@.deck =~= d);
                    assert(self@.player =~= before.player + seq![card]);
                    assert(before.cards() =~= d + seq![card] + before.dealer + before.player);
                    assert(self@.cards() =~= d + before.dealer + (before.player + seq![card]));
                    assert(self@.cards().to_multiset() =~= before.cards().to_multiset());
                }
                if self.player_total() > MAX_VALUE {
                    Outcome::Bust
                } else {
                    Outcome::Playing
                }
            },
        }
    }

    /// The player stands; the dealer draws nothing. A tie goes to the player.
    pub fn stand(&self) -> (r: Outcome)
        requires
            self@.wf(),
        ensures
            r == self@.stand_outcome(),
    {
        if self.player_total() < self.dealer_total() {
            Outcome::Lost
        } else {
            Outcome::Won
        }
    }

    /// Applies one line of the player's input: "1" hits, "2" stands, and any
    /// other line changes nothing.
    pub fn step(&mut self, line: &str) -> (r: Outcome)
        requires
            old(self)@.wf(),
        ensures
            final(self)@.wf(),
            final(self)@.dealer == old(self)@.dealer,
            parse_choice(line@) is None ==> r == Outcome::InvalidOption && final(self)@ == old(
                self,
            )@,
            parse_choice(line@) == Some(Choice::Stand) ==> r == old(self)@.stand_outcome()
                && final(self)@ == old(self)@,
            parse_choice(line@) == Some(Choice::Hit) ==> {
                &&& old(self)@.deck.len() == 0 ==> r == Outcome::OutOfCards && final(self)@ == old(
                    self,
                )@
                &&& old(self)@.deck.len() > 0 ==> {
                    &&& final(self)@.deck == old(self)@.deck.drop_last()
                    &&& final(self)@.player == old(self)@.player.push(old(self)@.deck.last())
                    &&& r == if hand_total(final(self)@.player) > MAX_VALUE {
                        Outcome::Bust
                    } else {
                        Outcome::Playing
                    }
                }
            },
    {
        match Choice::parse(line) {
            Some(Choice::Hit) => self.hit(),
            Some(Choice::Stand) => self.stand(),
            None => Outcome::InvalidOption,
        }
    }
}

} // verus!
