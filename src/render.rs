use vstd::prelude::*;

use crate::card::{card_label, Card};
use crate::deck::{card_total, hand_total};
use crate::round::{Outcome, MAX_VALUE};

verus! {

/// The character of a decimal digit.
pub open spec fn digit_char(d: nat) -> char {
    if d == 0 {
        '0'
    } else if d == 1 {
        '1'
    } else if d == 2 {
        '2'
    } else if d == 3 {
        '3'
    } else if d == 4 {
        '4'
    } else if d == 5 {
        '5'
    } else if d == 6 {
        '6'
    } else if d == 7 {
        '7'
    } else if d == 8 {
        '8'
    } else {
        '9'
    }
}

/// A number written in decimal, with no leading zeros.
pub open spec fn decimal(n: nat) -> Seq<char>
    decreases n,
{
    if n < 10 {
        seq![digit_char(n)]
    } else {
        decimal(n / 10) + seq![digit_char(n % 10)]
    }
}

/// Line that shows the card at position `i` of the dealer's hand: the first
/// card is always hidden.
pub open spec fn dealer_card_line(cards: Seq<Card>, i: int) -> Seq<char> {
    if i == 0 {
        "* ??"@
    } else {
        "* "@ + card_label(cards[i])
    }
}

/// Line that shows a card in full.
pub open spec fn card_line(c: Card) -> Seq<char> {
    "* "@ + card_label(c)
}

/// Line that gives a hand's total.
pub open spec fn total_line(total: nat) -> Seq<char> {
    "* Total: "@ + decimal(total)
}

fn digit_str(d: usize) -> (r: &'static str)
    requires
        d < 10,
    ensures
        r@ == seq![digit_char(d as nat)],
{
    proof {
        reveal_strlit("0");
        reveal_strlit("1");
        reveal_strlit("2");
        reveal_strlit("3");
        reveal_strlit("4");
        reveal_strlit("5");
        reveal_strlit("6");
        reveal_strlit("7");
        reveal_strlit("8");
        reveal_strlit("9");
    }
    let r = if d == 0 {
        "0"
    } else if d == 1 {
        "1"
    } else if d == 2 {
        "2"
    } else if d == 3 {
        "3"
    } else if d == 4 {
        "4"
    } else if d == 5 {
        "5"
    } else if d == 6 {
        "6"
    } else if d == 7 {
        "7"
    } else if d == 8 {
        "8"
    } else {
        "9"
    };
    assert(r@ =~= seq![digit_char(d as nat)]);
    r
}

fn append_decimal(s: &mut String, n: usize)
    ensures
        final(s)@ == old(s)@ + decimal(n as nat),
    decreases n,
{
    if n >= 10 {
        append_decimal(s, n / 10);
    }
    s.append(digit_str(n % 10));
    assert(final(s)@ =~= old(s)@ + decimal(n as nat));
}

/// A number in decimal.
pub fn decimal_string(n: usize) -> (r: String)
    ensures
        r@ == decimal(n as nat),
{
    let mut s = String::new();
    append_decimal(&mut s, n);
    assert(s@ =~= decimal(n as nat));
    s
}

/// The dealer's hand as lines: a heading, one line per card with the first
/// card hidden, and a blank line.
pub fn dealer_lines(cards: &[Card]) -> (r: Vec<String>)
    ensures
        r@.len() == cards@.len() + 2,
        r@[0]@ == "Dealer cards:"@,
        forall|i: int| 0 <= i < cards@.len() ==> #[trigger] r@[i + 1]@ == dealer_card_line(
            cards@,
            i,
        ),
        r@.last()@ == Seq::<char>::empty(),
{
    let mut lines: Vec<String> = Vec::new();
    lines.push(String::from_str("Dealer cards:"));
    let mut i: usize = 0;
    while i < cards.len()
        invariant
            i <= cards@.len(),
            lines@.len() == i + 1,
            lines@[0]@ == "Dealer cards:"@,
            forall|k: int| 0 <= k < i ==> #[trigger] lines@[k + 1]@ == dealer_card_line(
                cards@,
                k,
            ),
        decreases cards@.len() - i,
    {
        if i == 0 {
            lines.push(String::from_str("* ??"));
        } else {
            let mut line = String::from_str("* ");
            let label = cards[i].label();
            line.append(label.as_str());
            lines.push(line);
        }
        i = i + 1;
    }
    lines.push(String::new());
    lines
}

/// The player's hand as lines: a heading, one line per card, the total and a
/// blank line.
pub fn player_lines(cards: &[Card]) -> (r: Vec<String>)
    requires
        cards@.len() <= usize::MAX / 11,
    ensures
        r@.len() == cards@.len() + 3,
        r@[0]@ == "Your cards:"@,
        forall|i: int| 0 <= i < cards@.len() ==> #[trigger] r@[i + 1]@ == card_line(cards@[i]),
        r@[cards@.len() + 1int]@ == total_line(hand_total(cards@)),
        r@.last()@ == Seq::<char>::empty(),
{
    let mut lines: Vec<String> = Vec::new();
    lines.push(String::from_str("Your cards:"));
    let mut i: usize = 0;
    while i < cards.len()
        invariant
            i <= cards@.len(),
            lines@.len() == i + 1,
            lines@[0]@ == "Your cards:"@,
            forall|k: int| 0 <= k < i ==> #[trigger] lines@[k + 1]@ == card_line(cards@[k]),
        decreases cards@.len() - i,
    {
        let mut line = String::from_str("* ");
        let label = cards[i].label();
        line.append(label.as_str());
        lines.push(line);
        i = i + 1;
    }
    let mut total = String::from_str("* Total: ");
    let digits = decimal_string(card_total(cards));
    total.append(digits.as_str());
    lines.push(total);
    lines.push(String::new());
    lines
}

/// The menu of the two choices, line by line.
pub open spec fn options_text() -> Seq<Seq<char>> {
    seq![""@, "Options"@, "1.) Hit"@, "2.) Stay"@, "    "@]
}

/// What the player is told after a step, line by line, given the two totals
/// at that point.
pub open spec fn outcome_text(o: Outcome, dealer_total: nat, player_total: nat) -> Seq<Seq<char>> {
    match o {
        Outcome::Playing => Seq::empty(),
        Outcome::InvalidOption => seq!["Invalid option. Please select either 'Hit' or 'Stay'."@],
        Outcome::Bust => seq![
            "You went over "@ + decimal(MAX_VALUE as nat) + "! Game over."@,
            "Thanks for playing!"@,
        ],
        Outcome::OutOfCards => seq![
            "The deck has no cards left! Game over."@,
            "Thanks for playing!"@,
        ],
        Outcome::Lost => seq![
            "You lost! [Dealer score ("@ + decimal(dealer_total) + ") > Player score ("@ + decimal(
                player_total,
            ) + ")]"@,
        ],
        Outcome::Won => seq![
            "You won! [Dealer score: ("@ + decimal(dealer_total) + ") < Player score: ("@
                + decimal(player_total) + ")]"@,
        ],
    }
}

/// Lines as strings, equal to the given sequences of characters.
pub open spec fn lines_are(r: Seq<String>, text: Seq<Seq<char>>) -> bool {
    &&& r.len() == text.len()
    &&& forall|i: int| 0 <= i < r.len() ==> #[trigger] r[i]@ == text[i]
}

/// The menu of the two choices.
pub fn options_lines() -> (r: Vec<String>)
    ensures
        lines_are(r@, options_text()),
{
    let mut lines: Vec<String> = Vec::new();
    lines.push(String::from_str(""));
    lines.push(String::from_str("Options"));
    lines.push(String::from_str("1.) Hit"));
    lines.push(String::from_str("2.) Stay"));
    lines.push(String::from_str("    "));
    lines
}

fn score_line(prefix: &str, dealer_total: usize, middle: &str, player_total: usize) -> (r: String)
    ensures
        r@ == prefix@ + decimal(dealer_total as nat) + middle@ + decimal(player_total as nat)
            + ")]"@,
{
    let mut line = String::from_str(prefix);
    let d = decimal_string(dealer_total);
    line.append(d.as_str());
    line.append(middle);
    let p = decimal_string(player_total);
    line.append(p.as_str());
    line.append(")]");
    line
}

/// What the player is told after a step.
pub fn outcome_lines(o: Outcome, dealer_total: usize, player_total: usize) -> (r: Vec<String>)
    ensures
        lines_are(r@, outcome_text(o, dealer_total as nat, player_total as nat)),
{
    let mut lines: Vec<String> = Vec::new();
    match o {
        Outcome::Playing => {},
        Outcome::InvalidOption => {
            lines.push(String::from_str("Invalid option. Please select either 'Hit' or 'Stay'."));
        },
        Outcome::Bust => {
            let mut line = String::from_str("You went over ");
            let limit = decimal_string(MAX_VALUE);
            line.append(limit.as_str());
            line.append("! Game over.");
            lines.push(line);
            lines.push(String::from_str("Thanks for playing!"));
        },
        Outcome::OutOfCards => {
            lines.push(String::from_str("The deck has no cards left! Game over."));
            lines.push(String::from_str("Thanks for playing!"));
        },
        Outcome::Lost => {
            lines.push(
                score_line("You lost! [Dealer score (", dealer_total, ") > Player score (", player_total),
            );
        },
        Outcome::Won => {
            lines.push(
                score_line(
                    "You won! [Dealer score: (",
                    dealer_total,
                    ") < Player score: (",
                    player_total,
                ),
            );
        },
    }
    lines
}

} // verus!
