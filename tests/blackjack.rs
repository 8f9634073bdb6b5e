use blackjack::card::{Card, Suit, Value};
use blackjack::deck::{card_total, create_deck, draw, shuffled_deck, DECK_SIZE};
use blackjack::render::{
    dealer_lines, decimal_string, options_lines, outcome_lines, player_lines,
};
use blackjack::round::{Choice, Outcome, Round, MAX_VALUE};
use rand::rngs::StdRng;
use rand::SeedableRng;

const SUITS: [Suit; 4] = [Suit::Spades, Suit::Hearts, Suit::Diamonds, Suit::Clubs];
const VALUES: [Value; 13] = [
    Value::Two,
    Value::Three,
    Value::Four,
    Value::Five,
    Value::Six,
    Value::Seven,
    Value::Eight,
    Value::Nine,
    Value::Ten,
    Value::Jack,
    Value::Queen,
    Value::King,
    Value::Ace,
];

fn card(value: Value, suit: Suit) -> Card {
    Card::new(value, suit)
}

/// A full deck whose last cards are `tail`, in that order; the rest keeps
/// the canonical order.
fn deck_ending_with(tail: &[Card]) -> Vec<Card> {
    let mut deck: Vec<Card> = create_deck().into_iter().filter(|c| !tail.contains(c)).collect();
    deck.extend_from_slice(tail);
    assert_eq!(deck.len(), 52);
    deck
}

fn strings(lines: &[&str]) -> Vec<String> {
    lines.iter().map(|s| s.to_string()).collect()
}

#[test]
fn deck_has_every_card_once() {
    let deck = create_deck();
    assert_eq!(deck.len(), 52);
    assert_eq!(DECK_SIZE, 52);
    for suit in SUITS {
        for value in VALUES {
            let c = card(value, suit);
            assert_eq!(deck.iter().filter(|d| **d == c).count(), 1);
        }
    }
}

#[test]
fn deck_is_suit_major_rank_minor() {
    let deck = create_deck();
    assert_eq!(deck[0], card(Value::Two, Suit::Spades));
    assert_eq!(deck[12], card(Value::Ace, Suit::Spades));
    assert_eq!(deck[13], card(Value::Two, Suit::Hearts));
    assert_eq!(deck[51], card(Value::Ace, Suit::Clubs));
}

#[test]
fn deck_is_the_same_every_time() {
    assert_eq!(create_deck(), create_deck());
}

#[test]
fn shuffle_keeps_the_same_cards() {
    let mut rng = StdRng::seed_from_u64(11);
    let mut deck = shuffled_deck(&mut rng);
    assert_eq!(deck.len(), 52);
    deck.sort();
    let mut canonical = create_deck();
    canonical.sort();
    assert_eq!(deck, canonical);
}

#[test]
fn shuffle_changes_the_order() {
    let mut rng = StdRng::seed_from_u64(3);
    assert_ne!(shuffled_deck(&mut rng), create_deck());
}

#[test]
fn shuffle_has_no_positional_bias() {
    let mut rng = StdRng::seed_from_u64(2024);
    let trials = 5200;
    let mut counts = [0usize; 52];
    let target = card(Value::Ace, Suit::Spades);
    for _ in 0..trials {
        let deck = shuffled_deck(&mut rng);
        let pos = deck.iter().position(|c| *c == target).unwrap();
        counts[pos] += 1;
    }
    // Each position is expected 100 times; a fair shuffle stays well inside
    // this band.
    for count in counts {
        assert!(count > 50 && count < 160, "count {}", count);
    }
}

#[test]
fn points_follow_the_fixed_rules() {
    assert_eq!(Value::Two.points(), 2);
    assert_eq!(Value::Nine.points(), 9);
    assert_eq!(Value::Ten.points(), 10);
    assert_eq!(Value::Jack.points(), 10);
    assert_eq!(Value::Queen.points(), 10);
    assert_eq!(Value::King.points(), 10);
    assert_eq!(Value::Ace.points(), 11);
    assert_eq!(usize::from(Value::Ace), 11);
    assert_eq!(usize::from(Value::Seven), 7);
}

#[test]
fn king_and_ace_total_21() {
    let hand = vec![card(Value::King, Suit::Spades), card(Value::Ace, Suit::Hearts)];
    assert_eq!(card_total(&hand), 21);
}

#[test]
fn empty_hand_totals_zero() {
    assert_eq!(card_total(&[]), 0);
}

#[test]
fn whole_deck_totals_380() {
    assert_eq!(card_total(&create_deck()), 380);
}

#[test]
fn two_aces_total_22() {
    let hand = vec![card(Value::Ace, Suit::Spades), card(Value::Ace, Suit::Hearts)];
    assert_eq!(card_total(&hand), 22);
}

#[test]
fn labels_name_rank_and_suit() {
    assert_eq!(card(Value::King, Suit::Spades).label(), "King of Spades");
    assert_eq!(card(Value::Two, Suit::Diamonds).label(), "Two of Diamonds");
    assert_eq!(Suit::Hearts.name(), "Hearts");
    assert_eq!(Suit::Clubs.name(), "Clubs");
    assert_eq!(Value::Ten.symbol(), "10");
    assert_eq!(Value::Queen.symbol(), "Q");
    assert_eq!(Value::Ace.name(), "Ace");
}

#[test]
fn draw_takes_from_the_end() {
    let mut deck = create_deck();
    let drawn = draw(&mut deck, 2).unwrap();
    assert_eq!(drawn, vec![card(Value::King, Suit::Clubs), card(Value::Ace, Suit::Clubs)]);
    assert_eq!(deck.len(), 50);
    assert_eq!(deck[49], card(Value::Queen, Suit::Clubs));
}

#[test]
fn draw_past_the_end_takes_nothing() {
    let mut deck = vec![card(Value::Two, Suit::Spades)];
    assert_eq!(draw(&mut deck, 2), None);
    assert_eq!(deck, vec![card(Value::Two, Suit::Spades)]);
    assert_eq!(draw(&mut deck, 1), Some(vec![card(Value::Two, Suit::Spades)]));
    assert!(deck.is_empty());
    assert_eq!(draw(&mut deck, 1), None);
}

#[test]
fn deal_gives_dealer_the_last_two_cards() {
    let deck = create_deck();
    let round = Round::deal(deck.clone());
    assert_eq!(round.dealer(), &deck[50..52].to_vec());
    assert_eq!(round.player(), &deck[48..50].to_vec());
    assert_eq!(round.deck(), &deck[0..48].to_vec());
}

#[test]
fn start_deals_two_and_two() {
    let mut rng = StdRng::seed_from_u64(5);
    let round = Round::start(&mut rng);
    assert_eq!(round.dealer().len(), 2);
    assert_eq!(round.player().len(), 2);
    assert_eq!(round.deck().len(), 48);
}

#[test]
fn choices_are_exact_lines() {
    assert_eq!(Choice::parse("1"), Some(Choice::Hit));
    assert_eq!(Choice::parse("2"), Some(Choice::Stand));
    assert_eq!(Choice::parse("3"), None);
    assert_eq!(Choice::parse(""), None);
    assert_eq!(Choice::parse("hit"), None);
    assert_eq!(Choice::parse(" 1"), None);
    assert_eq!(Choice::parse("12"), None);
}

#[test]
fn hit_past_21_is_bust_whatever_the_dealer_holds() {
    // Dealer 21 (King, Ace), player 20 (Queen, Jack), next card a Ten.
    let mut round = Round::deal(create_deck());
    assert_eq!(round.hit(), Outcome::Bust);
    assert_eq!(round.player_total(), 30);
    assert!(!Outcome::Bust.player_won());
    assert!(Outcome::Bust.is_over());

    // Dealer only 5, player 20, next card a Two: still bust.
    let mut low = Round::deal(deck_ending_with(&[
        card(Value::Two, Suit::Hearts),
        card(Value::Ten, Suit::Hearts),
        card(Value::King, Suit::Hearts),
        card(Value::Two, Suit::Spades),
        card(Value::Three, Suit::Spades),
    ]));
    assert_eq!(low.dealer_total(), 5);
    assert_eq!(low.player_total(), 20);
    assert_eq!(low.step("1"), Outcome::Bust);
    assert_eq!(low.player_total(), 22);
}

#[test]
fn hit_under_21_keeps_playing() {
    let mut round = Round::deal(deck_ending_with(&[
        card(Value::Three, Suit::Hearts),
        card(Value::Two, Suit::Hearts),
        card(Value::Four, Suit::Hearts),
        card(Value::Ten, Suit::Spades),
        card(Value::Seven, Suit::Spades),
    ]));
    assert_eq!(round.step("1"), Outcome::Playing);
    assert_eq!(round.player().len(), 3);
    assert_eq!(round.player()[2], card(Value::Three, Suit::Hearts));
    assert_eq!(round.player_total(), 9);
    assert_eq!(round.deck().len(), 47);
    assert!(!Outcome::Playing.is_over());
}

#[test]
fn stand_on_a_tie_wins() {
    let round = Round::deal(deck_ending_with(&[
        card(Value::Ten, Suit::Hearts),
        card(Value::Seven, Suit::Hearts),
        card(Value::Ten, Suit::Spades),
        card(Value::Seven, Suit::Spades),
    ]));
    assert_eq!(round.player_total(), 17);
    assert_eq!(round.dealer_total(), 17);
    assert_eq!(round.stand(), Outcome::Won);
    assert!(Outcome::Won.player_won());
}

#[test]
fn stand_below_the_dealer_loses() {
    let mut round = Round::deal(deck_ending_with(&[
        card(Value::Ten, Suit::Hearts),
        card(Value::Six, Suit::Hearts),
        card(Value::Ten, Suit::Spades),
        card(Value::Seven, Suit::Spades),
    ]));
    assert_eq!(round.player_total(), 16);
    assert_eq!(round.dealer_total(), 17);
    assert_eq!(round.step("2"), Outcome::Lost);
    assert!(!Outcome::Lost.player_won());
    assert_eq!(round.player().len(), 2);
}

#[test]
fn invalid_input_changes_nothing() {
    let mut rng = StdRng::seed_from_u64(9);
    let mut round = Round::start(&mut rng);
    let deck = round.deck().clone();
    let dealer = round.dealer().clone();
    let player = round.player().clone();
    for line in ["3", "", "hit"] {
        assert_eq!(round.step(line), Outcome::InvalidOption);
        assert!(!Outcome::InvalidOption.is_over());
        assert_eq!(round.deck(), &deck);
        assert_eq!(round.dealer(), &dealer);
        assert_eq!(round.player(), &player);
    }
}

#[test]
fn hit_on_an_empty_deck_is_a_loss() {
    let mut round = Round::deal(create_deck());
    for _ in 0..48 {
        round.hit();
    }
    assert!(round.deck().is_empty());
    let player = round.player().clone();
    assert_eq!(player.len(), 50);
    assert_eq!(round.step("1"), Outcome::OutOfCards);
    assert_eq!(round.player(), &player);
    assert!(Outcome::OutOfCards.is_over());
    assert!(!Outcome::OutOfCards.player_won());
}

#[test]
fn decimal_numbers() {
    assert_eq!(decimal_string(0), "0");
    assert_eq!(decimal_string(7), "7");
    assert_eq!(decimal_string(21), "21");
    assert_eq!(decimal_string(380), "380");
    assert_eq!(decimal_string(usize::MAX), usize::MAX.to_string());
}

#[test]
fn dealer_first_card_is_hidden() {
    let hand = vec![card(Value::King, Suit::Spades), card(Value::Ace, Suit::Hearts)];
    assert_eq!(
        dealer_lines(&hand),
        strings(&["Dealer cards:", "* ??", "* Ace of Hearts", ""])
    );
    assert_eq!(
        dealer_lines(&hand[..1]),
        strings(&["Dealer cards:", "* ??", ""])
    );
}

#[test]
fn player_cards_are_shown_with_total() {
    let hand = vec![card(Value::King, Suit::Spades), card(Value::Ace, Suit::Hearts)];
    assert_eq!(
        player_lines(&hand),
        strings(&["Your cards:", "* King of Spades", "* Ace of Hearts", "* Total: 21", ""])
    );
}

#[test]
fn menu_lists_both_choices() {
    assert_eq!(options_lines(), strings(&["", "Options", "1.) Hit", "2.) Stay", "    "]));
}

#[test]
fn outcome_messages() {
    assert_eq!(outcome_lines(Outcome::Playing, 10, 12), Vec::<String>::new());
    assert_eq!(
        outcome_lines(Outcome::InvalidOption, 10, 12),
        strings(&["Invalid option. Please select either 'Hit' or 'Stay'."])
    );
    assert_eq!(
        outcome_lines(Outcome::Bust, 10, 25),
        strings(&["You went over 21! Game over.", "Thanks for playing!"])
    );
    assert_eq!(
        outcome_lines(Outcome::OutOfCards, 10, 12),
        strings(&["The deck has no cards left! Game over.", "Thanks for playing!"])
    );
    assert_eq!(
        outcome_lines(Outcome::Lost, 17, 16),
        strings(&["You lost! [Dealer score (17) > Player score (16)]"])
    );
    assert_eq!(
        outcome_lines(Outcome::Won, 17, 17),
        strings(&["You won! [Dealer score: (17) < Player score: (17)]"])
    );
}

fn points_of(cards: &[Card]) -> usize {
    cards
        .iter()
        .map(|c| match c.value {
            Value::Ace => 11,
            Value::Ten | Value::Jack | Value::Queen | Value::King => 10,
            v => VALUES.iter().position(|w| *w == v).unwrap() + 2,
        })
        .sum()
}

#[test]
fn seeded_round_hit_then_stand() {
    for seed in 0..20u64 {
        let mut rng = StdRng::seed_from_u64(seed);
        let mut round = Round::start(&mut rng);
        let dealer_total = points_of(round.dealer());
        let next = *round.deck().last().unwrap();
        let mut player = round.player().clone();
        player.push(next);
        let player_total = points_of(&player);

        let mut messages = Vec::new();
        for line in ["1", "2"] {
            let outcome = round.step(line);
            messages = outcome_lines(outcome, round.dealer_total(), round.player_total());
            if outcome.is_over() {
                break;
            }
        }
        let expected = if player_total > MAX_VALUE {
            strings(&["You went over 21! Game over.", "Thanks for playing!"])
        } else if player_total < dealer_total {
            vec![format!(
                "You lost! [Dealer score ({}) > Player score ({})]",
                dealer_total, player_total
            )]
        } else {
            vec![format!(
                "You won! [Dealer score: ({}) < Player score: ({})]",
                dealer_total, player_total
            )]
        };
        assert_eq!(messages, expected, "seed {}", seed);
    }
}

#[test]
fn total_ignores_card_order() {
    let hand = vec![
        card(Value::Five, Suit::Spades),
        card(Value::Queen, Suit::Hearts),
        card(Value::Ace, Suit::Clubs),
    ];
    let mut reversed = hand.clone();
    reversed.reverse();
    assert_eq!(card_total(&hand), 26);
    assert_eq!(card_total(&reversed), 26);
}
