//! A single round of simplified Blackjack against a dealer whose hand never
//! changes: the card model, the deck, hand totals, the round's decision rules
//! and the text that shows a round to the player.

pub mod card;
pub mod deck;
pub mod round;
pub mod render;
