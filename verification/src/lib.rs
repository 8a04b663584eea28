//! Core rules of contract bridge: players and partnerships, cards and card
//! sets, the auction, contract parameters, trick resolution, the play of a
//! contract, dealing, and the play seen as a game between four seats.

pub mod player;
pub mod cards;
pub mod card_set;
pub mod error;
pub mod bidding;
pub mod contract;
pub mod deal;
pub mod deck;
pub mod state;
