mod contract;
mod spec;
pub mod suit_exhaust;
mod trick;
mod trick_solver;

pub use contract::{Contract, QUARTER_SIZE, contract_tricks_split_between_partnerships, contract_undo_restores, first_leader, tricks_of_axis, tricks_of_side};
pub use spec::{ContractParameters, ContractParametersGen, role_side_round_trip, side_role_round_trip};
pub use trick::{Trick, TrickError, best_in_suit, lemma_best_in_suit, seat_of, trick_undo_restores};
pub use trick_solver::{NoTrumpTrickSolver, SmartTrickSolver, TrumpTrickSolver, beats_under, best_card, leader_under, no_trump_beats, no_trump_leader, trick_leader_after_play, trick_winner_holds_best_card, trump_beats, trump_leader, winner_result};
