//! Play of a contract as a game between four seats: actions and updates,
//! the environment's view of the table and the seats' information sets.

mod action;
mod agent;
mod encoding;
mod dense;
mod sparse;
mod history;
mod convert;
mod hand_info;
pub mod contract_state_converter_common;
pub mod contract_state_sparse_convert_with_init_assumption;
pub mod contract_state_sparse_with_history;
mod env;

pub use action::{ActionPlaceCardConvertion1D, ContractAction, ContractActionWayToTensor, ContractStateUpdate, ConvertError, MIN_ACTION_SIZE, action_at_index, action_index, action_index_round_trip, index_action_round_trip, min_representation, sparse_representation_at};
pub use env::{ContractEnv, ContractEnvStateComplete, ContractEnvStateMin, acting_side, broadcast_spec, place_error, update_of};
pub use agent::{ContractAgentInfoSetAllKnowing, ContractAgentInfoSetSimple, ContractInformationSet, ContractDummyState, ILLEGAL_ACTION_PENALTY, action_valid, legal_play, offered_actions_are_the_valid_plays, removed};
pub use encoding::{BID_OFFSET, LEFT_CARD, ONE_IN_THREE, ONE_IN_TWO, OWN_CARD, PARTNER_CARD, PLAY_AS_DUMMY, RIGHT_CARD, SIMPLE_INFO_SET_LENGTH, SURE, TRICK_COMPLETION, TRICK_STARTER, card_pair, first_unknown, hint_weight, second_unknown, simple_byte};
pub use convert::{ContractActionInterpreter, ContractDP, ContractInfoSetConvertDense1, ContractInfoSetConvertDense1Normalised, ContractInfoSetConvertSparse, ContractInfoSetConvertSparseHistoric, ContractInfoSetEncoding, ContractProcessor, ContractStateHistConverter, StateWithSide};
pub use hand_info::{HandInfo, HandInfoSimple};
pub use dense::{DENSE_TRICKS_LENGTH, DENSE_TRICKS_N_LENGTH, card_code_n, dense_trick_n_value, dense_tricks_n, trick_code_n_at, card_code, dense_card_flag, dense_card_flags, dense_contract_params, dense_params, dense_trick_value, dense_tricks, trick_code_at};
pub use sparse::{history_flag, placed_flag, sparse_flags, sparse_flags_spec, sparse_history_flags, sparse_placed, sparse_prefix};
pub use history::{HISTORY_ROW, card_mask_at, contract_row_at, hand_row_at, trick_card};
