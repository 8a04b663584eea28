use vstd::prelude::*;
use crate::player::Side;
use crate::state::agent::{ContractAgentInfoSetAllKnowing, ContractAgentInfoSetSimple, ContractDummyState};
use crate::state::contract_state_converter_common as dense;
use crate::state::contract_state_sparse_convert_with_init_assumption as sparse;
use crate::state::contract_state_sparse_with_history::STATE_REPR_SIZE_WITH_HISTORY;

verus! {

/// Marker of the game of playing a contract: seats are the agents, contract
/// actions and updates are exchanged, rewards are integers.
#[derive(Debug, Clone, Copy)]
pub struct ContractDP {}

/// Marker of the process that runs a contract.
#[derive(Debug, Clone, Copy)]
pub struct ContractProcessor {}

/// A state that belongs to one seat.
pub trait StateWithSide {
    fn id(&self) -> Side;
}

impl StateWithSide for ContractDummyState {
    fn id(&self) -> (r: Side)
        ensures
            r == self.side_spec(),
    {
        ContractDummyState::id(self)
    }
}

impl StateWithSide for ContractAgentInfoSetSimple {
    fn id(&self) -> (r: Side)
        ensures
            r == self.side_spec(),
    {
        ContractAgentInfoSetSimple::id(self)
    }
}

impl StateWithSide for ContractAgentInfoSetAllKnowing {
    fn id(&self) -> (r: Side)
        ensures
            r == self.side_spec(),
    {
        ContractAgentInfoSetAllKnowing::id(self)
    }
}

/// Dense encoding of what a seat knows.
#[derive(Debug, Clone, Copy, Default)]
pub struct ContractInfoSetConvertDense1 {}

/// Dense encoding with values scaled to small ranges.
#[derive(Debug, Clone, Copy, Default)]
pub struct ContractInfoSetConvertDense1Normalised {}

/// Sparse encoding of what a seat knows.
#[derive(Debug, Clone, Copy, Default)]
pub struct ContractInfoSetConvertSparse {}

/// Sparse encoding with the cards of every completed trick.
#[derive(Debug, Clone, Copy, Default)]
pub struct ContractInfoSetConvertSparseHistoric {}

/// Encoding that stacks the history of a seat's states.
#[derive(Debug, Clone, Copy, Default)]
pub struct ContractStateHistConverter {}

/// Decoding of an action from its encoded form.
#[derive(Debug, Clone, Copy, Default)]
pub struct ContractActionInterpreter {}

impl ContractInfoSetConvertDense1 {
    pub fn desired_shape(&self) -> (r: [i64; 1])
        ensures
            r@ == seq![dense::STATE_REPR_SIZE as i64],
    {
        [dense::STATE_REPR_SIZE as i64]
    }
}

impl ContractInfoSetConvertDense1Normalised {
    pub fn desired_shape(&self) -> (r: [i64; 1])
        ensures
            r@ == seq![dense::STATE_REPR_SIZE as i64],
    {
        [dense::STATE_REPR_SIZE as i64]
    }
}

impl ContractInfoSetConvertSparse {
    pub fn desired_shape(&self) -> (r: [i64; 1])
        ensures
            r@ == seq![sparse::STATE_REPR_SIZE as i64],
    {
        [sparse::STATE_REPR_SIZE as i64]
    }
}

impl ContractInfoSetConvertSparseHistoric {
    pub fn desired_shape(&self) -> (r: [i64; 1])
        ensures
            r@ == seq![STATE_REPR_SIZE_WITH_HISTORY as i64],
    {
        [STATE_REPR_SIZE_WITH_HISTORY as i64]
    }
}

/// One of the encodings of what a seat knows.
#[derive(Debug, Clone, Copy)]
pub enum ContractInfoSetEncoding {
    Dense1(ContractInfoSetConvertDense1),
    Sparse(ContractInfoSetConvertSparse),
    SparseHistoric(ContractInfoSetConvertSparseHistoric),
}

impl ContractInfoSetEncoding {
    /// Shape of the encoding chosen.
    pub fn desired_shape(&self) -> (r: [i64; 1])
        ensures
            r@ == match self {
                ContractInfoSetEncoding::Dense1(_) => seq![dense::STATE_REPR_SIZE as i64],
                ContractInfoSetEncoding::Sparse(_) => seq![sparse::STATE_REPR_SIZE as i64],
                ContractInfoSetEncoding::SparseHistoric(_) => seq![STATE_REPR_SIZE_WITH_HISTORY as i64],
            },
    {
        match self {
            ContractInfoSetEncoding::Dense1(a) => a.desired_shape(),
            ContractInfoSetEncoding::Sparse(a) => a.desired_shape(),
            ContractInfoSetEncoding::SparseHistoric(a) => a.desired_shape(),
        }
    }
}

} // verus!
