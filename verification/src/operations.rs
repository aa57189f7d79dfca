//! The operations and what belongs to them, under one path.

pub use crate::arrays::{ComplexMatrix, ComplexVector};
pub use crate::channel::Superoperator;
pub use crate::circuit::{Operation, PragmaConditional};
pub use crate::involved::InvolvedQubits;
pub use crate::model::OperationKind;
pub use crate::noise::{
    PragmaDamping, PragmaDephasing, PragmaDepolarising, PragmaGeneralNoise, PragmaRandomNoise,
};
pub use crate::pragma::{
    PragmaActiveReset, PragmaBoostNoise, PragmaGlobalPhase, PragmaOverrotation, PragmaRepeatGate,
    PragmaSetDensityMatrix, PragmaSetNumberOfMeasurements, PragmaSetStateVector, PragmaSleep,
    PragmaStartDecompositionBlock, PragmaStopDecompositionBlock, PragmaStopParallelBlock,
};
pub use crate::tags::tags_of;
