//! Circuits, the operation type, and the conditional operation.
//!
//! A circuit is a sequence of operations, and the conditional operation holds a
//! circuit of its own. So the three are defined together, and what they compute
//! runs through the nesting.

use crate::error::RoqoqoError;
use crate::involved::InvolvedQubits;
use crate::laws::{
    lemma_circuit_error_uncovered, lemma_conditional_covered, lemma_substituted_can_substitute,
};
use crate::model::{
    circuit_covered_by, circuit_involved, circuit_involves_all, circuit_is_parametrized,
    circuit_remap_error, circuit_remaps_to, circuit_substitutes_to,
    circuit_substitution_fails_with, circuit_touches, texts, OperationKind, OperationView,
};
use crate::noise::{
    PragmaDamping, PragmaDephasing, PragmaDepolarising, PragmaGeneralNoise, PragmaRandomNoise,
};
use crate::pragma::{
    PragmaActiveReset, PragmaBoostNoise, PragmaGlobalPhase, PragmaOverrotation, PragmaRepeatGate,
    PragmaSetDensityMatrix, PragmaSetNumberOfMeasurements, PragmaSetStateVector, PragmaSleep,
    PragmaStartDecompositionBlock, PragmaStopDecompositionBlock, PragmaStopParallelBlock,
};
use crate::tags::tags_of;
use qoqo_calculator::Calculator;
use std::collections::{HashMap, HashSet};
use vstd::prelude::*;

verus! {

broadcast use {vstd::std_specs::hash::group_hash_axioms, vstd::std_specs::vec::group_vec_axioms};

/// An operation: one of the PRAGMA operations.
#[derive(Debug, PartialEq)]
pub enum Operation {
    /// Sets the number of measurements.
    PragmaSetNumberOfMeasurements(PragmaSetNumberOfMeasurements),
    /// Sets the state vector.
    PragmaSetStateVector(PragmaSetStateVector),
    /// Sets the density matrix.
    PragmaSetDensityMatrix(PragmaSetDensityMatrix),
    /// Repeats the next gate.
    PragmaRepeatGate(PragmaRepeatGate),
    /// Overrotates the next rotation gate.
    PragmaOverrotation(PragmaOverrotation),
    /// Boosts the noise.
    PragmaBoostNoise(PragmaBoostNoise),
    /// Ends a parallel block.
    PragmaStopParallelBlock(PragmaStopParallelBlock),
    /// Picks up a global phase.
    PragmaGlobalPhase(PragmaGlobalPhase),
    /// Waits.
    PragmaSleep(PragmaSleep),
    /// Resets a qubit.
    PragmaActiveReset(PragmaActiveReset),
    /// Starts a decomposition block.
    PragmaStartDecompositionBlock(PragmaStartDecompositionBlock),
    /// Ends a decomposition block.
    PragmaStopDecompositionBlock(PragmaStopDecompositionBlock),
    /// Damping noise.
    PragmaDamping(PragmaDamping),
    /// Depolarising noise.
    PragmaDepolarising(PragmaDepolarising),
    /// Dephasing noise.
    PragmaDephasing(PragmaDephasing),
    /// Random noise.
    PragmaRandomNoise(PragmaRandomNoise),
    /// General noise.
    PragmaGeneralNoise(PragmaGeneralNoise),
    /// Runs a circuit on a condition.
    PragmaConditional(PragmaConditional),
}

/// A circuit: a sequence of operations.
#[derive(Debug, PartialEq)]
pub struct Circuit {
    /// The operations, in the order in which they run.
    pub operations: Vec<Operation>,
}

/// Runs a circuit if a bit of a classical register is set.
///
/// It owns its circuit. What it involves, and how it is remapped and
/// substituted, is what holds of the circuit.
#[derive(Debug, PartialEq)]
pub struct PragmaConditional {
    /// The name of the bit register that holds the condition.
    pub condition_register: String,
    /// The index of the condition in the bit register.
    pub condition_index: usize,
    /// The circuit that runs if the condition holds.
    pub circuit: Circuit,
}

impl Operation {
    /// The value of the operation.
    pub open spec fn model(&self) -> OperationView
        decreases self,
    {
        match self {
            Operation::PragmaSetNumberOfMeasurements(operation) => operation@,
            Operation::PragmaSetStateVector(operation) => operation@,
            Operation::PragmaSetDensityMatrix(operation) => operation@,
            Operation::PragmaRepeatGate(operation) => operation@,
            Operation::PragmaOverrotation(operation) => operation@,
            Operation::PragmaBoostNoise(operation) => operation@,
            Operation::PragmaStopParallelBlock(operation) => operation@,
            Operation::PragmaGlobalPhase(operation) => operation@,
            Operation::PragmaSleep(operation) => operation@,
            Operation::PragmaActiveReset(operation) => operation@,
            Operation::PragmaStartDecompositionBlock(operation) => operation@,
            Operation::PragmaStopDecompositionBlock(operation) => operation@,
            Operation::PragmaDamping(operation) => operation@,
            Operation::PragmaDepolarising(operation) => operation@,
            Operation::PragmaDephasing(operation) => operation@,
            Operation::PragmaRandomNoise(operation) => operation@,
            Operation::PragmaGeneralNoise(operation) => operation@,
            Operation::PragmaConditional(operation) => operation.model(),
        }
    }
}

impl Circuit {
    /// The values of the operations of the circuit, in order.
    pub open spec fn model(&self) -> Seq<OperationView>
        decreases self,
    {
        Seq::new(
            self.operations.len() as nat,
            |i: int|
                if 0 <= i < self.operations.len() {
                    self.operations[i].model()
                } else {
                    arbitrary()
                },
        )
    }
}

impl PragmaConditional {
    /// The value of the operation.
    pub open spec fn model(&self) -> OperationView
        decreases self,
    {
        OperationView::PragmaConditional {
            condition_register: self.condition_register@,
            condition_index: self.condition_index,
            circuit: self.circuit.model(),
        }
    }
}

impl View for Operation {
    type V = OperationView;

    open spec fn view(&self) -> OperationView {
        self.model()
    }
}

impl View for Circuit {
    type V = Seq<OperationView>;

    open spec fn view(&self) -> Seq<OperationView> {
        self.model()
    }
}

impl View for PragmaConditional {
    type V = OperationView;

    open spec fn view(&self) -> OperationView {
        self.model()
    }
}

/// The set `qubits` with the qubits of a list added.
fn with_list(qubits: HashSet<usize>, list: &Vec<usize>) -> (r: HashSet<usize>)
    ensures
        r@ == qubits@.union(Set::new(|qubit: usize| list@.contains(qubit))),
{
    let mut gathered = qubits;
    let mut i: usize = 0;
    while i < list.len()
        invariant
            i <= list.len(),
            forall|qubit: usize|
                gathered@.contains(qubit) <==> qubits@.contains(qubit) || exists|j: int|
                    0 <= j < i && #[trigger] list@[j] == qubit,
        decreases list.len() - i,
    {
        gathered.insert(list[i]);
        i = i + 1;
    }
    assert(gathered@ =~= qubits@.union(Set::new(|qubit: usize| list@.contains(qubit))));
    gathered
}

impl Operation {
    /// Adds the qubits that the operation names to `qubits`, and tells whether
    /// the operation involves all qubits. Where it does, the set that comes
    /// back is of no use.
    fn gather(&self, qubits: HashSet<usize>) -> (r: (bool, HashSet<usize>))
        ensures
            r.0 == self@.involves_all(),
            !r.0 ==> r.1@ == qubits@.union(self@.touched()),
        decreases self,
    {
        match self {
            Operation::PragmaSetNumberOfMeasurements(operation) => {
                assert(self@ == operation@);
                assert(qubits@ =~= qubits@.union(self@.touched()));
                (false, qubits)
            },
            Operation::PragmaSetStateVector(operation) => {
                assert(self@ == operation@);
                (true, qubits)
            },
            Operation::PragmaSetDensityMatrix(operation) => {
                assert(self@ == operation@);
                (true, qubits)
            },
            Operation::PragmaRepeatGate(operation) => {
                assert(self@ == operation@);
                (true, qubits)
            },
            Operation::PragmaOverrotation(operation) => {
                let gathered = with_list(qubits, &operation.qubits);
                assert(self@ == operation@);
                assert(gathered@ =~= qubits@.union(self@.touched()));
                (false, gathered)
            },
            Operation::PragmaBoostNoise(operation) => {
                assert(self@ == operation@);
                assert(qubits@ =~= qubits@.union(self@.touched()));
                (false, qubits)
            },
            Operation::PragmaStopParallelBlock(operation) => {
                let gathered = with_list(qubits, &operation.qubits);
                assert(self@ == operation@);
                assert(gathered@ =~= qubits@.union(self@.touched()));
                (false, gathered)
            },
            Operation::PragmaGlobalPhase(operation) => {
                assert(self@ == operation@);
                assert(qubits@ =~= qubits@.union(self@.touched()));
                (false, qubits)
            },
            Operation::PragmaSleep(operation) => {
                let gathered = with_list(qubits, &operation.qubits);
                assert(self@ == operation@);
                assert(gathered@ =~= qubits@.union(self@.touched()));
                (false, gathered)
            },
            Operation::PragmaActiveReset(operation) => {
                let mut gathered = qubits;
                gathered.insert(operation.qubit);
                assert(self@ == operation@);
                assert(gathered@ =~= qubits@.union(self@.touched()));
                (false, gathered)
            },
            Operation::PragmaStartDecompositionBlock(operation) => {
                let gathered = with_list(qubits, &operation.qubits);
                assert(self@ == operation@);
                assert(gathered@ =~= qubits@.union(self@.touched()));
                (false, gathered)
            },
            Operation::PragmaStopDecompositionBlock(operation) => {
                let gathered = with_list(qubits, &operation.qubits);
                assert(self@ == operation@);
                assert(gathered@ =~= qubits@.union(self@.touched()));
                (false, gathered)
            },
            Operation::PragmaDamping(operation) => {
                let mut gathered = qubits;
                gathered.insert(operation.qubit);
                assert(self@ == operation@);
                assert(gathered@ =~= qubits@.union(self@.touched()));
                (false, gathered)
            },
            Operation::PragmaDepolarising(operation) => {
                let mut gathered = qubits;
                gathered.insert(operation.qubit);
                assert(self@ == operation@);
                assert(gathered@ =~= qubits@.union(self@.touched()));
                (false, gathered)
            },
            Operation::PragmaDephasing(operation) => {
                let mut gathered = qubits;
                gathered.insert(operation.qubit);
                assert(self@ == operation@);
                assert(gathered@ =~= qubits@.union(self@.touched()));
                (false, gathered)
            },
            Operation::PragmaRandomNoise(operation) => {
                let mut gathered = qubits;
                gathered.insert(operation.qubit);
                assert(self@ == operation@);
                assert(gathered@ =~= qubits@.union(self@.touched()));
                (false, gathered)
            },
            Operation::PragmaGeneralNoise(operation) => {
                let mut gathered = qubits;
                gathered.insert(operation.qubit);
                assert(self@ == operation@);
                assert(gathered@ =~= qubits@.union(self@.touched()));
                (false, gathered)
            },
            Operation::PragmaConditional(operation) => {
                let (all, gathered) = operation.circuit.gather(qubits);
                assert(self@ == operation@);
                assert(!all ==> gathered@ =~= qubits@.union(self@.touched()));
                (all, gathered)
            },
        }
    }

    /// The kind of the operation.
    pub fn kind(&self) -> (r: OperationKind)
        ensures
            r == self@.kind(),
    {
        match self {
            Operation::PragmaSetNumberOfMeasurements(_) => {
                OperationKind::PragmaSetNumberOfMeasurements
            },
            Operation::PragmaSetStateVector(_) => OperationKind::PragmaSetStateVector,
            Operation::PragmaSetDensityMatrix(_) => OperationKind::PragmaSetDensityMatrix,
            Operation::PragmaRepeatGate(_) => OperationKind::PragmaRepeatGate,
            Operation::PragmaOverrotation(_) => OperationKind::PragmaOverrotation,
            Operation::PragmaBoostNoise(_) => OperationKind::PragmaBoostNoise,
            Operation::PragmaStopParallelBlock(_) => OperationKind::PragmaStopParallelBlock,
            Operation::PragmaGlobalPhase(_) => OperationKind::PragmaGlobalPhase,
            Operation::PragmaSleep(_) => OperationKind::PragmaSleep,
            Operation::PragmaActiveReset(_) => OperationKind::PragmaActiveReset,
            Operation::PragmaStartDecompositionBlock(_) => {
                OperationKind::PragmaStartDecompositionBlock
            },
            Operation::PragmaStopDecompositionBlock(_) => {
                OperationKind::PragmaStopDecompositionBlock
            },
            Operation::PragmaDamping(_) => OperationKind::PragmaDamping,
            Operation::PragmaDepolarising(_) => OperationKind::PragmaDepolarising,
            Operation::PragmaDephasing(_) => OperationKind::PragmaDephasing,
            Operation::PragmaRandomNoise(_) => OperationKind::PragmaRandomNoise,
            Operation::PragmaGeneralNoise(_) => OperationKind::PragmaGeneralNoise,
            Operation::PragmaConditional(_) => OperationKind::PragmaConditional,
        }
    }

    /// The tags of the operation: those of its kind, `Operation` first and the
    /// name of the kind last.
    pub fn tags(&self) -> (r: Vec<&'static str>)
        ensures
            texts(r@) == self@.tags(),
    {
        tags_of(self.kind())
    }

    /// The name of the operation.
    pub fn hqslang(&self) -> (r: &'static str)
        ensures
            r@ == self@.tags().last(),
    {
        match self {
            Operation::PragmaSetNumberOfMeasurements(operation) => operation.hqslang(),
            Operation::PragmaSetStateVector(operation) => operation.hqslang(),
            Operation::PragmaSetDensityMatrix(operation) => operation.hqslang(),
            Operation::PragmaRepeatGate(operation) => operation.hqslang(),
            Operation::PragmaOverrotation(operation) => operation.hqslang(),
            Operation::PragmaBoostNoise(operation) => operation.hqslang(),
            Operation::PragmaStopParallelBlock(operation) => operation.hqslang(),
            Operation::PragmaGlobalPhase(operation) => operation.hqslang(),
            Operation::PragmaSleep(operation) => operation.hqslang(),
            Operation::PragmaActiveReset(operation) => operation.hqslang(),
            Operation::PragmaStartDecompositionBlock(operation) => operation.hqslang(),
            Operation::PragmaStopDecompositionBlock(operation) => operation.hqslang(),
            Operation::PragmaDamping(operation) => operation.hqslang(),
            Operation::PragmaDepolarising(operation) => operation.hqslang(),
            Operation::PragmaDephasing(operation) => operation.hqslang(),
            Operation::PragmaRandomNoise(operation) => operation.hqslang(),
            Operation::PragmaGeneralNoise(operation) => operation.hqslang(),
            Operation::PragmaConditional(operation) => operation.hqslang(),
        }
    }

    /// Whether a parameter of the operation is still symbolic.
    pub fn is_parametrized(&self) -> (r: bool)
        ensures
            r == self@.is_parametrized(),
        decreases self,
    {
        match self {
            Operation::PragmaSetNumberOfMeasurements(operation) => operation.is_parametrized(),
            Operation::PragmaSetStateVector(operation) => operation.is_parametrized(),
            Operation::PragmaSetDensityMatrix(operation) => operation.is_parametrized(),
            Operation::PragmaRepeatGate(operation) => operation.is_parametrized(),
            Operation::PragmaOverrotation(operation) => operation.is_parametrized(),
            Operation::PragmaBoostNoise(operation) => operation.is_parametrized(),
            Operation::PragmaStopParallelBlock(operation) => operation.is_parametrized(),
            Operation::PragmaGlobalPhase(operation) => operation.is_parametrized(),
            Operation::PragmaSleep(operation) => operation.is_parametrized(),
            Operation::PragmaActiveReset(operation) => operation.is_parametrized(),
            Operation::PragmaStartDecompositionBlock(operation) => operation.is_parametrized(),
            Operation::PragmaStopDecompositionBlock(operation) => operation.is_parametrized(),
            Operation::PragmaDamping(operation) => operation.is_parametrized(),
            Operation::PragmaDepolarising(operation) => operation.is_parametrized(),
            Operation::PragmaDephasing(operation) => operation.is_parametrized(),
            Operation::PragmaRandomNoise(operation) => operation.is_parametrized(),
            Operation::PragmaGeneralNoise(operation) => operation.is_parametrized(),
            Operation::PragmaConditional(operation) => operation.is_parametrized(),
        }
    }

    /// The qubits that the operation involves.
    pub fn involved_qubits(&self) -> (r: InvolvedQubits)
        ensures
            r@ == self@.involved(),
    {
        match self {
            Operation::PragmaSetNumberOfMeasurements(operation) => operation.involved_qubits(),
            Operation::PragmaSetStateVector(operation) => operation.involved_qubits(),
            Operation::PragmaSetDensityMatrix(operation) => operation.involved_qubits(),
            Operation::PragmaRepeatGate(operation) => operation.involved_qubits(),
            Operation::PragmaOverrotation(operation) => operation.involved_qubits(),
            Operation::PragmaBoostNoise(operation) => operation.involved_qubits(),
            Operation::PragmaStopParallelBlock(operation) => operation.involved_qubits(),
            Operation::PragmaGlobalPhase(operation) => operation.involved_qubits(),
            Operation::PragmaSleep(operation) => operation.involved_qubits(),
            Operation::PragmaActiveReset(operation) => operation.involved_qubits(),
            Operation::PragmaStartDecompositionBlock(operation) => operation.involved_qubits(),
            Operation::PragmaStopDecompositionBlock(operation) => operation.involved_qubits(),
            Operation::PragmaDamping(operation) => operation.involved_qubits(),
            Operation::PragmaDepolarising(operation) => operation.involved_qubits(),
            Operation::PragmaDephasing(operation) => operation.involved_qubits(),
            Operation::PragmaRandomNoise(operation) => operation.involved_qubits(),
            Operation::PragmaGeneralNoise(operation) => operation.involved_qubits(),
            Operation::PragmaConditional(operation) => operation.involved_qubits(),
        }
    }

    /// A copy with every qubit replaced by its image under the mapping. It
    /// fails, with nothing remapped, where the mapping lacks a qubit that the
    /// operation uses, and the error names such a qubit.
    pub fn remap_qubits(&self, mapping: &HashMap<usize, usize>) -> (r: Result<Self, RoqoqoError>)
        ensures
            match r {
                Ok(remapped) => self@.remaps_to(mapping@, remapped@),
                Err(e) => e matches RoqoqoError::QubitMappingError { qubit } && self@.remap_error(
                    mapping@,
                    qubit,
                ),
            },
            r is Ok <==> self@.covered_by(mapping@),
        decreases self,
    {
        match self {
            Operation::PragmaSetNumberOfMeasurements(inner) => {
                match inner.remap_qubits(mapping) {
                    Ok(changed) => Ok(Operation::PragmaSetNumberOfMeasurements(changed)),
                    Err(e) => Err(e),
                }
            },
            Operation::PragmaSetStateVector(inner) => {
                match inner.remap_qubits(mapping) {
                    Ok(changed) => Ok(Operation::PragmaSetStateVector(changed)),
                    Err(e) => Err(e),
                }
            },
            Operation::PragmaSetDensityMatrix(inner) => {
                match inner.remap_qubits(mapping) {
                    Ok(changed) => Ok(Operation::PragmaSetDensityMatrix(changed)),
                    Err(e) => Err(e),
                }
            },
            Operation::PragmaRepeatGate(inner) => {
                match inner.remap_qubits(mapping) {
                    Ok(changed) => Ok(Operation::PragmaRepeatGate(changed)),
                    Err(e) => Err(e),
                }
            },
            Operation::PragmaOverrotation(inner) => {
                match inner.remap_qubits(mapping) {
                    Ok(changed) => Ok(Operation::PragmaOverrotation(changed)),
                    Err(e) => Err(e),
                }
            },
            Operation::PragmaBoostNoise(inner) => {
                match inner.remap_qubits(mapping) {
                    Ok(changed) => Ok(Operation::PragmaBoostNoise(changed)),
                    Err(e) => Err(e),
                }
            },
            Operation::PragmaStopParallelBlock(inner) => {
                match inner.remap_qubits(mapping) {
                    Ok(changed) => Ok(Operation::PragmaStopParallelBlock(changed)),
                    Err(e) => Err(e),
                }
            },
            Operation::PragmaGlobalPhase(inner) => {
                match inner.remap_qubits(mapping) {
                    Ok(changed) => Ok(Operation::PragmaGlobalPhase(changed)),
                    Err(e) => Err(e),
                }
            },
            Operation::PragmaSleep(inner) => {
                match inner.remap_qubits(mapping) {
                    Ok(changed) => Ok(Operation::PragmaSleep(changed)),
                    Err(e) => Err(e),
                }
            },
            Operation::PragmaActiveReset(inner) => {
                match inner.remap_qubits(mapping) {
                    Ok(changed) => Ok(Operation::PragmaActiveReset(changed)),
                    Err(e) => Err(e),
                }
            },
            Operation::PragmaStartDecompositionBlock(inner) => {
                match inner.remap_qubits(mapping) {
                    Ok(changed) => Ok(Operation::PragmaStartDecompositionBlock(changed)),
                    Err(e) => Err(e),
                }
            },
            Operation::PragmaStopDecompositionBlock(inner) => {
                match inner.remap_qubits(mapping) {
                    Ok(changed) => Ok(Operation::PragmaStopDecompositionBlock(changed)),
                    Err(e) => Err(e),
                }
            },
            Operation::PragmaDamping(inner) => {
                match inner.remap_qubits(mapping) {
                    Ok(changed) => Ok(Operation::PragmaDamping(changed)),
                    Err(e) => Err(e),
                }
            },
            Operation::PragmaDepolarising(inner) => {
                match inner.remap_qubits(mapping) {
                    Ok(changed) => Ok(Operation::PragmaDepolarising(changed)),
                    Err(e) => Err(e),
                }
            },
            Operation::PragmaDephasing(inner) => {
                match inner.remap_qubits(mapping) {
                    Ok(changed) => Ok(Operation::PragmaDephasing(changed)),
                    Err(e) => Err(e),
                }
            },
            Operation::PragmaRandomNoise(inner) => {
                match inner.remap_qubits(mapping) {
                    Ok(changed) => Ok(Operation::PragmaRandomNoise(changed)),
                    Err(e) => Err(e),
                }
            },
            Operation::PragmaGeneralNoise(inner) => {
                match inner.remap_qubits(mapping) {
                    Ok(changed) => Ok(Operation::PragmaGeneralNoise(changed)),
                    Err(e) => Err(e),
                }
            },
            Operation::PragmaConditional(inner) => {
                match inner.remap_qubits(mapping) {
                    Ok(changed) => Ok(Operation::PragmaConditional(changed)),
                    Err(e) => Err(e),
                }
            },
        }
    }

    /// A copy with every symbolic parameter resolved to a number by the
    /// evaluator. It fails with the error of the first parameter that does
    /// not resolve.
    pub fn substitute_parameters(&self, calculator: &Calculator) -> (r: Result<Self, RoqoqoError>)
        ensures
            match r {
                Ok(substituted) => self@.substitutes_to(substituted@),
                Err(e) => self@.substitution_fails_with(e),
            },
            !self@.is_parametrized() ==> r is Ok,
        decreases self,
    {
        match self {
            Operation::PragmaSetNumberOfMeasurements(inner) => {
                match inner.substitute_parameters(calculator) {
                    Ok(changed) => Ok(Operation::PragmaSetNumberOfMeasurements(changed)),
                    Err(e) => Err(e),
                }
            },
            Operation::PragmaSetStateVector(inner) => {
                match inner.substitute_parameters(calculator) {
                    Ok(changed) => Ok(Operation::PragmaSetStateVector(changed)),
                    Err(e) => Err(e),
                }
            },
            Operation::PragmaSetDensityMatrix(inner) => {
                match inner.substitute_parameters(calculator) {
                    Ok(changed) => Ok(Operation::PragmaSetDensityMatrix(changed)),
                    Err(e) => Err(e),
                }
            },
            Operation::PragmaRepeatGate(inner) => {
                match inner.substitute_parameters(calculator) {
                    Ok(changed) => Ok(Operation::PragmaRepeatGate(changed)),
                    Err(e) => Err(e),
                }
            },
            Operation::PragmaOverrotation(inner) => {
                match inner.substitute_parameters(calculator) {
                    Ok(changed) => Ok(Operation::PragmaOverrotation(changed)),
                    Err(e) => Err(e),
                }
            },
            Operation::PragmaBoostNoise(inner) => {
                match inner.substitute_parameters(calculator) {
                    Ok(changed) => Ok(Operation::PragmaBoostNoise(changed)),
                    Err(e) => Err(e),
                }
            },
            Operation::PragmaStopParallelBlock(inner) => {
                match inner.substitute_parameters(calculator) {
                    Ok(changed) => Ok(Operation::PragmaStopParallelBlock(changed)),
                    Err(e) => Err(e),
                }
            },
            Operation::PragmaGlobalPhase(inner) => {
                match inner.substitute_parameters(calculator) {
                    Ok(changed) => Ok(Operation::PragmaGlobalPhase(changed)),
                    Err(e) => Err(e),
                }
            },
            Operation::PragmaSleep(inner) => {
                match inner.substitute_parameters(calculator) {
                    Ok(changed) => Ok(Operation::PragmaSleep(changed)),
                    Err(e) => Err(e),
                }
            },
            Operation::PragmaActiveReset(inner) => {
                match inner.substitute_parameters(calculator) {
                    Ok(changed) => Ok(Operation::PragmaActiveReset(changed)),
                    Err(e) => Err(e),
                }
            },
            Operation::PragmaStartDecompositionBlock(inner) => {
                match inner.substitute_parameters(calculator) {
                    Ok(changed) => Ok(Operation::PragmaStartDecompositionBlock(changed)),
                    Err(e) => Err(e),
                }
            },
            Operation::PragmaStopDecompositionBlock(inner) => {
                match inner.substitute_parameters(calculator) {
                    Ok(changed) => Ok(Operation::PragmaStopDecompositionBlock(changed)),
                    Err(e) => Err(e),
                }
            },
            Operation::PragmaDamping(inner) => {
                match inner.substitute_parameters(calculator) {
                    Ok(changed) => Ok(Operation::PragmaDamping(changed)),
                    Err(e) => Err(e),
                }
            },
            Operation::PragmaDepolarising(inner) => {
                match inner.substitute_parameters(calculator) {
                    Ok(changed) => Ok(Operation::PragmaDepolarising(changed)),
                    Err(e) => Err(e),
                }
            },
            Operation::PragmaDephasing(inner) => {
                match inner.substitute_parameters(calculator) {
                    Ok(changed) => Ok(Operation::PragmaDephasing(changed)),
                    Err(e) => Err(e),
                }
            },
            Operation::PragmaRandomNoise(inner) => {
                match inner.substitute_parameters(calculator) {
                    Ok(changed) => Ok(Operation::PragmaRandomNoise(changed)),
                    Err(e) => Err(e),
                }
            },
            Operation::PragmaGeneralNoise(inner) => {
                match inner.substitute_parameters(calculator) {
                    Ok(changed) => Ok(Operation::PragmaGeneralNoise(changed)),
                    Err(e) => Err(e),
                }
            },
            Operation::PragmaConditional(inner) => {
                match inner.substitute_parameters(calculator) {
                    Ok(changed) => Ok(Operation::PragmaConditional(changed)),
                    Err(e) => Err(e),
                }
            },
        }
    }
}

impl Clone for Operation {
    /// A copy with the same value.
    fn clone(&self) -> (r: Self)
        ensures
            r@ == self@,
        decreases self,
    {
        match self {
            Operation::PragmaSetNumberOfMeasurements(operation) => {
                Operation::PragmaSetNumberOfMeasurements(operation.clone())
            },
            Operation::PragmaSetStateVector(operation) => {
                Operation::PragmaSetStateVector(operation.clone())
            },
            Operation::PragmaSetDensityMatrix(operation) => {
                Operation::PragmaSetDensityMatrix(operation.clone())
            },
            Operation::PragmaRepeatGate(operation) => {
                Operation::PragmaRepeatGate(operation.clone())
            },
            Operation::PragmaOverrotation(operation) => {
                Operation::PragmaOverrotation(operation.clone())
            },
            Operation::PragmaBoostNoise(operation) => {
                Operation::PragmaBoostNoise(operation.clone())
            },
            Operation::PragmaStopParallelBlock(operation) => {
                Operation::PragmaStopParallelBlock(operation.clone())
            },
            Operation::PragmaGlobalPhase(operation) => {
                Operation::PragmaGlobalPhase(operation.clone())
            },
            Operation::PragmaSleep(operation) => Operation::PragmaSleep(operation.clone()),
            Operation::PragmaActiveReset(operation) => {
                Operation::PragmaActiveReset(operation.clone())
            },
            Operation::PragmaStartDecompositionBlock(operation) => {
                Operation::PragmaStartDecompositionBlock(operation.clone())
            },
            Operation::PragmaStopDecompositionBlock(operation) => {
                Operation::PragmaStopDecompositionBlock(operation.clone())
            },
            Operation::PragmaDamping(operation) => Operation::PragmaDamping(operation.clone()),
            Operation::PragmaDepolarising(operation) => {
                Operation::PragmaDepolarising(operation.clone())
            },
            Operation::PragmaDephasing(operation) => Operation::PragmaDephasing(operation.clone()),
            Operation::PragmaRandomNoise(operation) => {
                Operation::PragmaRandomNoise(operation.clone())
            },
            Operation::PragmaGeneralNoise(operation) => {
                Operation::PragmaGeneralNoise(operation.clone())
            },
            Operation::PragmaConditional(operation) => {
                Operation::PragmaConditional(operation.clone())
            },
        }
    }
}

impl Circuit {
    /// The empty circuit.
    pub fn new() -> (r: Self)
        ensures
            r@ == Seq::<OperationView>::empty(),
    {
        let circuit = Circuit { operations: Vec::new() };
        assert(circuit@ =~= Seq::<OperationView>::empty());
        circuit
    }

    /// Appends an operation to the circuit.
    pub fn add_operation(&mut self, operation: Operation)
        ensures
            final(self)@ == old(self)@.push(operation@),
    {
        self.operations.push(operation);
        assert(self@ =~= old(self)@.push(operation@));
    }

    /// The number of operations.
    pub fn len(&self) -> (r: usize)
        ensures
            r == self@.len(),
    {
        self.operations.len()
    }

    /// Whether the circuit holds no operation.
    pub fn is_empty(&self) -> (r: bool)
        ensures
            r == (self@.len() == 0),
    {
        self.operations.len() == 0
    }

    /// The operation at a place counted from zero, or nothing where the circuit
    /// is shorter.
    pub fn get(&self, index: usize) -> (r: Option<&Operation>)
        ensures
            match r {
                Some(operation) => index < self@.len() && operation@ == self@[index as int],
                None => index >= self@.len(),
            },
    {
        if index < self.operations.len() {
            Some(&self.operations[index])
        } else {
            None
        }
    }

    /// Adds the qubits that the operations of the circuit name to `qubits`, and
    /// tells whether one of them involves all qubits. Where one does, the set
    /// that comes back is of no use.
    fn gather(&self, qubits: HashSet<usize>) -> (r: (bool, HashSet<usize>))
        ensures
            r.0 == circuit_involves_all(self@),
            !r.0 ==> r.1@ == qubits@.union(Set::new(|qubit: usize| circuit_touches(self@, qubit))),
        decreases self,
    {
        let mut gathered = qubits;
        let mut i: usize = 0;
        while i < self.operations.len()
            invariant
                i <= self.operations.len(),
                forall|j: int| 0 <= j < i ==> !(#[trigger] self@[j]).involves_all(),
                forall|qubit: usize|
                    gathered@.contains(qubit) <==> qubits@.contains(qubit) || exists|j: int|
                        0 <= j < i && (#[trigger] self@[j]).touches(qubit),
            decreases self.operations.len() - i,
        {
            let ghost before = gathered@;
            let (all, next) = self.operations[i].gather(gathered);
            assert(self.operations[i as int]@ == self@[i as int]);
            if all {
                return (true, next);
            }
            gathered = next;
            proof {
                assert forall|qubit: usize|
                    gathered@.contains(qubit) <==> qubits@.contains(qubit) || exists|j: int|
                        0 <= j < i + 1 && (#[trigger] self@[j]).touches(qubit) by {
                    if gathered@.contains(qubit) && !before.contains(qubit) {
                        assert(self@[i as int].touches(qubit));
                    }
                    if exists|j: int| 0 <= j < i + 1 && (#[trigger] self@[j]).touches(qubit) {
                        let j = choose|j: int|
                            0 <= j < i + 1 && (#[trigger] self@[j]).touches(qubit);
                        if j < i {
                            assert(before.contains(qubit));
                        }
                    }
                }
            }
            i = i + 1;
        }
        assert(gathered@ =~= qubits@.union(
            Set::new(|qubit: usize| circuit_touches(self@, qubit)),
        ));
        (false, gathered)
    }

    /// Whether a parameter of an operation of the circuit is still symbolic.
    pub fn is_parametrized(&self) -> (r: bool)
        ensures
            r == circuit_is_parametrized(self@),
        decreases self,
    {
        let mut i: usize = 0;
        while i < self.operations.len()
            invariant
                i <= self.operations.len(),
                forall|j: int| 0 <= j < i ==> !(#[trigger] self@[j]).is_parametrized(),
            decreases self.operations.len() - i,
        {
            let found = self.operations[i].is_parametrized();
            assert(self.operations[i as int]@ == self@[i as int]);
            if found {
                return true;
            }
            i = i + 1;
        }
        false
    }

    /// The qubits that the circuit involves: all if one of its operations
    /// involves all, else the qubits that its operations name, and none where
    /// they name none.
    pub fn involved_qubits(&self) -> (r: InvolvedQubits)
        ensures
            r@ == circuit_involved(self@),
    {
        let (all, qubits) = self.gather(HashSet::new());
        if all {
            InvolvedQubits::All
        } else {
            assert(qubits@ =~= Set::new(|qubit: usize| circuit_touches(self@, qubit)));
            if qubits.is_empty() {
                assert forall|qubit: usize| !circuit_touches(self@, qubit) by {
                    assert(!qubits@.contains(qubit));
                }
                InvolvedQubits::Nothing
            } else {
                assert(exists|qubit: usize| circuit_touches(self@, qubit)) by {
                    let qubit = choose|qubit: usize| qubits@.contains(qubit);
                    assert(qubits@.contains(qubit));
                }
                InvolvedQubits::ExplicitSet(qubits)
            }
        }
    }

    /// A copy with every operation remapped. It fails, with nothing remapped,
    /// where the mapping lacks a qubit that an operation uses, and the error is
    /// that of the first operation that fails.
    pub fn remap_qubits(&self, mapping: &HashMap<usize, usize>) -> (r: Result<Self, RoqoqoError>)
        ensures
            match r {
                Ok(remapped) => circuit_remaps_to(self@, mapping@, remapped@),
                Err(e) => e matches RoqoqoError::QubitMappingError { qubit }
                    && circuit_remap_error(self@, mapping@, qubit),
            },
            r is Ok <==> circuit_covered_by(self@, mapping@),
        decreases self,
    {
        let mut operations: Vec<Operation> = Vec::new();
        let mut i: usize = 0;
        while i < self.operations.len()
            invariant
                i <= self.operations.len(),
                operations.len() == i,
                forall|j: int| 0 <= j < i ==> (#[trigger] self@[j]).covered_by(mapping@),
                forall|j: int|
                    0 <= j < i ==> (#[trigger] self@[j]).remaps_to(mapping@, operations[j]@),
            decreases self.operations.len() - i,
        {
            assert(self.operations[i as int]@ == self@[i as int]);
            match self.operations[i].remap_qubits(mapping) {
                Ok(remapped) => operations.push(remapped),
                Err(e) => {
                    proof {
                        lemma_circuit_error_uncovered(self@, mapping@, e);
                    }
                    return Err(e);
                },
            }
            i = i + 1;
        }
        let remapped = Circuit { operations };
        assert forall|j: int| 0 <= j < self@.len() implies (#[trigger] self@[j]).remaps_to(
            mapping@,
            remapped@[j],
        ) by {
            assert(remapped@[j] == remapped.operations[j]@);
        }
        Ok(remapped)
    }

    /// A copy with the parameters of every operation resolved. It fails with
    /// the error of the first operation that fails.
    pub fn substitute_parameters(&self, calculator: &Calculator) -> (r: Result<Self, RoqoqoError>)
        ensures
            match r {
                Ok(substituted) => circuit_substitutes_to(self@, substituted@),
                Err(e) => circuit_substitution_fails_with(self@, e),
            },
            !circuit_is_parametrized(self@) ==> r is Ok,
        decreases self,
    {
        let mut operations: Vec<Operation> = Vec::new();
        let mut i: usize = 0;
        while i < self.operations.len()
            invariant
                i <= self.operations.len(),
                operations.len() == i,
                forall|j: int| 0 <= j < i ==> (#[trigger] self@[j]).can_substitute(),
                forall|j: int|
                    0 <= j < i ==> (#[trigger] self@[j]).substitutes_to(operations[j]@),
            decreases self.operations.len() - i,
        {
            assert(self.operations[i as int]@ == self@[i as int]);
            match self.operations[i].substitute_parameters(calculator) {
                Ok(substituted) => {
                    proof {
                        lemma_substituted_can_substitute(self@[i as int], substituted@);
                    }
                    operations.push(substituted);
                },
                Err(e) => return Err(e),
            }
            i = i + 1;
        }
        let substituted = Circuit { operations };
        assert forall|j: int| 0 <= j < self@.len() implies (#[trigger] self@[j]).substitutes_to(
            substituted@[j],
        ) by {
            assert(substituted@[j] == substituted.operations[j]@);
        }
        Ok(substituted)
    }
}

impl Clone for Circuit {
    /// A copy with the same operations.
    fn clone(&self) -> (r: Self)
        ensures
            r@ == self@,
        decreases self,
    {
        let mut operations: Vec<Operation> = Vec::new();
        let mut i: usize = 0;
        while i < self.operations.len()
            invariant
                i <= self.operations.len(),
                operations.len() == i,
                forall|j: int| 0 <= j < i ==> (#[trigger] operations[j])@ == self@[j],
            decreases self.operations.len() - i,
        {
            assert(self.operations[i as int]@ == self@[i as int]);
            operations.push(self.operations[i].clone());
            i = i + 1;
        }
        let copy = Circuit { operations };
        assert(copy@ =~= self@);
        copy
    }
}

impl PragmaConditional {
    /// Makes the operation of its parts.
    pub fn new(condition_register: String, condition_index: usize, circuit: Circuit) -> (r: Self)
        ensures
            r@ == (OperationView::PragmaConditional {
                condition_register: condition_register@,
                condition_index,
                circuit: circuit@,
            }),
    {
        PragmaConditional { condition_register, condition_index, circuit }
    }

    /// The name of the bit register that holds the condition.
    pub fn condition_register(&self) -> (r: &String)
        ensures
            *r == self.condition_register,
    {
        &self.condition_register
    }

    /// The index of the condition in the bit register.
    pub fn condition_index(&self) -> (r: &usize)
        ensures
            *r == self.condition_index,
    {
        &self.condition_index
    }

    /// The circuit that runs if the condition holds.
    pub fn circuit(&self) -> (r: &Circuit)
        ensures
            *r == self.circuit,
    {
        &self.circuit
    }

    /// The tags of the operation, `Operation` first and its own name last.
    pub fn tags(&self) -> (r: Vec<&'static str>)
        ensures
            texts(r@) == self@.tags(),
    {
        tags_of(OperationKind::PragmaConditional)
    }

    /// The name of the operation.
    pub fn hqslang(&self) -> (r: &'static str)
        ensures
            r@ == "PragmaConditional"@,
    {
        "PragmaConditional"
    }

    /// Whether a parameter of an operation of the circuit is still symbolic.
    pub fn is_parametrized(&self) -> (r: bool)
        ensures
            r == self@.is_parametrized(),
        decreases self,
    {
        self.circuit.is_parametrized()
    }

    /// The qubits that the operation involves: those that its circuit
    /// involves.
    pub fn involved_qubits(&self) -> (r: InvolvedQubits)
        ensures
            r@ == self@.involved(),
            r@ == circuit_involved(self.circuit@),
    {
        self.circuit.involved_qubits()
    }

    /// A copy whose circuit is remapped. It fails as the remapping of the
    /// circuit fails, with the same error.
    pub fn remap_qubits(&self, mapping: &HashMap<usize, usize>) -> (r: Result<Self, RoqoqoError>)
        ensures
            match r {
                Ok(remapped) => self@.remaps_to(mapping@, remapped@),
                Err(e) => e matches RoqoqoError::QubitMappingError { qubit } && self@.remap_error(
                    mapping@,
                    qubit,
                ),
            },
            r is Ok <==> self@.covered_by(mapping@),
        decreases self,
    {
        proof {
            lemma_conditional_covered(self@, mapping@);
        }
        let circuit = match self.circuit.remap_qubits(mapping) {
            Ok(remapped) => remapped,
            Err(e) => return Err(e),
        };
        Ok(
            PragmaConditional {
                condition_register: self.condition_register.clone(),
                condition_index: self.condition_index,
                circuit,
            },
        )
    }

    /// A copy whose circuit has its parameters resolved. It fails as the
    /// substitution of the circuit fails, with the same error.
    pub fn substitute_parameters(&self, calculator: &Calculator) -> (r: Result<Self, RoqoqoError>)
        ensures
            match r {
                Ok(substituted) => self@.substitutes_to(substituted@),
                Err(e) => self@.substitution_fails_with(e),
            },
            !self@.is_parametrized() ==> r is Ok,
        decreases self,
    {
        let circuit = match self.circuit.substitute_parameters(calculator) {
            Ok(substituted) => substituted,
            Err(e) => return Err(e),
        };
        Ok(
            PragmaConditional {
                condition_register: self.condition_register.clone(),
                condition_index: self.condition_index,
                circuit,
            },
        )
    }
}

impl Clone for PragmaConditional {
    /// A copy with the same value.
    fn clone(&self) -> (r: Self)
        ensures
            r@ == self@,
        decreases self,
    {
        PragmaConditional {
            condition_register: self.condition_register.clone(),
            condition_index: self.condition_index,
            circuit: self.circuit.clone(),
        }
    }
}

} // verus!
