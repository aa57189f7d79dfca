//! The PRAGMA operations that set up, time and frame a circuit.

use crate::arrays::{ComplexMatrix, ComplexVector};
use crate::calculator::resolve;
use crate::error::RoqoqoError;
use crate::involved::{set_of, InvolvedQubits, Involvement};
use crate::laws::lemma_error_uncovered;
use crate::mapping::{
    copy_list, covers, covers_dictionary, lemma_covered_dictionary, lemma_covered_qubits,
    remap_dictionary, remap_list, remap_qubit,
};
use crate::model::{texts, OperationKind, OperationView};
use crate::tags::tags_of;
use qoqo_calculator::{Calculator, CalculatorFloat};
use std::collections::{HashMap, HashSet};
use vstd::prelude::*;

verus! {

broadcast use vstd::std_specs::hash::group_hash_axioms;

/// Sets the number of measurements of the circuit.
///
/// It is for backends that let the number of tries be set. It involves no qubit.
#[derive(Debug, PartialEq)]
pub struct PragmaSetNumberOfMeasurements {
    /// The number of measurements.
    pub number_measurements: usize,
    /// The register for the readout.
    pub readout: String,
}

impl View for PragmaSetNumberOfMeasurements {
    type V = OperationView;

    open spec fn view(&self) -> OperationView {
        OperationView::PragmaSetNumberOfMeasurements {
            number_measurements: self.number_measurements,
            readout: self.readout@,
        }
    }
}

impl Clone for PragmaSetNumberOfMeasurements {
    /// A copy with the same value.
    fn clone(&self) -> (r: Self)
        ensures
            r@ == self@,
    {
        PragmaSetNumberOfMeasurements {
            number_measurements: self.number_measurements,
            readout: self.readout.clone(),
        }
    }
}

impl PragmaSetNumberOfMeasurements {
    /// Makes the operation of its parts.
    pub fn new(number_measurements: usize, readout: String) -> (r: Self)
        ensures
            r@ == (OperationView::PragmaSetNumberOfMeasurements {
                number_measurements,
                readout: readout@,
            }),
    {
        PragmaSetNumberOfMeasurements { number_measurements, readout }
    }

    /// The number of measurements.
    pub fn number_measurements(&self) -> (r: &usize)
        ensures
            *r == self.number_measurements,
    {
        &self.number_measurements
    }

    /// The register for the readout.
    pub fn readout(&self) -> (r: &String)
        ensures
            *r == self.readout,
    {
        &self.readout
    }

    /// The tags of the operation, `Operation` first and its own name last.
    pub fn tags(&self) -> (r: Vec<&'static str>)
        ensures
            texts(r@) == self@.tags(),
    {
        tags_of(OperationKind::PragmaSetNumberOfMeasurements)
    }

    /// The name of the operation.
    pub fn hqslang(&self) -> (r: &'static str)
        ensures
            r@ == "PragmaSetNumberOfMeasurements"@,
    {
        "PragmaSetNumberOfMeasurements"
    }

    /// Whether a parameter of the operation is still symbolic: it has none, so
    /// never.
    pub fn is_parametrized(&self) -> (r: bool)
        ensures
            r == self@.is_parametrized(),
    {
        false
    }

    /// The qubits that the operation involves: none.
    pub fn involved_qubits(&self) -> (r: InvolvedQubits)
        ensures
            r@ == self@.involved(),
            r@ == Involvement::Nothing,
    {
        InvolvedQubits::Nothing
    }

    /// A copy with its qubits remapped: it names no qubit, so a plain copy.
    pub fn remap_qubits(&self, mapping: &HashMap<usize, usize>) -> (r: Result<Self, RoqoqoError>)
        ensures
            match r {
                Ok(remapped) => self@.remaps_to(mapping@, remapped@),
                Err(e) => e matches RoqoqoError::QubitMappingError { qubit } && self@.remap_error(
                    mapping@,
                    qubit,
                ),
            },
            r is Ok <==> self@.covered_by(mapping@),
            r is Ok,
    {
        Ok(self.clone())
    }

    /// A copy with its parameters resolved: it has none, so a plain copy.
    pub fn substitute_parameters(&self, calculator: &Calculator) -> (r: Result<Self, RoqoqoError>)
        ensures
            match r {
                Ok(substituted) => self@.substitutes_to(substituted@),
                Err(e) => self@.substitution_fails_with(e),
            },
            !self@.is_parametrized() ==> r is Ok,
            r is Ok,
    {
        Ok(self.clone())
    }
}

/// Sets the state vector of the quantum register.
///
/// It applies to the whole register and so involves all qubits.
#[derive(Debug, PartialEq)]
pub struct PragmaSetStateVector {
    /// The state vector that is set.
    pub statevector: ComplexVector,
}

impl View for PragmaSetStateVector {
    type V = OperationView;

    open spec fn view(&self) -> OperationView {
        OperationView::PragmaSetStateVector {
            statevector: self.statevector,
        }
    }
}

impl Clone for PragmaSetStateVector {
    /// A copy with the same value.
    fn clone(&self) -> (r: Self)
        ensures
            r@ == self@,
    {
        PragmaSetStateVector {
            statevector: self.statevector.clone(),
        }
    }
}

impl PragmaSetStateVector {
    /// Makes the operation of its parts.
    pub fn new(statevector: ComplexVector) -> (r: Self)
        ensures
            r@ == (OperationView::PragmaSetStateVector {
                statevector,
            }),
    {
        PragmaSetStateVector { statevector }
    }

    /// The state vector that is set.
    pub fn statevector(&self) -> (r: &ComplexVector)
        ensures
            *r == self.statevector,
    {
        &self.statevector
    }

    /// The tags of the operation, `Operation` first and its own name last.
    pub fn tags(&self) -> (r: Vec<&'static str>)
        ensures
            texts(r@) == self@.tags(),
    {
        tags_of(OperationKind::PragmaSetStateVector)
    }

    /// The name of the operation.
    pub fn hqslang(&self) -> (r: &'static str)
        ensures
            r@ == "PragmaSetStateVector"@,
    {
        "PragmaSetStateVector"
    }

    /// Whether a parameter of the operation is still symbolic: it has none, so
    /// never.
    pub fn is_parametrized(&self) -> (r: bool)
        ensures
            r == self@.is_parametrized(),
    {
        false
    }

    /// The qubits that the operation involves: all.
    pub fn involved_qubits(&self) -> (r: InvolvedQubits)
        ensures
            r@ == self@.involved(),
            r@ == Involvement::All,
    {
        InvolvedQubits::All
    }

    /// A copy with its qubits remapped: it names no qubit, so a plain copy.
    pub fn remap_qubits(&self, mapping: &HashMap<usize, usize>) -> (r: Result<Self, RoqoqoError>)
        ensures
            match r {
                Ok(remapped) => self@.remaps_to(mapping@, remapped@),
                Err(e) => e matches RoqoqoError::QubitMappingError { qubit } && self@.remap_error(
                    mapping@,
                    qubit,
                ),
            },
            r is Ok <==> self@.covered_by(mapping@),
            r is Ok,
    {
        Ok(self.clone())
    }

    /// A copy with its parameters resolved: it has none, so a plain copy.
    pub fn substitute_parameters(&self, calculator: &Calculator) -> (r: Result<Self, RoqoqoError>)
        ensures
            match r {
                Ok(substituted) => self@.substitutes_to(substituted@),
                Err(e) => self@.substitution_fails_with(e),
            },
            !self@.is_parametrized() ==> r is Ok,
            r is Ok,
    {
        Ok(self.clone())
    }
}

/// Sets the density matrix of the quantum register.
///
/// It applies to the whole register and so involves all qubits.
#[derive(Debug, PartialEq)]
pub struct PragmaSetDensityMatrix {
    /// The density matrix that is set.
    pub density_matrix: ComplexMatrix,
}

impl View for PragmaSetDensityMatrix {
    type V = OperationView;

    open spec fn view(&self) -> OperationView {
        OperationView::PragmaSetDensityMatrix {
            density_matrix: self.density_matrix,
        }
    }
}

impl Clone for PragmaSetDensityMatrix {
    /// A copy with the same value.
    fn clone(&self) -> (r: Self)
        ensures
            r@ == self@,
    {
        PragmaSetDensityMatrix {
            density_matrix: self.density_matrix.clone(),
        }
    }
}

impl PragmaSetDensityMatrix {
    /// Makes the operation of its parts.
    pub fn new(density_matrix: ComplexMatrix) -> (r: Self)
        ensures
            r@ == (OperationView::PragmaSetDensityMatrix {
                density_matrix,
            }),
    {
        PragmaSetDensityMatrix { density_matrix }
    }

    /// The density matrix that is set.
    pub fn density_matrix(&self) -> (r: &ComplexMatrix)
        ensures
            *r == self.density_matrix,
    {
        &self.density_matrix
    }

    /// The tags of the operation, `Operation` first and its own name last.
    pub fn tags(&self) -> (r: Vec<&'static str>)
        ensures
            texts(r@) == self@.tags(),
    {
        tags_of(OperationKind::PragmaSetDensityMatrix)
    }

    /// The name of the operation.
    pub fn hqslang(&self) -> (r: &'static str)
        ensures
            r@ == "PragmaSetDensityMatrix"@,
    {
        "PragmaSetDensityMatrix"
    }

    /// Whether a parameter of the operation is still symbolic: it has none, so
    /// never.
    pub fn is_parametrized(&self) -> (r: bool)
        ensures
            r == self@.is_parametrized(),
    {
        false
    }

    /// The qubits that the operation involves: all.
    pub fn involved_qubits(&self) -> (r: InvolvedQubits)
        ensures
            r@ == self@.involved(),
            r@ == Involvement::All,
    {
        InvolvedQubits::All
    }

    /// A copy with its qubits remapped: it names no qubit, so a plain copy.
    pub fn remap_qubits(&self, mapping: &HashMap<usize, usize>) -> (r: Result<Self, RoqoqoError>)
        ensures
            match r {
                Ok(remapped) => self@.remaps_to(mapping@, remapped@),
                Err(e) => e matches RoqoqoError::QubitMappingError { qubit } && self@.remap_error(
                    mapping@,
                    qubit,
                ),
            },
            r is Ok <==> self@.covered_by(mapping@),
            r is Ok,
    {
        Ok(self.clone())
    }

    /// A copy with its parameters resolved: it has none, so a plain copy.
    pub fn substitute_parameters(&self, calculator: &Calculator) -> (r: Result<Self, RoqoqoError>)
        ensures
            match r {
                Ok(substituted) => self@.substitutes_to(substituted@),
                Err(e) => self@.substitution_fails_with(e),
            },
            !self@.is_parametrized() ==> r is Ok,
            r is Ok,
    {
        Ok(self.clone())
    }
}

/// Repeats the next gate of the circuit a number of times, to raise the rate of
/// errors for error mitigation.
///
/// It frames the next instruction whatever its qubits are, so it involves all
/// qubits.
#[derive(Debug, PartialEq)]
pub struct PragmaRepeatGate {
    /// How many times the next gate is repeated.
    pub repetition_coefficient: usize,
}

impl View for PragmaRepeatGate {
    type V = OperationView;

    open spec fn view(&self) -> OperationView {
        OperationView::PragmaRepeatGate {
            repetition_coefficient: self.repetition_coefficient,
        }
    }
}

impl Clone for PragmaRepeatGate {
    /// A copy with the same value.
    fn clone(&self) -> (r: Self)
        ensures
            r@ == self@,
    {
        PragmaRepeatGate {
            repetition_coefficient: self.repetition_coefficient,
        }
    }
}

impl PragmaRepeatGate {
    /// Makes the operation of its parts.
    pub fn new(repetition_coefficient: usize) -> (r: Self)
        ensures
            r@ == (OperationView::PragmaRepeatGate {
                repetition_coefficient,
            }),
    {
        PragmaRepeatGate { repetition_coefficient }
    }

    /// How many times the next gate is repeated.
    pub fn repetition_coefficient(&self) -> (r: &usize)
        ensures
            *r == self.repetition_coefficient,
    {
        &self.repetition_coefficient
    }

    /// The tags of the operation, `Operation` first and its own name last.
    pub fn tags(&self) -> (r: Vec<&'static str>)
        ensures
            texts(r@) == self@.tags(),
    {
        tags_of(OperationKind::PragmaRepeatGate)
    }

    /// The name of the operation.
    pub fn hqslang(&self) -> (r: &'static str)
        ensures
            r@ == "PragmaRepeatGate"@,
    {
        "PragmaRepeatGate"
    }

    /// Whether a parameter of the operation is still symbolic: it has none, so
    /// never.
    pub fn is_parametrized(&self) -> (r: bool)
        ensures
            r == self@.is_parametrized(),
    {
        false
    }

    /// The qubits that the operation involves: all.
    pub fn involved_qubits(&self) -> (r: InvolvedQubits)
        ensures
            r@ == self@.involved(),
            r@ == Involvement::All,
    {
        InvolvedQubits::All
    }

    /// A copy with its qubits remapped: it names no qubit, so a plain copy.
    pub fn remap_qubits(&self, mapping: &HashMap<usize, usize>) -> (r: Result<Self, RoqoqoError>)
        ensures
            match r {
                Ok(remapped) => self@.remaps_to(mapping@, remapped@),
                Err(e) => e matches RoqoqoError::QubitMappingError { qubit } && self@.remap_error(
                    mapping@,
                    qubit,
                ),
            },
            r is Ok <==> self@.covered_by(mapping@),
            r is Ok,
    {
        Ok(self.clone())
    }

    /// A copy with its parameters resolved: it has none, so a plain copy.
    pub fn substitute_parameters(&self, calculator: &Calculator) -> (r: Result<Self, RoqoqoError>)
        ensures
            match r {
                Ok(substituted) => self@.substitutes_to(substituted@),
                Err(e) => self@.substitution_fails_with(e),
            },
            !self@.is_parametrized() ==> r is Ok,
            r is Ok,
    {
        Ok(self.clone())
    }
}

/// Applies a statistical overrotation to the next rotation gate with the given
/// name on the given qubits.
///
/// The rotation angle gets a random number added, drawn from a normal
/// distribution with mean zero and the given standard deviation and multiplied by
/// the amplitude. Amplitude and standard deviation are held as the bits of a
/// 64-bit IEEE 754 number.
#[derive(Debug, PartialEq)]
pub struct PragmaOverrotation {
    /// The name of the rotation gate that is overrotated.
    pub gate_hqslang: String,
    /// The qubits of the rotation gate that is overrotated.
    pub qubits: Vec<usize>,
    /// The bits of the amplitude that the random number is multiplied by.
    pub amplitude: u64,
    /// The bits of the standard deviation of the normal distribution.
    pub variance: u64,
}

impl View for PragmaOverrotation {
    type V = OperationView;

    open spec fn view(&self) -> OperationView {
        OperationView::PragmaOverrotation {
            gate_hqslang: self.gate_hqslang@,
            qubits: self.qubits@,
            amplitude: self.amplitude,
            variance: self.variance,
        }
    }
}

impl Clone for PragmaOverrotation {
    /// A copy with the same value.
    fn clone(&self) -> (r: Self)
        ensures
            r@ == self@,
    {
        PragmaOverrotation {
            gate_hqslang: self.gate_hqslang.clone(),
            qubits: copy_list(&self.qubits),
            amplitude: self.amplitude,
            variance: self.variance,
        }
    }
}

impl PragmaOverrotation {
    /// Makes the operation of its parts.
    pub fn new(gate_hqslang: String, qubits: Vec<usize>, amplitude: u64, variance: u64) -> (r: Self)
        ensures
            r@ == (OperationView::PragmaOverrotation {
                gate_hqslang: gate_hqslang@,
                qubits: qubits@,
                amplitude,
                variance,
            }),
    {
        PragmaOverrotation { gate_hqslang, qubits, amplitude, variance }
    }

    /// The name of the rotation gate that is overrotated.
    pub fn gate_hqslang(&self) -> (r: &String)
        ensures
            *r == self.gate_hqslang,
    {
        &self.gate_hqslang
    }

    /// The qubits of the rotation gate that is overrotated.
    pub fn qubits(&self) -> (r: &Vec<usize>)
        ensures
            *r == self.qubits,
    {
        &self.qubits
    }

    /// The bits of the amplitude that the random number is multiplied by.
    pub fn amplitude(&self) -> (r: &u64)
        ensures
            *r == self.amplitude,
    {
        &self.amplitude
    }

    /// The bits of the standard deviation of the normal distribution.
    pub fn variance(&self) -> (r: &u64)
        ensures
            *r == self.variance,
    {
        &self.variance
    }

    /// The tags of the operation, `Operation` first and its own name last.
    pub fn tags(&self) -> (r: Vec<&'static str>)
        ensures
            texts(r@) == self@.tags(),
    {
        tags_of(OperationKind::PragmaOverrotation)
    }

    /// The name of the operation.
    pub fn hqslang(&self) -> (r: &'static str)
        ensures
            r@ == "PragmaOverrotation"@,
    {
        "PragmaOverrotation"
    }

    /// Whether a parameter of the operation is still symbolic: it has none, so
    /// never.
    pub fn is_parametrized(&self) -> (r: bool)
        ensures
            r == self@.is_parametrized(),
    {
        false
    }

    /// The qubits that the operation involves: those of its list.
    pub fn involved_qubits(&self) -> (r: InvolvedQubits)
        ensures
            r@ == self@.involved(),
            r@ == Involvement::ExplicitSet(self.qubits@.to_set()),
    {
        let qubits = set_of(&self.qubits);
        assert(qubits@ =~= self@.touched());
        InvolvedQubits::ExplicitSet(qubits)
    }

    /// A copy with every qubit of its list replaced by the image under the
    /// mapping. It fails with the error that names the first qubit of the list
    /// without an image.
    pub fn remap_qubits(&self, mapping: &HashMap<usize, usize>) -> (r: Result<Self, RoqoqoError>)
        ensures
            match r {
                Ok(remapped) => self@.remaps_to(mapping@, remapped@),
                Err(e) => e matches RoqoqoError::QubitMappingError { qubit } && self@.remap_error(
                    mapping@,
                    qubit,
                ),
            },
            r is Ok <==> self@.covered_by(mapping@),
            r is Ok <==> covers(mapping@, self.qubits@),
    {
        let qubits = match remap_list(&self.qubits, mapping) {
            Ok(images) => images,
            Err(e) => {
                proof {
                    lemma_error_uncovered(self@, mapping@, e);
                }
                return Err(e);
            },
        };
        proof {
            lemma_covered_qubits(mapping@, self.qubits@);
        }
        Ok(PragmaOverrotation {
            qubits,
            gate_hqslang: self.gate_hqslang.clone(),
            amplitude: self.amplitude,
            variance: self.variance,
        })
    }

    /// A copy with its parameters resolved: it has none, so a plain copy.
    pub fn substitute_parameters(&self, calculator: &Calculator) -> (r: Result<Self, RoqoqoError>)
        ensures
            match r {
                Ok(substituted) => self@.substitutes_to(substituted@),
                Err(e) => self@.substitution_fails_with(e),
            },
            !self@.is_parametrized() ==> r is Ok,
            r is Ok,
    {
        Ok(self.clone())
    }
}

/// Boosts noise and overrotations in the circuit.
///
/// It involves no qubit.
#[derive(Debug, PartialEq)]
pub struct PragmaBoostNoise {
    /// The coefficient by which the noise is boosted: the number that gate times
    /// are multiplied by.
    pub noise_coefficient: CalculatorFloat,
}

impl View for PragmaBoostNoise {
    type V = OperationView;

    open spec fn view(&self) -> OperationView {
        OperationView::PragmaBoostNoise {
            noise_coefficient: self.noise_coefficient,
        }
    }
}

impl Clone for PragmaBoostNoise {
    /// A copy with the same value.
    fn clone(&self) -> (r: Self)
        ensures
            r@ == self@,
    {
        PragmaBoostNoise {
            noise_coefficient: self.noise_coefficient.clone(),
        }
    }
}

impl PragmaBoostNoise {
    /// Makes the operation of its parts.
    pub fn new(noise_coefficient: CalculatorFloat) -> (r: Self)
        ensures
            r@ == (OperationView::PragmaBoostNoise {
                noise_coefficient,
            }),
    {
        PragmaBoostNoise { noise_coefficient }
    }

    /// The coefficient by which the noise is boosted: the number that gate times
    /// are multiplied by.
    pub fn noise_coefficient(&self) -> (r: &CalculatorFloat)
        ensures
            *r == self.noise_coefficient,
    {
        &self.noise_coefficient
    }

    /// The tags of the operation, `Operation` first and its own name last.
    pub fn tags(&self) -> (r: Vec<&'static str>)
        ensures
            texts(r@) == self@.tags(),
    {
        tags_of(OperationKind::PragmaBoostNoise)
    }

    /// The name of the operation.
    pub fn hqslang(&self) -> (r: &'static str)
        ensures
            r@ == "PragmaBoostNoise"@,
    {
        "PragmaBoostNoise"
    }

    /// Whether a parameter of the operation is still symbolic.
    pub fn is_parametrized(&self) -> (r: bool)
        ensures
            r == self@.is_parametrized(),
    {
        !self.noise_coefficient.is_float()
    }

    /// The qubits that the operation involves: none.
    pub fn involved_qubits(&self) -> (r: InvolvedQubits)
        ensures
            r@ == self@.involved(),
            r@ == Involvement::Nothing,
    {
        InvolvedQubits::Nothing
    }

    /// A copy with its qubits remapped: it names no qubit, so a plain copy.
    pub fn remap_qubits(&self, mapping: &HashMap<usize, usize>) -> (r: Result<Self, RoqoqoError>)
        ensures
            match r {
                Ok(remapped) => self@.remaps_to(mapping@, remapped@),
                Err(e) => e matches RoqoqoError::QubitMappingError { qubit } && self@.remap_error(
                    mapping@,
                    qubit,
                ),
            },
            r is Ok <==> self@.covered_by(mapping@),
            r is Ok,
    {
        Ok(self.clone())
    }

    /// A copy with every symbolic parameter resolved to a number by the
    /// evaluator. It fails with the error of the first parameter that does not
    /// resolve.
    pub fn substitute_parameters(&self, calculator: &Calculator) -> (r: Result<Self, RoqoqoError>)
        ensures
            match r {
                Ok(substituted) => self@.substitutes_to(substituted@),
                Err(e) => self@.substitution_fails_with(e),
            },
            !self@.is_parametrized() ==> r is Ok,
    {
        let noise_coefficient = match resolve(calculator, &self.noise_coefficient) {
            Ok(value) => value,
            Err(e) => return Err(e),
        };
        Ok(PragmaBoostNoise {
            noise_coefficient,
        })
    }
}

/// Ends a block of parallel execution.
#[derive(Debug, PartialEq)]
pub struct PragmaStopParallelBlock {
    /// The qubits of the block.
    pub qubits: Vec<usize>,
    /// The time that the block takes, in seconds.
    pub execution_time: CalculatorFloat,
}

impl View for PragmaStopParallelBlock {
    type V = OperationView;

    open spec fn view(&self) -> OperationView {
        OperationView::PragmaStopParallelBlock {
            qubits: self.qubits@,
            execution_time: self.execution_time,
        }
    }
}

impl Clone for PragmaStopParallelBlock {
    /// A copy with the same value.
    fn clone(&self) -> (r: Self)
        ensures
            r@ == self@,
    {
        PragmaStopParallelBlock {
            qubits: copy_list(&self.qubits),
            execution_time: self.execution_time.clone(),
        }
    }
}

impl PragmaStopParallelBlock {
    /// Makes the operation of its parts.
    pub fn new(qubits: Vec<usize>, execution_time: CalculatorFloat) -> (r: Self)
        ensures
            r@ == (OperationView::PragmaStopParallelBlock {
                qubits: qubits@,
                execution_time,
            }),
    {
        PragmaStopParallelBlock { qubits, execution_time }
    }

    /// The qubits of the block.
    pub fn qubits(&self) -> (r: &Vec<usize>)
        ensures
            *r == self.qubits,
    {
        &self.qubits
    }

    /// The time that the block takes, in seconds.
    pub fn execution_time(&self) -> (r: &CalculatorFloat)
        ensures
            *r == self.execution_time,
    {
        &self.execution_time
    }

    /// The tags of the operation, `Operation` first and its own name last.
    pub fn tags(&self) -> (r: Vec<&'static str>)
        ensures
            texts(r@) == self@.tags(),
    {
        tags_of(OperationKind::PragmaStopParallelBlock)
    }

    /// The name of the operation.
    pub fn hqslang(&self) -> (r: &'static str)
        ensures
            r@ == "PragmaStopParallelBlock"@,
    {
        "PragmaStopParallelBlock"
    }

    /// Whether a parameter of the operation is still symbolic.
    pub fn is_parametrized(&self) -> (r: bool)
        ensures
            r == self@.is_parametrized(),
    {
        !self.execution_time.is_float()
    }

    /// The qubits that the operation involves: those of its list.
    pub fn involved_qubits(&self) -> (r: InvolvedQubits)
        ensures
            r@ == self@.involved(),
            r@ == Involvement::ExplicitSet(self.qubits@.to_set()),
    {
        let qubits = set_of(&self.qubits);
        assert(qubits@ =~= self@.touched());
        InvolvedQubits::ExplicitSet(qubits)
    }

    /// A copy with every qubit of its list replaced by the image under the
    /// mapping. It fails with the error that names the first qubit of the list
    /// without an image.
    pub fn remap_qubits(&self, mapping: &HashMap<usize, usize>) -> (r: Result<Self, RoqoqoError>)
        ensures
            match r {
                Ok(remapped) => self@.remaps_to(mapping@, remapped@),
                Err(e) => e matches RoqoqoError::QubitMappingError { qubit } && self@.remap_error(
                    mapping@,
                    qubit,
                ),
            },
            r is Ok <==> self@.covered_by(mapping@),
            r is Ok <==> covers(mapping@, self.qubits@),
    {
        let qubits = match remap_list(&self.qubits, mapping) {
            Ok(images) => images,
            Err(e) => {
                proof {
                    lemma_error_uncovered(self@, mapping@, e);
                }
                return Err(e);
            },
        };
        proof {
            lemma_covered_qubits(mapping@, self.qubits@);
        }
        Ok(PragmaStopParallelBlock {
            qubits,
            execution_time: self.execution_time.clone(),
        })
    }

    /// A copy with every symbolic parameter resolved to a number by the
    /// evaluator. It fails with the error of the first parameter that does not
    /// resolve.
    pub fn substitute_parameters(&self, calculator: &Calculator) -> (r: Result<Self, RoqoqoError>)
        ensures
            match r {
                Ok(substituted) => self@.substitutes_to(substituted@),
                Err(e) => self@.substitution_fails_with(e),
            },
            !self@.is_parametrized() ==> r is Ok,
    {
        let execution_time = match resolve(calculator, &self.execution_time) {
            Ok(value) => value,
            Err(e) => return Err(e),
        };
        Ok(PragmaStopParallelBlock {
            qubits: copy_list(&self.qubits),
            execution_time,
        })
    }
}

/// Tells that the quantum register picks up a global phase.
///
/// It involves no qubit.
#[derive(Debug, PartialEq)]
pub struct PragmaGlobalPhase {
    /// The phase that is picked up.
    pub phase: CalculatorFloat,
}

impl View for PragmaGlobalPhase {
    type V = OperationView;

    open spec fn view(&self) -> OperationView {
        OperationView::PragmaGlobalPhase {
            phase: self.phase,
        }
    }
}

impl Clone for PragmaGlobalPhase {
    /// A copy with the same value.
    fn clone(&self) -> (r: Self)
        ensures
            r@ == self@,
    {
        PragmaGlobalPhase {
            phase: self.phase.clone(),
        }
    }
}

impl PragmaGlobalPhase {
    /// Makes the operation of its parts.
    pub fn new(phase: CalculatorFloat) -> (r: Self)
        ensures
            r@ == (OperationView::PragmaGlobalPhase {
                phase,
            }),
    {
        PragmaGlobalPhase { phase }
    }

    /// The phase that is picked up.
    pub fn phase(&self) -> (r: &CalculatorFloat)
        ensures
            *r == self.phase,
    {
        &self.phase
    }

    /// The tags of the operation, `Operation` first and its own name last.
    pub fn tags(&self) -> (r: Vec<&'static str>)
        ensures
            texts(r@) == self@.tags(),
    {
        tags_of(OperationKind::PragmaGlobalPhase)
    }

    /// The name of the operation.
    pub fn hqslang(&self) -> (r: &'static str)
        ensures
            r@ == "PragmaGlobalPhase"@,
    {
        "PragmaGlobalPhase"
    }

    /// Whether a parameter of the operation is still symbolic.
    pub fn is_parametrized(&self) -> (r: bool)
        ensures
            r == self@.is_parametrized(),
    {
        !self.phase.is_float()
    }

    /// The qubits that the operation involves: none.
    pub fn involved_qubits(&self) -> (r: InvolvedQubits)
        ensures
            r@ == self@.involved(),
            r@ == Involvement::Nothing,
    {
        InvolvedQubits::Nothing
    }

    /// A copy with its qubits remapped: it names no qubit, so a plain copy.
    pub fn remap_qubits(&self, mapping: &HashMap<usize, usize>) -> (r: Result<Self, RoqoqoError>)
        ensures
            match r {
                Ok(remapped) => self@.remaps_to(mapping@, remapped@),
                Err(e) => e matches RoqoqoError::QubitMappingError { qubit } && self@.remap_error(
                    mapping@,
                    qubit,
                ),
            },
            r is Ok <==> self@.covered_by(mapping@),
            r is Ok,
    {
        Ok(self.clone())
    }

    /// A copy with every symbolic parameter resolved to a number by the
    /// evaluator. It fails with the error of the first parameter that does not
    /// resolve.
    pub fn substitute_parameters(&self, calculator: &Calculator) -> (r: Result<Self, RoqoqoError>)
        ensures
            match r {
                Ok(substituted) => self@.substitutes_to(substituted@),
                Err(e) => self@.substitution_fails_with(e),
            },
            !self@.is_parametrized() ==> r is Ok,
    {
        let phase = match resolve(calculator, &self.phase) {
            Ok(value) => value,
            Err(e) => return Err(e),
        };
        Ok(PragmaGlobalPhase {
            phase,
        })
    }
}

/// Makes the hardware wait for a given time, for error mitigation.
#[derive(Debug, PartialEq)]
pub struct PragmaSleep {
    /// The qubits that wait.
    pub qubits: Vec<usize>,
    /// The time of the wait, in seconds.
    pub sleep_time: CalculatorFloat,
}

impl View for PragmaSleep {
    type V = OperationView;

    open spec fn view(&self) -> OperationView {
        OperationView::PragmaSleep {
            qubits: self.qubits@,
            sleep_time: self.sleep_time,
        }
    }
}

impl Clone for PragmaSleep {
    /// A copy with the same value.
    fn clone(&self) -> (r: Self)
        ensures
            r@ == self@,
    {
        PragmaSleep {
            qubits: copy_list(&self.qubits),
            sleep_time: self.sleep_time.clone(),
        }
    }
}

impl PragmaSleep {
    /// Makes the operation of its parts.
    pub fn new(qubits: Vec<usize>, sleep_time: CalculatorFloat) -> (r: Self)
        ensures
            r@ == (OperationView::PragmaSleep {
                qubits: qubits@,
                sleep_time,
            }),
    {
        PragmaSleep { qubits, sleep_time }
    }

    /// The qubits that wait.
    pub fn qubits(&self) -> (r: &Vec<usize>)
        ensures
            *r == self.qubits,
    {
        &self.qubits
    }

    /// The time of the wait, in seconds.
    pub fn sleep_time(&self) -> (r: &CalculatorFloat)
        ensures
            *r == self.sleep_time,
    {
        &self.sleep_time
    }

    /// The tags of the operation, `Operation` first and its own name last.
    pub fn tags(&self) -> (r: Vec<&'static str>)
        ensures
            texts(r@) == self@.tags(),
    {
        tags_of(OperationKind::PragmaSleep)
    }

    /// The name of the operation.
    pub fn hqslang(&self) -> (r: &'static str)
        ensures
            r@ == "PragmaSleep"@,
    {
        "PragmaSleep"
    }

    /// Whether a parameter of the operation is still symbolic.
    pub fn is_parametrized(&self) -> (r: bool)
        ensures
            r == self@.is_parametrized(),
    {
        !self.sleep_time.is_float()
    }

    /// The qubits that the operation involves: those of its list.
    pub fn involved_qubits(&self) -> (r: InvolvedQubits)
        ensures
            r@ == self@.involved(),
            r@ == Involvement::ExplicitSet(self.qubits@.to_set()),
    {
        let qubits = set_of(&self.qubits);
        assert(qubits@ =~= self@.touched());
        InvolvedQubits::ExplicitSet(qubits)
    }

    /// A copy with every qubit of its list replaced by the image under the
    /// mapping. It fails with the error that names the first qubit of the list
    /// without an image.
    pub fn remap_qubits(&self, mapping: &HashMap<usize, usize>) -> (r: Result<Self, RoqoqoError>)
        ensures
            match r {
                Ok(remapped) => self@.remaps_to(mapping@, remapped@),
                Err(e) => e matches RoqoqoError::QubitMappingError { qubit } && self@.remap_error(
                    mapping@,
                    qubit,
                ),
            },
            r is Ok <==> self@.covered_by(mapping@),
            r is Ok <==> covers(mapping@, self.qubits@),
    {
        let qubits = match remap_list(&self.qubits, mapping) {
            Ok(images) => images,
            Err(e) => {
                proof {
                    lemma_error_uncovered(self@, mapping@, e);
                }
                return Err(e);
            },
        };
        proof {
            lemma_covered_qubits(mapping@, self.qubits@);
        }
        Ok(PragmaSleep {
            qubits,
            sleep_time: self.sleep_time.clone(),
        })
    }

    /// A copy with every symbolic parameter resolved to a number by the
    /// evaluator. It fails with the error of the first parameter that does not
    /// resolve.
    pub fn substitute_parameters(&self, calculator: &Calculator) -> (r: Result<Self, RoqoqoError>)
        ensures
            match r {
                Ok(substituted) => self@.substitutes_to(substituted@),
                Err(e) => self@.substitution_fails_with(e),
            },
            !self@.is_parametrized() ==> r is Ok,
    {
        let sleep_time = match resolve(calculator, &self.sleep_time) {
            Ok(value) => value,
            Err(e) => return Err(e),
        };
        Ok(PragmaSleep {
            qubits: copy_list(&self.qubits),
            sleep_time,
        })
    }
}

/// Resets a qubit to the zero state.
#[derive(Debug, PartialEq)]
pub struct PragmaActiveReset {
    /// The qubit that is reset.
    pub qubit: usize,
}

impl View for PragmaActiveReset {
    type V = OperationView;

    open spec fn view(&self) -> OperationView {
        OperationView::PragmaActiveReset {
            qubit: self.qubit,
        }
    }
}

impl Clone for PragmaActiveReset {
    /// A copy with the same value.
    fn clone(&self) -> (r: Self)
        ensures
            r@ == self@,
    {
        PragmaActiveReset {
            qubit: self.qubit,
        }
    }
}

impl PragmaActiveReset {
    /// Makes the operation of its parts.
    pub fn new(qubit: usize) -> (r: Self)
        ensures
            r@ == (OperationView::PragmaActiveReset {
                qubit,
            }),
    {
        PragmaActiveReset { qubit }
    }

    /// The qubit that is reset.
    pub fn qubit(&self) -> (r: &usize)
        ensures
            *r == self.qubit,
    {
        &self.qubit
    }

    /// The tags of the operation, `Operation` first and its own name last.
    pub fn tags(&self) -> (r: Vec<&'static str>)
        ensures
            texts(r@) == self@.tags(),
    {
        tags_of(OperationKind::PragmaActiveReset)
    }

    /// The name of the operation.
    pub fn hqslang(&self) -> (r: &'static str)
        ensures
            r@ == "PragmaActiveReset"@,
    {
        "PragmaActiveReset"
    }

    /// Whether a parameter of the operation is still symbolic: it has none, so
    /// never.
    pub fn is_parametrized(&self) -> (r: bool)
        ensures
            r == self@.is_parametrized(),
    {
        false
    }

    /// The qubits that the operation involves: its one qubit.
    pub fn involved_qubits(&self) -> (r: InvolvedQubits)
        ensures
            r@ == self@.involved(),
            r@ == Involvement::ExplicitSet(set![self.qubit]),
    {
        let mut qubits: HashSet<usize> = HashSet::new();
        qubits.insert(self.qubit);
        assert(qubits@ =~= self@.touched());
        assert(qubits@ =~= set![self.qubit]);
        InvolvedQubits::ExplicitSet(qubits)
    }

    /// A copy with its qubit replaced by the image under the mapping. It fails
    /// with the error that names the qubit where the mapping has no image.
    pub fn remap_qubits(&self, mapping: &HashMap<usize, usize>) -> (r: Result<Self, RoqoqoError>)
        ensures
            match r {
                Ok(remapped) => self@.remaps_to(mapping@, remapped@),
                Err(e) => e matches RoqoqoError::QubitMappingError { qubit } && self@.remap_error(
                    mapping@,
                    qubit,
                ),
            },
            r is Ok <==> self@.covered_by(mapping@),
            r is Ok <==> mapping@.contains_key(self.qubit),
    {
        let qubit = match remap_qubit(self.qubit, mapping) {
            Ok(image) => image,
            Err(e) => {
                proof {
                    lemma_error_uncovered(self@, mapping@, e);
                }
                return Err(e);
            },
        };
        Ok(PragmaActiveReset {
            qubit,
        })
    }

    /// A copy with its parameters resolved: it has none, so a plain copy.
    pub fn substitute_parameters(&self, calculator: &Calculator) -> (r: Result<Self, RoqoqoError>)
        ensures
            match r {
                Ok(substituted) => self@.substitutes_to(substituted@),
                Err(e) => self@.substitution_fails_with(e),
            },
            !self@.is_parametrized() ==> r is Ok,
            r is Ok,
    {
        Ok(self.clone())
    }
}

/// Starts a decomposition block.
#[derive(Debug, PartialEq)]
pub struct PragmaStartDecompositionBlock {
    /// The qubits of the block.
    pub qubits: Vec<usize>,
    /// The reordering of the block: from old to new qubit.
    pub reordering_dictionary: HashMap<usize, usize>,
}

impl View for PragmaStartDecompositionBlock {
    type V = OperationView;

    open spec fn view(&self) -> OperationView {
        OperationView::PragmaStartDecompositionBlock {
            qubits: self.qubits@,
            reordering_dictionary: self.reordering_dictionary@,
        }
    }
}

impl Clone for PragmaStartDecompositionBlock {
    /// A copy with the same value.
    fn clone(&self) -> (r: Self)
        ensures
            r@ == self@,
    {
        PragmaStartDecompositionBlock {
            qubits: copy_list(&self.qubits),
            reordering_dictionary: self.reordering_dictionary.clone(),
        }
    }
}

impl PragmaStartDecompositionBlock {
    /// Makes the operation of its parts.
    pub fn new(qubits: Vec<usize>, reordering_dictionary: HashMap<usize, usize>) -> (r: Self)
        ensures
            r@ == (OperationView::PragmaStartDecompositionBlock {
                qubits: qubits@,
                reordering_dictionary: reordering_dictionary@,
            }),
    {
        PragmaStartDecompositionBlock { qubits, reordering_dictionary }
    }

    /// The qubits of the block.
    pub fn qubits(&self) -> (r: &Vec<usize>)
        ensures
            *r == self.qubits,
    {
        &self.qubits
    }

    /// The reordering of the block: from old to new qubit.
    pub fn reordering_dictionary(&self) -> (r: &HashMap<usize, usize>)
        ensures
            *r == self.reordering_dictionary,
    {
        &self.reordering_dictionary
    }

    /// The tags of the operation, `Operation` first and its own name last.
    pub fn tags(&self) -> (r: Vec<&'static str>)
        ensures
            texts(r@) == self@.tags(),
    {
        tags_of(OperationKind::PragmaStartDecompositionBlock)
    }

    /// The name of the operation.
    pub fn hqslang(&self) -> (r: &'static str)
        ensures
            r@ == "PragmaStartDecompositionBlock"@,
    {
        "PragmaStartDecompositionBlock"
    }

    /// Whether a parameter of the operation is still symbolic: it has none, so
    /// never.
    pub fn is_parametrized(&self) -> (r: bool)
        ensures
            r == self@.is_parametrized(),
    {
        false
    }

    /// The qubits that the operation involves: those of its list.
    pub fn involved_qubits(&self) -> (r: InvolvedQubits)
        ensures
            r@ == self@.involved(),
            r@ == Involvement::ExplicitSet(self.qubits@.to_set()),
    {
        let qubits = set_of(&self.qubits);
        assert(qubits@ =~= self@.touched());
        InvolvedQubits::ExplicitSet(qubits)
    }

    /// A copy with every qubit replaced by the image under the mapping: the
    /// qubits of the list, and each key and each value of the reordering
    /// dictionary. It fails with the error that names the first qubit of the
    /// list without an image, or else a key or a value of the dictionary
    /// without one. Nothing is remapped in part.
    pub fn remap_qubits(&self, mapping: &HashMap<usize, usize>) -> (r: Result<Self, RoqoqoError>)
        ensures
            match r {
                Ok(remapped) => self@.remaps_to(mapping@, remapped@),
                Err(e) => e matches RoqoqoError::QubitMappingError { qubit } && self@.remap_error(
                    mapping@,
                    qubit,
                ),
            },
            r is Ok <==> self@.covered_by(mapping@),
            r is Ok <==> covers(mapping@, self.qubits@) && covers_dictionary(
                mapping@,
                self.reordering_dictionary@,
            ),
    {
        let qubits = match remap_list(&self.qubits, mapping) {
            Ok(images) => images,
            Err(e) => {
                proof {
                    lemma_error_uncovered(self@, mapping@, e);
                }
                return Err(e);
            },
        };
        let reordering_dictionary = match remap_dictionary(&self.reordering_dictionary, mapping) {
            Ok(remapped) => remapped,
            Err(e) => {
                proof {
                    lemma_error_uncovered(self@, mapping@, e);
                }
                return Err(e);
            },
        };
        proof {
            lemma_covered_qubits(mapping@, self.qubits@);
            lemma_covered_dictionary(mapping@, self.reordering_dictionary@);
        }
        Ok(PragmaStartDecompositionBlock { qubits, reordering_dictionary })
    }

    /// A copy with its parameters resolved: it has none, so a plain copy.
    pub fn substitute_parameters(&self, calculator: &Calculator) -> (r: Result<Self, RoqoqoError>)
        ensures
            match r {
                Ok(substituted) => self@.substitutes_to(substituted@),
                Err(e) => self@.substitution_fails_with(e),
            },
            !self@.is_parametrized() ==> r is Ok,
            r is Ok,
    {
        Ok(self.clone())
    }
}

/// Ends a decomposition block.
#[derive(Debug, PartialEq)]
pub struct PragmaStopDecompositionBlock {
    /// The qubits of the block.
    pub qubits: Vec<usize>,
}

impl View for PragmaStopDecompositionBlock {
    type V = OperationView;

    open spec fn view(&self) -> OperationView {
        OperationView::PragmaStopDecompositionBlock {
            qubits: self.qubits@,
        }
    }
}

impl Clone for PragmaStopDecompositionBlock {
    /// A copy with the same value.
    fn clone(&self) -> (r: Self)
        ensures
            r@ == self@,
    {
        PragmaStopDecompositionBlock {
            qubits: copy_list(&self.qubits),
        }
    }
}

impl PragmaStopDecompositionBlock {
    /// Makes the operation of its parts.
    pub fn new(qubits: Vec<usize>) -> (r: Self)
        ensures
            r@ == (OperationView::PragmaStopDecompositionBlock {
                qubits: qubits@,
            }),
    {
        PragmaStopDecompositionBlock { qubits }
    }

    /// The qubits of the block.
    pub fn qubits(&self) -> (r: &Vec<usize>)
        ensures
            *r == self.qubits,
    {
        &self.qubits
    }

    /// The tags of the operation, `Operation` first and its own name last.
    pub fn tags(&self) -> (r: Vec<&'static str>)
        ensures
            texts(r@) == self@.tags(),
    {
        tags_of(OperationKind::PragmaStopDecompositionBlock)
    }

    /// The name of the operation.
    pub fn hqslang(&self) -> (r: &'static str)
        ensures
            r@ == "PragmaStopDecompositionBlock"@,
    {
        "PragmaStopDecompositionBlock"
    }

    /// Whether a parameter of the operation is still symbolic: it has none, so
    /// never.
    pub fn is_parametrized(&self) -> (r: bool)
        ensures
            r == self@.is_parametrized(),
    {
        false
    }

    /// The qubits that the operation involves: those of its list.
    pub fn involved_qubits(&self) -> (r: InvolvedQubits)
        ensures
            r@ == self@.involved(),
            r@ == Involvement::ExplicitSet(self.qubits@.to_set()),
    {
        let qubits = set_of(&self.qubits);
        assert(qubits@ =~= self@.touched());
        InvolvedQubits::ExplicitSet(qubits)
    }

    /// A copy with every qubit of its list replaced by the image under the
    /// mapping. It fails with the error that names the first qubit of the list
    /// without an image.
    pub fn remap_qubits(&self, mapping: &HashMap<usize, usize>) -> (r: Result<Self, RoqoqoError>)
        ensures
            match r {
                Ok(remapped) => self@.remaps_to(mapping@, remapped@),
                Err(e) => e matches RoqoqoError::QubitMappingError { qubit } && self@.remap_error(
                    mapping@,
                    qubit,
                ),
            },
            r is Ok <==> self@.covered_by(mapping@),
            r is Ok <==> covers(mapping@, self.qubits@),
    {
        let qubits = match remap_list(&self.qubits, mapping) {
            Ok(images) => images,
            Err(e) => {
                proof {
                    lemma_error_uncovered(self@, mapping@, e);
                }
                return Err(e);
            },
        };
        proof {
            lemma_covered_qubits(mapping@, self.qubits@);
        }
        Ok(PragmaStopDecompositionBlock {
            qubits,
        })
    }

    /// A copy with its parameters resolved: it has none, so a plain copy.
    pub fn substitute_parameters(&self, calculator: &Calculator) -> (r: Result<Self, RoqoqoError>)
        ensures
            match r {
                Ok(substituted) => self@.substitutes_to(substituted@),
                Err(e) => self@.substitution_fails_with(e),
            },
            !self@.is_parametrized() ==> r is Ok,
            r is Ok,
    {
        Ok(self.clone())
    }
}

} // verus!
