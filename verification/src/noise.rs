//! The PRAGMA operations that inject noise on a single qubit.

use crate::arrays::ComplexMatrix;
use crate::calculator::{is_exponential, multiply, product, resolve};
use crate::channel::{
    damping_channel, damping_matrix, decay_factor, dephasing_channel, dephasing_matrix,
    depolarising_channel, depolarising_matrix, exponential_probability, is_decay,
    is_numeric_matrix, linear_probability, probability_argument, probability_value,
    random_noise_probability, Superoperator,
};
use crate::error::RoqoqoError;
use crate::involved::{InvolvedQubits, Involvement};
use crate::laws::lemma_error_uncovered;
use crate::mapping::remap_qubit;
use crate::model::{texts, OperationKind, OperationView};
use crate::tags::tags_of;
use qoqo_calculator::{Calculator, CalculatorFloat};
use std::collections::{HashMap, HashSet};
use vstd::prelude::*;

verus! {

broadcast use vstd::std_specs::hash::group_hash_axioms;

/// Damping noise: a pure damping error, as of an environment at zero temperature.
#[derive(Debug, PartialEq)]
pub struct PragmaDamping {
    /// The qubit that the noise acts on.
    pub qubit: usize,
    /// The time that a gate takes on the hardware, in seconds.
    pub gate_time: CalculatorFloat,
    /// The error rate, in 1/second.
    pub rate: CalculatorFloat,
}

impl View for PragmaDamping {
    type V = OperationView;

    open spec fn view(&self) -> OperationView {
        OperationView::PragmaDamping {
            qubit: self.qubit,
            gate_time: self.gate_time,
            rate: self.rate,
        }
    }
}

impl Clone for PragmaDamping {
    /// A copy with the same value.
    fn clone(&self) -> (r: Self)
        ensures
            r@ == self@,
    {
        PragmaDamping {
            qubit: self.qubit,
            gate_time: self.gate_time.clone(),
            rate: self.rate.clone(),
        }
    }
}

impl PragmaDamping {
    /// Makes the operation of its parts.
    pub fn new(qubit: usize, gate_time: CalculatorFloat, rate: CalculatorFloat) -> (r: Self)
        ensures
            r@ == (OperationView::PragmaDamping {
                qubit,
                gate_time,
                rate,
            }),
    {
        PragmaDamping { qubit, gate_time, rate }
    }

    /// The qubit that the noise acts on.
    pub fn qubit(&self) -> (r: &usize)
        ensures
            *r == self.qubit,
    {
        &self.qubit
    }

    /// The time that a gate takes on the hardware, in seconds.
    pub fn gate_time(&self) -> (r: &CalculatorFloat)
        ensures
            *r == self.gate_time,
    {
        &self.gate_time
    }

    /// The error rate, in 1/second.
    pub fn rate(&self) -> (r: &CalculatorFloat)
        ensures
            *r == self.rate,
    {
        &self.rate
    }

    /// The tags of the operation, `Operation` first and its own name last.
    pub fn tags(&self) -> (r: Vec<&'static str>)
        ensures
            texts(r@) == self@.tags(),
    {
        tags_of(OperationKind::PragmaDamping)
    }

    /// The name of the operation.
    pub fn hqslang(&self) -> (r: &'static str)
        ensures
            r@ == "PragmaDamping"@,
    {
        "PragmaDamping"
    }

    /// Whether a parameter of the operation is still symbolic.
    pub fn is_parametrized(&self) -> (r: bool)
        ensures
            r == self@.is_parametrized(),
    {
        !self.gate_time.is_float() || !self.rate.is_float()
    }

    /// The qubits that the operation involves: its one qubit.
    pub fn involved_qubits(&self) -> (r: InvolvedQubits)
        ensures
            r@ == self@.involved(),
            r@ == Involvement::ExplicitSet(set![self.qubit]),
    {
        let mut qubits: HashSet<usize> = HashSet::new();
        qubits.insert(self.qubit);
        assert(qubits@ =~= self@.touched());
        assert(qubits@ =~= set![self.qubit]);
        InvolvedQubits::ExplicitSet(qubits)
    }

    /// A copy with its qubit replaced by the image under the mapping. It fails
    /// with the error that names the qubit where the mapping has no image.
    pub fn remap_qubits(&self, mapping: &HashMap<usize, usize>) -> (r: Result<Self, RoqoqoError>)
        ensures
            match r {
                Ok(remapped) => self@.remaps_to(mapping@, remapped@),
                Err(e) => e matches RoqoqoError::QubitMappingError { qubit } && self@.remap_error(
                    mapping@,
                    qubit,
                ),
            },
            r is Ok <==> self@.covered_by(mapping@),
            r is Ok <==> mapping@.contains_key(self.qubit),
    {
        let qubit = match remap_qubit(self.qubit, mapping) {
            Ok(image) => image,
            Err(e) => {
                proof {
                    lemma_error_uncovered(self@, mapping@, e);
                }
                return Err(e);
            },
        };
        Ok(PragmaDamping {
            qubit,
            gate_time: self.gate_time.clone(),
            rate: self.rate.clone(),
        })
    }

    /// A copy with every symbolic parameter resolved to a number by the
    /// evaluator. It fails with the error of the first parameter that does not
    /// resolve.
    pub fn substitute_parameters(&self, calculator: &Calculator) -> (r: Result<Self, RoqoqoError>)
        ensures
            match r {
                Ok(substituted) => self@.substitutes_to(substituted@),
                Err(e) => self@.substitution_fails_with(e),
            },
            !self@.is_parametrized() ==> r is Ok,
    {
        let gate_time = match resolve(calculator, &self.gate_time) {
            Ok(value) => value,
            Err(e) => return Err(e),
        };
        let rate = match resolve(calculator, &self.rate) {
            Ok(value) => value,
            Err(e) => return Err(e),
        };
        Ok(PragmaDamping {
            qubit: self.qubit,
            gate_time,
            rate,
        })
    }
}

impl PragmaDamping {
    /// The superoperator of the channel:
    /// the damping matrix for the decay factor `exp(-gate_time * rate)`.
    /// It needs gate time and rate as numbers and fails with the conversion
    /// error of the first of them that is symbolic.
    pub fn superoperator(&self) -> (r: Result<Superoperator, RoqoqoError>)
        ensures
            match r {
                Ok(matrix) => is_numeric_matrix(matrix@) && exists|decay: CalculatorFloat|
                    is_decay(-1, self.gate_time, self.rate, Ok(decay)) && matrix@
                        == damping_matrix(decay),
                Err(e) => is_decay(-1, self.gate_time, self.rate, Err(e)),
            },
    {
        match decay_factor(-1, &self.gate_time, &self.rate) {
            Ok(decay) => Ok(damping_channel(&decay)),
            Err(e) => Err(e),
        }
    }

    /// The probability that the noise affects the qubit:
    /// `(1 - exp(-2 * gate_time * rate)) * 1/2`. It stays symbolic
    /// where gate time or rate is.
    pub fn probability(&self) -> (r: CalculatorFloat)
        ensures
            exists|decay: CalculatorFloat|
                is_exponential(
                    probability_argument(self.gate_time, self.rate, -2),
                    decay,
                ) && r == probability_value(decay, 1, 2),
    {
        exponential_probability(&self.gate_time, &self.rate, -2, 1, 2)
    }

    /// The same channel for `power` times the duration: a copy whose gate time
    /// is `power` times its gate time.
    pub fn powercf(&self, power: CalculatorFloat) -> (r: Self)
        ensures
            r@ == (OperationView::PragmaDamping {
                qubit: self.qubit,
                gate_time: product(power, self.gate_time),
                rate: self.rate,
            }),
    {
        PragmaDamping {
            qubit: self.qubit,
            gate_time: multiply(&power, &self.gate_time),
            rate: self.rate.clone(),
        }
    }
}

/// Depolarising noise: a depolarising error, as of an environment at infinite
/// temperature.
#[derive(Debug, PartialEq)]
pub struct PragmaDepolarising {
    /// The qubit that the noise acts on.
    pub qubit: usize,
    /// The time that a gate takes on the hardware, in seconds.
    pub gate_time: CalculatorFloat,
    /// The error rate, in 1/second.
    pub rate: CalculatorFloat,
}

impl View for PragmaDepolarising {
    type V = OperationView;

    open spec fn view(&self) -> OperationView {
        OperationView::PragmaDepolarising {
            qubit: self.qubit,
            gate_time: self.gate_time,
            rate: self.rate,
        }
    }
}

impl Clone for PragmaDepolarising {
    /// A copy with the same value.
    fn clone(&self) -> (r: Self)
        ensures
            r@ == self@,
    {
        PragmaDepolarising {
            qubit: self.qubit,
            gate_time: self.gate_time.clone(),
            rate: self.rate.clone(),
        }
    }
}

impl PragmaDepolarising {
    /// Makes the operation of its parts.
    pub fn new(qubit: usize, gate_time: CalculatorFloat, rate: CalculatorFloat) -> (r: Self)
        ensures
            r@ == (OperationView::PragmaDepolarising {
                qubit,
                gate_time,
                rate,
            }),
    {
        PragmaDepolarising { qubit, gate_time, rate }
    }

    /// The qubit that the noise acts on.
    pub fn qubit(&self) -> (r: &usize)
        ensures
            *r == self.qubit,
    {
        &self.qubit
    }

    /// The time that a gate takes on the hardware, in seconds.
    pub fn gate_time(&self) -> (r: &CalculatorFloat)
        ensures
            *r == self.gate_time,
    {
        &self.gate_time
    }

    /// The error rate, in 1/second.
    pub fn rate(&self) -> (r: &CalculatorFloat)
        ensures
            *r == self.rate,
    {
        &self.rate
    }

    /// The tags of the operation, `Operation` first and its own name last.
    pub fn tags(&self) -> (r: Vec<&'static str>)
        ensures
            texts(r@) == self@.tags(),
    {
        tags_of(OperationKind::PragmaDepolarising)
    }

    /// The name of the operation.
    pub fn hqslang(&self) -> (r: &'static str)
        ensures
            r@ == "PragmaDepolarising"@,
    {
        "PragmaDepolarising"
    }

    /// Whether a parameter of the operation is still symbolic.
    pub fn is_parametrized(&self) -> (r: bool)
        ensures
            r == self@.is_parametrized(),
    {
        !self.gate_time.is_float() || !self.rate.is_float()
    }

    /// The qubits that the operation involves: its one qubit.
    pub fn involved_qubits(&self) -> (r: InvolvedQubits)
        ensures
            r@ == self@.involved(),
            r@ == Involvement::ExplicitSet(set![self.qubit]),
    {
        let mut qubits: HashSet<usize> = HashSet::new();
        qubits.insert(self.qubit);
        assert(qubits@ =~= self@.touched());
        assert(qubits@ =~= set![self.qubit]);
        InvolvedQubits::ExplicitSet(qubits)
    }

    /// A copy with its qubit replaced by the image under the mapping. It fails
    /// with the error that names the qubit where the mapping has no image.
    pub fn remap_qubits(&self, mapping: &HashMap<usize, usize>) -> (r: Result<Self, RoqoqoError>)
        ensures
            match r {
                Ok(remapped) => self@.remaps_to(mapping@, remapped@),
                Err(e) => e matches RoqoqoError::QubitMappingError { qubit } && self@.remap_error(
                    mapping@,
                    qubit,
                ),
            },
            r is Ok <==> self@.covered_by(mapping@),
            r is Ok <==> mapping@.contains_key(self.qubit),
    {
        let qubit = match remap_qubit(self.qubit, mapping) {
            Ok(image) => image,
            Err(e) => {
                proof {
                    lemma_error_uncovered(self@, mapping@, e);
                }
                return Err(e);
            },
        };
        Ok(PragmaDepolarising {
            qubit,
            gate_time: self.gate_time.clone(),
            rate: self.rate.clone(),
        })
    }

    /// A copy with every symbolic parameter resolved to a number by the
    /// evaluator. It fails with the error of the first parameter that does not
    /// resolve.
    pub fn substitute_parameters(&self, calculator: &Calculator) -> (r: Result<Self, RoqoqoError>)
        ensures
            match r {
                Ok(substituted) => self@.substitutes_to(substituted@),
                Err(e) => self@.substitution_fails_with(e),
            },
            !self@.is_parametrized() ==> r is Ok,
    {
        let gate_time = match resolve(calculator, &self.gate_time) {
            Ok(value) => value,
            Err(e) => return Err(e),
        };
        let rate = match resolve(calculator, &self.rate) {
            Ok(value) => value,
            Err(e) => return Err(e),
        };
        Ok(PragmaDepolarising {
            qubit: self.qubit,
            gate_time,
            rate,
        })
    }
}

impl PragmaDepolarising {
    /// The superoperator of the channel:
    /// the depolarising matrix for the decay factor `exp(-gate_time * rate)`.
    /// It needs gate time and rate as numbers and fails with the conversion
    /// error of the first of them that is symbolic.
    pub fn superoperator(&self) -> (r: Result<Superoperator, RoqoqoError>)
        ensures
            match r {
                Ok(matrix) => is_numeric_matrix(matrix@) && exists|decay: CalculatorFloat|
                    is_decay(-1, self.gate_time, self.rate, Ok(decay)) && matrix@
                        == depolarising_matrix(decay),
                Err(e) => is_decay(-1, self.gate_time, self.rate, Err(e)),
            },
    {
        match decay_factor(-1, &self.gate_time, &self.rate) {
            Ok(decay) => Ok(depolarising_channel(&decay)),
            Err(e) => Err(e),
        }
    }

    /// The probability that the noise affects the qubit:
    /// `(1 - exp(-1 * gate_time * rate)) * 3/4`. It stays symbolic
    /// where gate time or rate is.
    pub fn probability(&self) -> (r: CalculatorFloat)
        ensures
            exists|decay: CalculatorFloat|
                is_exponential(
                    probability_argument(self.gate_time, self.rate, -1),
                    decay,
                ) && r == probability_value(decay, 3, 4),
    {
        exponential_probability(&self.gate_time, &self.rate, -1, 3, 4)
    }

    /// The same channel for `power` times the duration: a copy whose gate time
    /// is `power` times its gate time.
    pub fn powercf(&self, power: CalculatorFloat) -> (r: Self)
        ensures
            r@ == (OperationView::PragmaDepolarising {
                qubit: self.qubit,
                gate_time: product(power, self.gate_time),
                rate: self.rate,
            }),
    {
        PragmaDepolarising {
            qubit: self.qubit,
            gate_time: multiply(&power, &self.gate_time),
            rate: self.rate.clone(),
        }
    }
}

/// Dephasing noise: a pure dephasing error.
#[derive(Debug, PartialEq)]
pub struct PragmaDephasing {
    /// The qubit that the noise acts on.
    pub qubit: usize,
    /// The time that a gate takes on the hardware, in seconds.
    pub gate_time: CalculatorFloat,
    /// The error rate, in 1/second.
    pub rate: CalculatorFloat,
}

impl View for PragmaDephasing {
    type V = OperationView;

    open spec fn view(&self) -> OperationView {
        OperationView::PragmaDephasing {
            qubit: self.qubit,
            gate_time: self.gate_time,
            rate: self.rate,
        }
    }
}

impl Clone for PragmaDephasing {
    /// A copy with the same value.
    fn clone(&self) -> (r: Self)
        ensures
            r@ == self@,
    {
        PragmaDephasing {
            qubit: self.qubit,
            gate_time: self.gate_time.clone(),
            rate: self.rate.clone(),
        }
    }
}

impl PragmaDephasing {
    /// Makes the operation of its parts.
    pub fn new(qubit: usize, gate_time: CalculatorFloat, rate: CalculatorFloat) -> (r: Self)
        ensures
            r@ == (OperationView::PragmaDephasing {
                qubit,
                gate_time,
                rate,
            }),
    {
        PragmaDephasing { qubit, gate_time, rate }
    }

    /// The qubit that the noise acts on.
    pub fn qubit(&self) -> (r: &usize)
        ensures
            *r == self.qubit,
    {
        &self.qubit
    }

    /// The time that a gate takes on the hardware, in seconds.
    pub fn gate_time(&self) -> (r: &CalculatorFloat)
        ensures
            *r == self.gate_time,
    {
        &self.gate_time
    }

    /// The error rate, in 1/second.
    pub fn rate(&self) -> (r: &CalculatorFloat)
        ensures
            *r == self.rate,
    {
        &self.rate
    }

    /// The tags of the operation, `Operation` first and its own name last.
    pub fn tags(&self) -> (r: Vec<&'static str>)
        ensures
            texts(r@) == self@.tags(),
    {
        tags_of(OperationKind::PragmaDephasing)
    }

    /// The name of the operation.
    pub fn hqslang(&self) -> (r: &'static str)
        ensures
            r@ == "PragmaDephasing"@,
    {
        "PragmaDephasing"
    }

    /// Whether a parameter of the operation is still symbolic.
    pub fn is_parametrized(&self) -> (r: bool)
        ensures
            r == self@.is_parametrized(),
    {
        !self.gate_time.is_float() || !self.rate.is_float()
    }

    /// The qubits that the operation involves: its one qubit.
    pub fn involved_qubits(&self) -> (r: InvolvedQubits)
        ensures
            r@ == self@.involved(),
            r@ == Involvement::ExplicitSet(set![self.qubit]),
    {
        let mut qubits: HashSet<usize> = HashSet::new();
        qubits.insert(self.qubit);
        assert(qubits@ =~= self@.touched());
        assert(qubits@ =~= set![self.qubit]);
        InvolvedQubits::ExplicitSet(qubits)
    }

    /// A copy with its qubit replaced by the image under the mapping. It fails
    /// with the error that names the qubit where the mapping has no image.
    pub fn remap_qubits(&self, mapping: &HashMap<usize, usize>) -> (r: Result<Self, RoqoqoError>)
        ensures
            match r {
                Ok(remapped) => self@.remaps_to(mapping@, remapped@),
                Err(e) => e matches RoqoqoError::QubitMappingError { qubit } && self@.remap_error(
                    mapping@,
                    qubit,
                ),
            },
            r is Ok <==> self@.covered_by(mapping@),
            r is Ok <==> mapping@.contains_key(self.qubit),
    {
        let qubit = match remap_qubit(self.qubit, mapping) {
            Ok(image) => image,
            Err(e) => {
                proof {
                    lemma_error_uncovered(self@, mapping@, e);
                }
                return Err(e);
            },
        };
        Ok(PragmaDephasing {
            qubit,
            gate_time: self.gate_time.clone(),
            rate: self.rate.clone(),
        })
    }

    /// A copy with every symbolic parameter resolved to a number by the
    /// evaluator. It fails with the error of the first parameter that does not
    /// resolve.
    pub fn substitute_parameters(&self, calculator: &Calculator) -> (r: Result<Self, RoqoqoError>)
        ensures
            match r {
                Ok(substituted) => self@.substitutes_to(substituted@),
                Err(e) => self@.substitution_fails_with(e),
            },
            !self@.is_parametrized() ==> r is Ok,
    {
        let gate_time = match resolve(calculator, &self.gate_time) {
            Ok(value) => value,
            Err(e) => return Err(e),
        };
        let rate = match resolve(calculator, &self.rate) {
            Ok(value) => value,
            Err(e) => return Err(e),
        };
        Ok(PragmaDephasing {
            qubit: self.qubit,
            gate_time,
            rate,
        })
    }
}

impl PragmaDephasing {
    /// The superoperator of the channel:
    /// the dephasing matrix for the decay factor `exp(-2 * gate_time * rate)`.
    /// It needs gate time and rate as numbers and fails with the conversion
    /// error of the first of them that is symbolic.
    pub fn superoperator(&self) -> (r: Result<Superoperator, RoqoqoError>)
        ensures
            match r {
                Ok(matrix) => is_numeric_matrix(matrix@) && exists|decay: CalculatorFloat|
                    is_decay(-2, self.gate_time, self.rate, Ok(decay)) && matrix@
                        == dephasing_matrix(decay),
                Err(e) => is_decay(-2, self.gate_time, self.rate, Err(e)),
            },
    {
        match decay_factor(-2, &self.gate_time, &self.rate) {
            Ok(decay) => Ok(dephasing_channel(&decay)),
            Err(e) => Err(e),
        }
    }

    /// The probability that the noise affects the qubit:
    /// `(1 - exp(-2 * gate_time * rate)) * 1/2`. It stays symbolic
    /// where gate time or rate is.
    pub fn probability(&self) -> (r: CalculatorFloat)
        ensures
            exists|decay: CalculatorFloat|
                is_exponential(
                    probability_argument(self.gate_time, self.rate, -2),
                    decay,
                ) && r == probability_value(decay, 1, 2),
    {
        exponential_probability(&self.gate_time, &self.rate, -2, 1, 2)
    }

    /// The same channel for `power` times the duration: a copy whose gate time
    /// is `power` times its gate time.
    pub fn powercf(&self, power: CalculatorFloat) -> (r: Self)
        ensures
            r@ == (OperationView::PragmaDephasing {
                qubit: self.qubit,
                gate_time: product(power, self.gate_time),
                rate: self.rate,
            }),
    {
        PragmaDephasing {
            qubit: self.qubit,
            gate_time: multiply(&power, &self.gate_time),
            rate: self.rate.clone(),
        }
    }
}

/// Random noise: a stochastically unravelled mixture of dephasing and
/// depolarising.
#[derive(Debug, PartialEq)]
pub struct PragmaRandomNoise {
    /// The qubit that the noise acts on.
    pub qubit: usize,
    /// The time that a gate takes on the hardware, in seconds.
    pub gate_time: CalculatorFloat,
    /// The rate of the depolarisation, in 1/second.
    pub depolarising_rate: CalculatorFloat,
    /// The rate of the dephasing, in 1/second.
    pub dephasing_rate: CalculatorFloat,
}

impl View for PragmaRandomNoise {
    type V = OperationView;

    open spec fn view(&self) -> OperationView {
        OperationView::PragmaRandomNoise {
            qubit: self.qubit,
            gate_time: self.gate_time,
            depolarising_rate: self.depolarising_rate,
            dephasing_rate: self.dephasing_rate,
        }
    }
}

impl Clone for PragmaRandomNoise {
    /// A copy with the same value.
    fn clone(&self) -> (r: Self)
        ensures
            r@ == self@,
    {
        PragmaRandomNoise {
            qubit: self.qubit,
            gate_time: self.gate_time.clone(),
            depolarising_rate: self.depolarising_rate.clone(),
            dephasing_rate: self.dephasing_rate.clone(),
        }
    }
}

impl PragmaRandomNoise {
    /// Makes the operation of its parts.
    pub fn new(
        qubit: usize,
        gate_time: CalculatorFloat,
        depolarising_rate: CalculatorFloat,
        dephasing_rate: CalculatorFloat,
    ) -> (r: Self)
        ensures
            r@ == (OperationView::PragmaRandomNoise {
                qubit,
                gate_time,
                depolarising_rate,
                dephasing_rate,
            }),
    {
        PragmaRandomNoise { qubit, gate_time, depolarising_rate, dephasing_rate }
    }

    /// The qubit that the noise acts on.
    pub fn qubit(&self) -> (r: &usize)
        ensures
            *r == self.qubit,
    {
        &self.qubit
    }

    /// The time that a gate takes on the hardware, in seconds.
    pub fn gate_time(&self) -> (r: &CalculatorFloat)
        ensures
            *r == self.gate_time,
    {
        &self.gate_time
    }

    /// The rate of the depolarisation, in 1/second.
    pub fn depolarising_rate(&self) -> (r: &CalculatorFloat)
        ensures
            *r == self.depolarising_rate,
    {
        &self.depolarising_rate
    }

    /// The rate of the dephasing, in 1/second.
    pub fn dephasing_rate(&self) -> (r: &CalculatorFloat)
        ensures
            *r == self.dephasing_rate,
    {
        &self.dephasing_rate
    }

    /// The tags of the operation, `Operation` first and its own name last.
    pub fn tags(&self) -> (r: Vec<&'static str>)
        ensures
            texts(r@) == self@.tags(),
    {
        tags_of(OperationKind::PragmaRandomNoise)
    }

    /// The name of the operation.
    pub fn hqslang(&self) -> (r: &'static str)
        ensures
            r@ == "PragmaRandomNoise"@,
    {
        "PragmaRandomNoise"
    }

    /// Whether a parameter of the operation is still symbolic.
    pub fn is_parametrized(&self) -> (r: bool)
        ensures
            r == self@.is_parametrized(),
    {
        !self.gate_time.is_float()
            || !self.depolarising_rate.is_float()
            || !self.dephasing_rate.is_float()
    }

    /// The qubits that the operation involves: its one qubit.
    pub fn involved_qubits(&self) -> (r: InvolvedQubits)
        ensures
            r@ == self@.involved(),
            r@ == Involvement::ExplicitSet(set![self.qubit]),
    {
        let mut qubits: HashSet<usize> = HashSet::new();
        qubits.insert(self.qubit);
        assert(qubits@ =~= self@.touched());
        assert(qubits@ =~= set![self.qubit]);
        InvolvedQubits::ExplicitSet(qubits)
    }

    /// A copy with its qubit replaced by the image under the mapping. It fails
    /// with the error that names the qubit where the mapping has no image.
    pub fn remap_qubits(&self, mapping: &HashMap<usize, usize>) -> (r: Result<Self, RoqoqoError>)
        ensures
            match r {
                Ok(remapped) => self@.remaps_to(mapping@, remapped@),
                Err(e) => e matches RoqoqoError::QubitMappingError { qubit } && self@.remap_error(
                    mapping@,
                    qubit,
                ),
            },
            r is Ok <==> self@.covered_by(mapping@),
            r is Ok <==> mapping@.contains_key(self.qubit),
    {
        let qubit = match remap_qubit(self.qubit, mapping) {
            Ok(image) => image,
            Err(e) => {
                proof {
                    lemma_error_uncovered(self@, mapping@, e);
                }
                return Err(e);
            },
        };
        Ok(PragmaRandomNoise {
            qubit,
            gate_time: self.gate_time.clone(),
            depolarising_rate: self.depolarising_rate.clone(),
            dephasing_rate: self.dephasing_rate.clone(),
        })
    }

    /// A copy with every symbolic parameter resolved to a number by the
    /// evaluator. It fails with the error of the first parameter that does not
    /// resolve.
    pub fn substitute_parameters(&self, calculator: &Calculator) -> (r: Result<Self, RoqoqoError>)
        ensures
            match r {
                Ok(substituted) => self@.substitutes_to(substituted@),
                Err(e) => self@.substitution_fails_with(e),
            },
            !self@.is_parametrized() ==> r is Ok,
    {
        let gate_time = match resolve(calculator, &self.gate_time) {
            Ok(value) => value,
            Err(e) => return Err(e),
        };
        let depolarising_rate = match resolve(calculator, &self.depolarising_rate) {
            Ok(value) => value,
            Err(e) => return Err(e),
        };
        let dephasing_rate = match resolve(calculator, &self.dephasing_rate) {
            Ok(value) => value,
            Err(e) => return Err(e),
        };
        Ok(PragmaRandomNoise {
            qubit: self.qubit,
            gate_time,
            depolarising_rate,
            dephasing_rate,
        })
    }
}

impl PragmaRandomNoise {
    /// The superoperator of the channel after averaging over many
    /// trajectories: the dephasing matrix for the decay factor
    /// `exp(-2 * gate_time * dephasing_rate)`. The depolarising rate plays no
    /// part in it. It needs gate time and the dephasing rate as numbers and
    /// fails with the conversion error of the first of them that is symbolic.
    pub fn superoperator(&self) -> (r: Result<Superoperator, RoqoqoError>)
        ensures
            match r {
                Ok(matrix) => is_numeric_matrix(matrix@) && exists|decay: CalculatorFloat|
                    is_decay(-2, self.gate_time, self.dephasing_rate, Ok(decay)) && matrix@
                        == dephasing_matrix(decay),
                Err(e) => is_decay(-2, self.gate_time, self.dephasing_rate, Err(e)),
            },
    {
        match decay_factor(-2, &self.gate_time, &self.dephasing_rate) {
            Ok(decay) => Ok(dephasing_channel(&decay)),
            Err(e) => Err(e),
        }
    }

    /// The probability that the noise affects the qubit, to first order in
    /// gate time: the sum of three rates, twice a quarter of the depolarising
    /// rate and once that quarter plus the dephasing rate, times gate time.
    pub fn probability(&self) -> (r: CalculatorFloat)
        ensures
            r == random_noise_probability(
                self.gate_time,
                self.depolarising_rate,
                self.dephasing_rate,
            ),
    {
        linear_probability(&self.gate_time, &self.depolarising_rate, &self.dephasing_rate)
    }

    /// The same channel for `power` times the duration: a copy whose gate time
    /// is `power` times its gate time.
    pub fn powercf(&self, power: CalculatorFloat) -> (r: Self)
        ensures
            r@ == (OperationView::PragmaRandomNoise {
                qubit: self.qubit,
                gate_time: product(power, self.gate_time),
                depolarising_rate: self.depolarising_rate,
                dephasing_rate: self.dephasing_rate,
            }),
    {
        PragmaRandomNoise {
            qubit: self.qubit,
            gate_time: multiply(&power, &self.gate_time),
            depolarising_rate: self.depolarising_rate.clone(),
            dephasing_rate: self.dephasing_rate.clone(),
        }
    }
}

/// General noise: a noise term given by a 3x3 matrix of complex coefficients.
///
/// The coefficients weigh the products of Pauli operators in the first term of
/// the non-coherent part of the Lindblad equation. The channel is given by the
/// matrix as it stands; no superoperator is derived from it.
#[derive(Debug, PartialEq)]
pub struct PragmaGeneralNoise {
    /// The qubit that the noise acts on.
    pub qubit: usize,
    /// The time that a gate takes on the hardware, in seconds.
    pub gate_time: CalculatorFloat,
    /// The error rate, in 1/second.
    pub rate: CalculatorFloat,
    /// The 3x3 matrix of coefficients.
    pub operators: ComplexMatrix,
}

impl View for PragmaGeneralNoise {
    type V = OperationView;

    open spec fn view(&self) -> OperationView {
        OperationView::PragmaGeneralNoise {
            qubit: self.qubit,
            gate_time: self.gate_time,
            rate: self.rate,
            operators: self.operators,
        }
    }
}

impl Clone for PragmaGeneralNoise {
    /// A copy with the same value.
    fn clone(&self) -> (r: Self)
        ensures
            r@ == self@,
    {
        PragmaGeneralNoise {
            qubit: self.qubit,
            gate_time: self.gate_time.clone(),
            rate: self.rate.clone(),
            operators: self.operators.clone(),
        }
    }
}

impl PragmaGeneralNoise {
    /// Makes the operation of its parts.
    pub fn new(
        qubit: usize,
        gate_time: CalculatorFloat,
        rate: CalculatorFloat,
        operators: ComplexMatrix,
    ) -> (r: Self)
        ensures
            r@ == (OperationView::PragmaGeneralNoise {
                qubit,
                gate_time,
                rate,
                operators,
            }),
    {
        PragmaGeneralNoise { qubit, gate_time, rate, operators }
    }

    /// The qubit that the noise acts on.
    pub fn qubit(&self) -> (r: &usize)
        ensures
            *r == self.qubit,
    {
        &self.qubit
    }

    /// The time that a gate takes on the hardware, in seconds.
    pub fn gate_time(&self) -> (r: &CalculatorFloat)
        ensures
            *r == self.gate_time,
    {
        &self.gate_time
    }

    /// The error rate, in 1/second.
    pub fn rate(&self) -> (r: &CalculatorFloat)
        ensures
            *r == self.rate,
    {
        &self.rate
    }

    /// The 3x3 matrix of coefficients.
    pub fn operators(&self) -> (r: &ComplexMatrix)
        ensures
            *r == self.operators,
    {
        &self.operators
    }

    /// The tags of the operation, `Operation` first and its own name last.
    pub fn tags(&self) -> (r: Vec<&'static str>)
        ensures
            texts(r@) == self@.tags(),
    {
        tags_of(OperationKind::PragmaGeneralNoise)
    }

    /// The name of the operation.
    pub fn hqslang(&self) -> (r: &'static str)
        ensures
            r@ == "PragmaGeneralNoise"@,
    {
        "PragmaGeneralNoise"
    }

    /// Whether a parameter of the operation is still symbolic.
    pub fn is_parametrized(&self) -> (r: bool)
        ensures
            r == self@.is_parametrized(),
    {
        !self.gate_time.is_float() || !self.rate.is_float()
    }

    /// The qubits that the operation involves: its one qubit.
    pub fn involved_qubits(&self) -> (r: InvolvedQubits)
        ensures
            r@ == self@.involved(),
            r@ == Involvement::ExplicitSet(set![self.qubit]),
    {
        let mut qubits: HashSet<usize> = HashSet::new();
        qubits.insert(self.qubit);
        assert(qubits@ =~= self@.touched());
        assert(qubits@ =~= set![self.qubit]);
        InvolvedQubits::ExplicitSet(qubits)
    }

    /// A copy with its qubit replaced by the image under the mapping. It fails
    /// with the error that names the qubit where the mapping has no image.
    pub fn remap_qubits(&self, mapping: &HashMap<usize, usize>) -> (r: Result<Self, RoqoqoError>)
        ensures
            match r {
                Ok(remapped) => self@.remaps_to(mapping@, remapped@),
                Err(e) => e matches RoqoqoError::QubitMappingError { qubit } && self@.remap_error(
                    mapping@,
                    qubit,
                ),
            },
            r is Ok <==> self@.covered_by(mapping@),
            r is Ok <==> mapping@.contains_key(self.qubit),
    {
        let qubit = match remap_qubit(self.qubit, mapping) {
            Ok(image) => image,
            Err(e) => {
                proof {
                    lemma_error_uncovered(self@, mapping@, e);
                }
                return Err(e);
            },
        };
        Ok(PragmaGeneralNoise {
            qubit,
            gate_time: self.gate_time.clone(),
            rate: self.rate.clone(),
            operators: self.operators.clone(),
        })
    }

    /// A copy with every symbolic parameter resolved to a number by the
    /// evaluator. It fails with the error of the first parameter that does not
    /// resolve.
    pub fn substitute_parameters(&self, calculator: &Calculator) -> (r: Result<Self, RoqoqoError>)
        ensures
            match r {
                Ok(substituted) => self@.substitutes_to(substituted@),
                Err(e) => self@.substitution_fails_with(e),
            },
            !self@.is_parametrized() ==> r is Ok,
    {
        let gate_time = match resolve(calculator, &self.gate_time) {
            Ok(value) => value,
            Err(e) => return Err(e),
        };
        let rate = match resolve(calculator, &self.rate) {
            Ok(value) => value,
            Err(e) => return Err(e),
        };
        Ok(PragmaGeneralNoise {
            qubit: self.qubit,
            gate_time,
            rate,
            operators: self.operators.clone(),
        })
    }
}

} // verus!
