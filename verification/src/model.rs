//! The mathematical model of the operations.
//!
//! `OperationView` is the value of an operation with its lists, texts and
//! dictionaries as sequences and maps. The spec functions of this module say
//! what each capability of an operation means: which qubits it involves, what
//! counts as a copy with remapped qubits or with resolved parameters, and which
//! tags it carries. The contracts of the executable functions refer to them.

use crate::arrays::{ComplexMatrix, ComplexVector};
use crate::calculator::{is_number, may_resolve, resolves};
use crate::error::RoqoqoError;
use crate::involved::Involvement;
use crate::mapping::{
    covers, first_missing, images, is_remapped_dictionary, missing_in_dictionary,
};
use qoqo_calculator::CalculatorFloat;
use vstd::prelude::*;

verus! {

/// The kinds of operation.
#[derive(Debug, Clone, Copy, PartialEq, Eq, Structural)]
pub enum OperationKind {
    /// Sets the number of measurements of the circuit.
    PragmaSetNumberOfMeasurements,
    /// Sets the state vector of the register.
    PragmaSetStateVector,
    /// Sets the density matrix of the register.
    PragmaSetDensityMatrix,
    /// Repeats the next gate.
    PragmaRepeatGate,
    /// Applies a statistical overrotation to the next rotation gate.
    PragmaOverrotation,
    /// Boosts noise and overrotations.
    PragmaBoostNoise,
    /// Ends a block of parallel execution.
    PragmaStopParallelBlock,
    /// Tells that the register picks up a global phase.
    PragmaGlobalPhase,
    /// Makes the hardware wait.
    PragmaSleep,
    /// Resets a qubit to the zero state.
    PragmaActiveReset,
    /// Starts a decomposition block.
    PragmaStartDecompositionBlock,
    /// Ends a decomposition block.
    PragmaStopDecompositionBlock,
    /// Damping noise.
    PragmaDamping,
    /// Depolarising noise.
    PragmaDepolarising,
    /// Dephasing noise.
    PragmaDephasing,
    /// Stochastic mixture of depolarising and dephasing.
    PragmaRandomNoise,
    /// Noise given by a matrix of operators.
    PragmaGeneralNoise,
    /// Runs a circuit if a classical bit is set.
    PragmaConditional,
}

/// The value of an operation.
pub enum OperationView {
    PragmaSetNumberOfMeasurements { number_measurements: usize, readout: Seq<char> },
    PragmaSetStateVector { statevector: ComplexVector },
    PragmaSetDensityMatrix { density_matrix: ComplexMatrix },
    PragmaRepeatGate { repetition_coefficient: usize },
    PragmaOverrotation {
        gate_hqslang: Seq<char>,
        qubits: Seq<usize>,
        amplitude: u64,
        variance: u64,
    },
    PragmaBoostNoise { noise_coefficient: CalculatorFloat },
    PragmaStopParallelBlock { qubits: Seq<usize>, execution_time: CalculatorFloat },
    PragmaGlobalPhase { phase: CalculatorFloat },
    PragmaSleep { qubits: Seq<usize>, sleep_time: CalculatorFloat },
    PragmaActiveReset { qubit: usize },
    PragmaStartDecompositionBlock { qubits: Seq<usize>, reordering_dictionary: Map<usize, usize> },
    PragmaStopDecompositionBlock { qubits: Seq<usize> },
    PragmaDamping { qubit: usize, gate_time: CalculatorFloat, rate: CalculatorFloat },
    PragmaDepolarising { qubit: usize, gate_time: CalculatorFloat, rate: CalculatorFloat },
    PragmaDephasing { qubit: usize, gate_time: CalculatorFloat, rate: CalculatorFloat },
    PragmaRandomNoise {
        qubit: usize,
        gate_time: CalculatorFloat,
        depolarising_rate: CalculatorFloat,
        dephasing_rate: CalculatorFloat,
    },
    PragmaGeneralNoise {
        qubit: usize,
        gate_time: CalculatorFloat,
        rate: CalculatorFloat,
        operators: ComplexMatrix,
    },
    PragmaConditional {
        condition_register: Seq<char>,
        condition_index: usize,
        circuit: Seq<OperationView>,
    },
}

/// The tags of a kind of operation, in their fixed order. The first is always
/// `Operation`, the last the name of the kind.
pub open spec fn tag_list(kind: OperationKind) -> Seq<Seq<char>> {
    match kind {
        OperationKind::PragmaSetNumberOfMeasurements => seq![
            "Operation"@,
            "PragmaOperation"@,
            "PragmaSetNumberOfMeasurements"@,
        ],
        OperationKind::PragmaSetStateVector => seq![
            "Operation"@,
            "PragmaOperation"@,
            "PragmaSetStateVector"@,
        ],
        OperationKind::PragmaSetDensityMatrix => seq![
            "Operation"@,
            "PragmaOperation"@,
            "PragmaSetDensityMatrix"@,
        ],
        OperationKind::PragmaRepeatGate => seq![
            "Operation"@,
            "PragmaOperation"@,
            "PragmaRepeatGate"@,
        ],
        OperationKind::PragmaOverrotation => seq![
            "Operation"@,
            "MultiQubitOperation"@,
            "PragmaOperation"@,
            "PragmaOverrotation"@,
        ],
        OperationKind::PragmaBoostNoise => seq![
            "Operation"@,
            "PragmaOperation"@,
            "PragmaBoostNoise"@,
        ],
        OperationKind::PragmaStopParallelBlock => seq![
            "Operation"@,
            "MultiQubitOperation"@,
            "PragmaOperation"@,
            "PragmaStopParallelBlock"@,
        ],
        OperationKind::PragmaGlobalPhase => seq![
            "Operation"@,
            "PragmaOperation"@,
            "PragmaGlobalPhase"@,
        ],
        OperationKind::PragmaSleep => seq![
            "Operation"@,
            "MultiQubitOperation"@,
            "PragmaOperation"@,
            "PragmaSleep"@,
        ],
        OperationKind::PragmaActiveReset => seq![
            "Operation"@,
            "SingleQubitOperation"@,
            "PragmaOperation"@,
            "PragmaActiveReset"@,
        ],
        OperationKind::PragmaStartDecompositionBlock => seq![
            "Operation"@,
            "MultiQubitOperation"@,
            "PragmaOperation"@,
            "PragmaStartDecompositionBlock"@,
        ],
        OperationKind::PragmaStopDecompositionBlock => seq![
            "Operation"@,
            "MultiQubitOperation"@,
            "PragmaOperation"@,
            "PragmaStopDecompositionBlock"@,
        ],
        OperationKind::PragmaDamping => seq![
            "Operation"@,
            "SingleQubitOperation"@,
            "PragmaOperation"@,
            "PragmaNoiseOperation"@,
            "PragmaDamping"@,
        ],
        OperationKind::PragmaDepolarising => seq![
            "Operation"@,
            "SingleQubitOperation"@,
            "PragmaOperation"@,
            "PragmaNoiseOperation"@,
            "PragmaDepolarising"@,
        ],
        OperationKind::PragmaDephasing => seq![
            "Operation"@,
            "SingleQubitOperation"@,
            "PragmaOperation"@,
            "PragmaNoiseOperation"@,
            "PragmaDephasing"@,
        ],
        OperationKind::PragmaRandomNoise => seq![
            "Operation"@,
            "SingleQubitOperation"@,
            "PragmaOperation"@,
            "PragmaNoiseOperation"@,
            "PragmaRandomNoise"@,
        ],
        OperationKind::PragmaGeneralNoise => seq![
            "Operation"@,
            "SingleQubitOperation"@,
            "PragmaOperation"@,
            "PragmaGeneralNoise"@,
        ],
        OperationKind::PragmaConditional => seq![
            "Operation"@,
            "SingleQubitOperation"@,
            "PragmaOperation"@,
            "PragmaConditional"@,
        ],
    }
}

/// The texts of a list of string slices.
pub open spec fn texts(names: Seq<&'static str>) -> Seq<Seq<char>> {
    Seq::new(names.len(), |i: int| names[i]@)
}

impl OperationView {
    /// The kind of the operation.
    pub open spec fn kind(self) -> OperationKind {
        match self {
            OperationView::PragmaSetNumberOfMeasurements { .. } => {
                OperationKind::PragmaSetNumberOfMeasurements
            },
            OperationView::PragmaSetStateVector { .. } => OperationKind::PragmaSetStateVector,
            OperationView::PragmaSetDensityMatrix { .. } => OperationKind::PragmaSetDensityMatrix,
            OperationView::PragmaRepeatGate { .. } => OperationKind::PragmaRepeatGate,
            OperationView::PragmaOverrotation { .. } => OperationKind::PragmaOverrotation,
            OperationView::PragmaBoostNoise { .. } => OperationKind::PragmaBoostNoise,
            OperationView::PragmaStopParallelBlock { .. } => OperationKind::PragmaStopParallelBlock,
            OperationView::PragmaGlobalPhase { .. } => OperationKind::PragmaGlobalPhase,
            OperationView::PragmaSleep { .. } => OperationKind::PragmaSleep,
            OperationView::PragmaActiveReset { .. } => OperationKind::PragmaActiveReset,
            OperationView::PragmaStartDecompositionBlock { .. } => {
                OperationKind::PragmaStartDecompositionBlock
            },
            OperationView::PragmaStopDecompositionBlock { .. } => {
                OperationKind::PragmaStopDecompositionBlock
            },
            OperationView::PragmaDamping { .. } => OperationKind::PragmaDamping,
            OperationView::PragmaDepolarising { .. } => OperationKind::PragmaDepolarising,
            OperationView::PragmaDephasing { .. } => OperationKind::PragmaDephasing,
            OperationView::PragmaRandomNoise { .. } => OperationKind::PragmaRandomNoise,
            OperationView::PragmaGeneralNoise { .. } => OperationKind::PragmaGeneralNoise,
            OperationView::PragmaConditional { .. } => OperationKind::PragmaConditional,
        }
    }

    /// The tags of the operation: those of its kind.
    pub open spec fn tags(self) -> Seq<Seq<char>> {
        tag_list(self.kind())
    }

    /// Whether the operation involves every qubit of the register: the operations
    /// that set the state of the register or frame the next gate, and a
    /// conditional whose circuit holds such an operation.
    pub open spec fn involves_all(self) -> bool
        decreases self,
    {
        match self {
            OperationView::PragmaSetStateVector { .. } => true,
            OperationView::PragmaSetDensityMatrix { .. } => true,
            OperationView::PragmaRepeatGate { .. } => true,
            OperationView::PragmaConditional { circuit, .. } => circuit_involves_all(circuit),
            _ => false,
        }
    }

    /// Whether the operation names `qubit` among the qubits it acts on.
    pub open spec fn touches(self, qubit: usize) -> bool
        decreases self,
    {
        match self {
            OperationView::PragmaOverrotation { qubits, .. } => qubits.contains(qubit),
            OperationView::PragmaStopParallelBlock { qubits, .. } => qubits.contains(qubit),
            OperationView::PragmaSleep { qubits, .. } => qubits.contains(qubit),
            OperationView::PragmaStartDecompositionBlock { qubits, .. } => qubits.contains(qubit),
            OperationView::PragmaStopDecompositionBlock { qubits } => qubits.contains(qubit),
            OperationView::PragmaActiveReset { qubit: q } => q == qubit,
            OperationView::PragmaDamping { qubit: q, .. } => q == qubit,
            OperationView::PragmaDepolarising { qubit: q, .. } => q == qubit,
            OperationView::PragmaDephasing { qubit: q, .. } => q == qubit,
            OperationView::PragmaRandomNoise { qubit: q, .. } => q == qubit,
            OperationView::PragmaGeneralNoise { qubit: q, .. } => q == qubit,
            OperationView::PragmaConditional { circuit, .. } => circuit_touches(circuit, qubit),
            _ => false,
        }
    }

    /// The set of the qubits that the operation names.
    pub open spec fn touched(self) -> Set<usize> {
        Set::new(|qubit: usize| self.touches(qubit))
    }

    /// The qubits that the operation involves. Operations without a tie to a
    /// qubit involve none, operations on the whole register involve all, and
    /// the others involve the qubits they name. A conditional involves what
    /// its circuit involves: all qubits if one of its operations does, else
    /// the qubits that its operations name, and none where they name none.
    pub open spec fn involved(self) -> Involvement {
        match self {
            OperationView::PragmaSetNumberOfMeasurements { .. } => Involvement::Nothing,
            OperationView::PragmaBoostNoise { .. } => Involvement::Nothing,
            OperationView::PragmaGlobalPhase { .. } => Involvement::Nothing,
            OperationView::PragmaSetStateVector { .. } => Involvement::All,
            OperationView::PragmaSetDensityMatrix { .. } => Involvement::All,
            OperationView::PragmaRepeatGate { .. } => Involvement::All,
            OperationView::PragmaConditional { circuit, .. } => circuit_involved(circuit),
            _ => Involvement::ExplicitSet(self.touched()),
        }
    }

    /// Whether remapping the operation asks the mapping for `qubit`: the qubits
    /// it names and, for the start of a decomposition block, the keys and the
    /// values of its reordering dictionary.
    pub open spec fn uses(self, qubit: usize) -> bool
        decreases self,
    {
        match self {
            OperationView::PragmaStartDecompositionBlock { qubits, reordering_dictionary } => {
                ||| qubits.contains(qubit)
                ||| reordering_dictionary.contains_key(qubit)
                ||| exists|k: usize| #[trigger]
                    reordering_dictionary.contains_key(k) && reordering_dictionary[k] == qubit
            },
            OperationView::PragmaConditional { circuit, .. } => circuit_uses(circuit, qubit),
            _ => self.touches(qubit),
        }
    }

    /// Whether the mapping has an image for every qubit that the operation uses.
    pub open spec fn covered_by(self, mapping: Map<usize, usize>) -> bool {
        forall|qubit: usize| #[trigger] self.uses(qubit) ==> mapping.contains_key(qubit)
    }

    /// Whether `after` is the operation with every qubit replaced by its image
    /// under the mapping and everything else unchanged.
    pub open spec fn remaps_to(self, mapping: Map<usize, usize>, after: OperationView) -> bool
        decreases self,
    {
        match self {
            OperationView::PragmaOverrotation { gate_hqslang, qubits, amplitude, variance } => after
                == (OperationView::PragmaOverrotation {
                gate_hqslang,
                qubits: images(mapping, qubits),
                amplitude,
                variance,
            }),
            OperationView::PragmaStopParallelBlock { qubits, execution_time } => after
                == (OperationView::PragmaStopParallelBlock {
                qubits: images(mapping, qubits),
                execution_time,
            }),
            OperationView::PragmaSleep { qubits, sleep_time } => after
                == (OperationView::PragmaSleep { qubits: images(mapping, qubits), sleep_time }),
            OperationView::PragmaActiveReset { qubit } => after
                == (OperationView::PragmaActiveReset { qubit: mapping[qubit] }),
            OperationView::PragmaStartDecompositionBlock { qubits, reordering_dictionary } => {
                &&& after matches OperationView::PragmaStartDecompositionBlock {
                    qubits: new_qubits,
                    reordering_dictionary: new_dictionary,
                }
                &&& new_qubits == images(mapping, qubits)
                &&& is_remapped_dictionary(mapping, reordering_dictionary, new_dictionary)
            },
            OperationView::PragmaStopDecompositionBlock { qubits } => after
                == (OperationView::PragmaStopDecompositionBlock {
                qubits: images(mapping, qubits),
            }),
            OperationView::PragmaDamping { qubit, gate_time, rate } => after
                == (OperationView::PragmaDamping { qubit: mapping[qubit], gate_time, rate }),
            OperationView::PragmaDepolarising { qubit, gate_time, rate } => after
                == (OperationView::PragmaDepolarising { qubit: mapping[qubit], gate_time, rate }),
            OperationView::PragmaDephasing { qubit, gate_time, rate } => after
                == (OperationView::PragmaDephasing { qubit: mapping[qubit], gate_time, rate }),
            OperationView::PragmaRandomNoise {
                qubit,
                gate_time,
                depolarising_rate,
                dephasing_rate,
            } => after == (OperationView::PragmaRandomNoise {
                qubit: mapping[qubit],
                gate_time,
                depolarising_rate,
                dephasing_rate,
            }),
            OperationView::PragmaGeneralNoise { qubit, gate_time, rate, operators } => after
                == (OperationView::PragmaGeneralNoise {
                qubit: mapping[qubit],
                gate_time,
                rate,
                operators,
            }),
            OperationView::PragmaConditional { condition_register, condition_index, circuit } => {
                &&& after matches OperationView::PragmaConditional {
                    condition_register: new_register,
                    condition_index: new_index,
                    circuit: new_circuit,
                }
                &&& new_register == condition_register
                &&& new_index == condition_index
                &&& circuit_remaps_to(circuit, mapping, new_circuit)
            },
            _ => after == self,
        }
    }

    /// Whether remapping the operation may fail with the error that names
    /// `qubit`. For a single qubit it is that qubit, if it has no image. For a
    /// list it is its first qubit without an image. The start of a
    /// decomposition block looks at its list first and then at its dictionary,
    /// of which it may name any key or value without an image. A conditional
    /// reports what the first operation of its circuit that fails reports.
    pub open spec fn remap_error(self, mapping: Map<usize, usize>, qubit: usize) -> bool
        decreases self,
    {
        match self {
            OperationView::PragmaOverrotation { qubits, .. } => list_error(mapping, qubits, qubit),
            OperationView::PragmaStopParallelBlock { qubits, .. } => list_error(
                mapping,
                qubits,
                qubit,
            ),
            OperationView::PragmaSleep { qubits, .. } => list_error(mapping, qubits, qubit),
            OperationView::PragmaStopDecompositionBlock { qubits } => list_error(
                mapping,
                qubits,
                qubit,
            ),
            OperationView::PragmaStartDecompositionBlock { qubits, reordering_dictionary } => {
                ||| list_error(mapping, qubits, qubit)
                ||| covers(mapping, qubits) && missing_in_dictionary(
                    mapping,
                    reordering_dictionary,
                    qubit,
                )
            },
            OperationView::PragmaActiveReset { qubit: q } => q == qubit && !mapping.contains_key(q),
            OperationView::PragmaDamping { qubit: q, .. } => q == qubit && !mapping.contains_key(q),
            OperationView::PragmaDepolarising { qubit: q, .. } => q == qubit
                && !mapping.contains_key(q),
            OperationView::PragmaDephasing { qubit: q, .. } => q == qubit && !mapping.contains_key(
                q,
            ),
            OperationView::PragmaRandomNoise { qubit: q, .. } => q == qubit
                && !mapping.contains_key(q),
            OperationView::PragmaGeneralNoise { qubit: q, .. } => q == qubit
                && !mapping.contains_key(q),
            OperationView::PragmaConditional { circuit, .. } => circuit_remap_error(
                circuit,
                mapping,
                qubit,
            ),
            _ => false,
        }
    }

    /// Whether a parameter of the operation is still symbolic.
    pub open spec fn is_parametrized(self) -> bool
        decreases self,
    {
        match self {
            OperationView::PragmaBoostNoise { noise_coefficient } => !is_number(noise_coefficient),
            OperationView::PragmaStopParallelBlock { execution_time, .. } => !is_number(
                execution_time,
            ),
            OperationView::PragmaGlobalPhase { phase } => !is_number(phase),
            OperationView::PragmaSleep { sleep_time, .. } => !is_number(sleep_time),
            OperationView::PragmaDamping { gate_time, rate, .. } => !is_number(gate_time)
                || !is_number(rate),
            OperationView::PragmaDepolarising { gate_time, rate, .. } => !is_number(gate_time)
                || !is_number(rate),
            OperationView::PragmaDephasing { gate_time, rate, .. } => !is_number(gate_time)
                || !is_number(rate),
            OperationView::PragmaRandomNoise {
                gate_time,
                depolarising_rate,
                dephasing_rate,
                ..
            } => !is_number(gate_time) || !is_number(depolarising_rate) || !is_number(
                dephasing_rate,
            ),
            OperationView::PragmaGeneralNoise { gate_time, rate, .. } => !is_number(gate_time)
                || !is_number(rate),
            OperationView::PragmaConditional { circuit, .. } => circuit_is_parametrized(circuit),
            _ => false,
        }
    }

    /// Whether `after` is the operation with every parameter resolved and
    /// everything else unchanged.
    pub open spec fn substitutes_to(self, after: OperationView) -> bool
        decreases self,
    {
        match self {
            OperationView::PragmaBoostNoise { noise_coefficient } => {
                &&& after matches OperationView::PragmaBoostNoise { noise_coefficient: a }
                &&& resolves(noise_coefficient, Ok(a))
            },
            OperationView::PragmaStopParallelBlock { qubits, execution_time } => {
                &&& after matches OperationView::PragmaStopParallelBlock {
                    qubits: new_qubits,
                    execution_time: a,
                }
                &&& new_qubits == qubits
                &&& resolves(execution_time, Ok(a))
            },
            OperationView::PragmaGlobalPhase { phase } => {
                &&& after matches OperationView::PragmaGlobalPhase { phase: a }
                &&& resolves(phase, Ok(a))
            },
            OperationView::PragmaSleep { qubits, sleep_time } => {
                &&& after matches OperationView::PragmaSleep { qubits: new_qubits, sleep_time: a }
                &&& new_qubits == qubits
                &&& resolves(sleep_time, Ok(a))
            },
            OperationView::PragmaDamping { qubit, gate_time, rate } => {
                &&& after matches OperationView::PragmaDamping { qubit: q, gate_time: a, rate: b }
                &&& q == qubit
                &&& resolves(gate_time, Ok(a))
                &&& resolves(rate, Ok(b))
            },
            OperationView::PragmaDepolarising { qubit, gate_time, rate } => {
                &&& after matches OperationView::PragmaDepolarising {
                    qubit: q,
                    gate_time: a,
                    rate: b,
                }
                &&& q == qubit
                &&& resolves(gate_time, Ok(a))
                &&& resolves(rate, Ok(b))
            },
            OperationView::PragmaDephasing { qubit, gate_time, rate } => {
                &&& after matches OperationView::PragmaDephasing { qubit: q, gate_time: a, rate: b }
                &&& q == qubit
                &&& resolves(gate_time, Ok(a))
                &&& resolves(rate, Ok(b))
            },
            OperationView::PragmaRandomNoise {
                qubit,
                gate_time,
                depolarising_rate,
                dephasing_rate,
            } => {
                &&& after matches OperationView::PragmaRandomNoise {
                    qubit: q,
                    gate_time: a,
                    depolarising_rate: b,
                    dephasing_rate: c,
                }
                &&& q == qubit
                &&& resolves(gate_time, Ok(a))
                &&& resolves(depolarising_rate, Ok(b))
                &&& resolves(dephasing_rate, Ok(c))
            },
            OperationView::PragmaGeneralNoise { qubit, gate_time, rate, operators } => {
                &&& after matches OperationView::PragmaGeneralNoise {
                    qubit: q,
                    gate_time: a,
                    rate: b,
                    operators: o,
                }
                &&& q == qubit
                &&& o == operators
                &&& resolves(gate_time, Ok(a))
                &&& resolves(rate, Ok(b))
            },
            OperationView::PragmaConditional { condition_register, condition_index, circuit } => {
                &&& after matches OperationView::PragmaConditional {
                    condition_register: new_register,
                    condition_index: new_index,
                    circuit: new_circuit,
                }
                &&& new_register == condition_register
                &&& new_index == condition_index
                &&& circuit_substitutes_to(circuit, new_circuit)
            },
            _ => after == self,
        }
    }

    /// Whether every parameter of the operation can resolve: none of them is an
    /// expression that is refused before the evaluator sees it.
    pub open spec fn can_substitute(self) -> bool
        decreases self,
    {
        match self {
            OperationView::PragmaBoostNoise { noise_coefficient } => may_resolve(noise_coefficient),
            OperationView::PragmaStopParallelBlock { execution_time, .. } => may_resolve(
                execution_time,
            ),
            OperationView::PragmaGlobalPhase { phase } => may_resolve(phase),
            OperationView::PragmaSleep { sleep_time, .. } => may_resolve(sleep_time),
            OperationView::PragmaDamping { gate_time, rate, .. } => may_resolve(gate_time)
                && may_resolve(rate),
            OperationView::PragmaDepolarising { gate_time, rate, .. } => may_resolve(gate_time)
                && may_resolve(rate),
            OperationView::PragmaDephasing { gate_time, rate, .. } => may_resolve(gate_time)
                && may_resolve(rate),
            OperationView::PragmaRandomNoise {
                gate_time,
                depolarising_rate,
                dephasing_rate,
                ..
            } => may_resolve(gate_time) && may_resolve(depolarising_rate) && may_resolve(
                dephasing_rate,
            ),
            OperationView::PragmaGeneralNoise { gate_time, rate, .. } => may_resolve(gate_time)
                && may_resolve(rate),
            OperationView::PragmaConditional { circuit, .. } => circuit_can_substitute(circuit),
            _ => true,
        }
    }

    /// Whether substituting the parameters of the operation may fail with
    /// `error`: whether its first parameter that does not resolve may fail
    /// with it. The parameters are taken in the order of the fields, those of a
    /// conditional in the order of its circuit.
    pub open spec fn substitution_fails_with(self, error: RoqoqoError) -> bool
        decreases self,
    {
        match self {
            OperationView::PragmaBoostNoise { noise_coefficient } => resolves(
                noise_coefficient,
                Err(error),
            ),
            OperationView::PragmaStopParallelBlock { execution_time, .. } => resolves(
                execution_time,
                Err(error),
            ),
            OperationView::PragmaGlobalPhase { phase } => resolves(phase, Err(error)),
            OperationView::PragmaSleep { sleep_time, .. } => resolves(sleep_time, Err(error)),
            OperationView::PragmaDamping { gate_time, rate, .. } => first_failure(
                seq![gate_time, rate],
                error,
            ),
            OperationView::PragmaDepolarising { gate_time, rate, .. } => first_failure(
                seq![gate_time, rate],
                error,
            ),
            OperationView::PragmaDephasing { gate_time, rate, .. } => first_failure(
                seq![gate_time, rate],
                error,
            ),
            OperationView::PragmaRandomNoise {
                gate_time,
                depolarising_rate,
                dephasing_rate,
                ..
            } => first_failure(seq![gate_time, depolarising_rate, dephasing_rate], error),
            OperationView::PragmaGeneralNoise { gate_time, rate, .. } => first_failure(
                seq![gate_time, rate],
                error,
            ),
            OperationView::PragmaConditional { circuit, .. } => circuit_substitution_fails_with(
                circuit,
                error,
            ),
            _ => false,
        }
    }
}

/// Whether resolving a list of parameters in order may fail with `error`: a
/// parameter of the list may fail with it, and every parameter before it can
/// resolve.
pub open spec fn first_failure(parameters: Seq<CalculatorFloat>, error: RoqoqoError) -> bool {
    exists|i: int|
        0 <= i < parameters.len() && resolves(#[trigger] parameters[i], Err(error)) && forall|
            j: int,
        | 0 <= j < i ==> may_resolve(#[trigger] parameters[j])
}

/// Whether `qubit` is the first qubit of the list without an image.
pub open spec fn list_error(mapping: Map<usize, usize>, qubits: Seq<usize>, qubit: usize) -> bool {
    exists|i: int| first_missing(mapping, qubits, i) && qubits[i] == qubit
}

/// Whether remapping the circuit may fail with the error that names `qubit`:
/// what its first operation that fails may report.
pub open spec fn circuit_remap_error(
    circuit: Seq<OperationView>,
    mapping: Map<usize, usize>,
    qubit: usize,
) -> bool
    decreases circuit,
{
    exists|i: int|
        0 <= i < circuit.len() && (#[trigger] circuit[i]).remap_error(mapping, qubit) && forall|
            j: int,
        | 0 <= j < i ==> (#[trigger] circuit[j]).covered_by(mapping)
}

/// Whether an operation of the circuit involves every qubit.
pub open spec fn circuit_involves_all(circuit: Seq<OperationView>) -> bool
    decreases circuit,
{
    exists|i: int| 0 <= i < circuit.len() && (#[trigger] circuit[i]).involves_all()
}

/// Whether an operation of the circuit names `qubit`.
pub open spec fn circuit_touches(circuit: Seq<OperationView>, qubit: usize) -> bool
    decreases circuit,
{
    exists|i: int| 0 <= i < circuit.len() && (#[trigger] circuit[i]).touches(qubit)
}

/// The qubits that a circuit involves: all if one of its operations involves
/// all, else the qubits that its operations name, and none where they name
/// none.
pub open spec fn circuit_involved(circuit: Seq<OperationView>) -> Involvement {
    if circuit_involves_all(circuit) {
        Involvement::All
    } else if forall|qubit: usize| !circuit_touches(circuit, qubit) {
        Involvement::Nothing
    } else {
        Involvement::ExplicitSet(Set::new(|qubit: usize| circuit_touches(circuit, qubit)))
    }
}

/// Whether remapping the circuit asks the mapping for `qubit`: whether an
/// operation of the circuit uses it.
pub open spec fn circuit_uses(circuit: Seq<OperationView>, qubit: usize) -> bool
    decreases circuit,
{
    exists|i: int| 0 <= i < circuit.len() && (#[trigger] circuit[i]).uses(qubit)
}

/// Whether the mapping has an image for every qubit that the circuit uses.
pub open spec fn circuit_covered_by(circuit: Seq<OperationView>, mapping: Map<usize, usize>)
    -> bool {
    forall|i: int| 0 <= i < circuit.len() ==> (#[trigger] circuit[i]).covered_by(mapping)
}

/// Whether `after` is the circuit with every operation remapped.
pub open spec fn circuit_remaps_to(
    circuit: Seq<OperationView>,
    mapping: Map<usize, usize>,
    after: Seq<OperationView>,
) -> bool
    decreases circuit,
{
    &&& after.len() == circuit.len()
    &&& forall|i: int|
        0 <= i < circuit.len() ==> (#[trigger] circuit[i]).remaps_to(mapping, after[i])
}

/// Whether an operation of the circuit has a parameter that is still symbolic.
pub open spec fn circuit_is_parametrized(circuit: Seq<OperationView>) -> bool
    decreases circuit,
{
    exists|i: int| 0 <= i < circuit.len() && (#[trigger] circuit[i]).is_parametrized()
}

/// Whether `after` is the circuit with the parameters of every operation
/// resolved.
pub open spec fn circuit_substitutes_to(circuit: Seq<OperationView>, after: Seq<OperationView>)
    -> bool
    decreases circuit,
{
    &&& after.len() == circuit.len()
    &&& forall|i: int| 0 <= i < circuit.len() ==> (#[trigger] circuit[i]).substitutes_to(after[i])
}

/// Whether every parameter of every operation of the circuit can resolve.
pub open spec fn circuit_can_substitute(circuit: Seq<OperationView>) -> bool
    decreases circuit,
{
    forall|i: int| 0 <= i < circuit.len() ==> (#[trigger] circuit[i]).can_substitute()
}

/// Whether substituting the parameters of the circuit may fail with `error`:
/// an operation of the circuit may fail with it, and every parameter of the
/// operations before it can resolve.
pub open spec fn circuit_substitution_fails_with(circuit: Seq<OperationView>, error: RoqoqoError)
    -> bool
    decreases circuit,
{
    exists|i: int|
        0 <= i < circuit.len() && (#[trigger] circuit[i]).substitution_fails_with(error)
            && forall|j: int| 0 <= j < i ==> (#[trigger] circuit[j]).can_substitute()
}

} // verus!
