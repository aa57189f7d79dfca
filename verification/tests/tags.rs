use qoqo_calculator::CalculatorFloat;
use roqoqo::operations::{
    tags_of, ComplexMatrix, ComplexVector, InvolvedQubits, Operation, OperationKind,
    PragmaActiveReset, PragmaBoostNoise, PragmaConditional, PragmaDamping, PragmaDephasing,
    PragmaDepolarising, PragmaGeneralNoise, PragmaGlobalPhase, PragmaOverrotation,
    PragmaRandomNoise, PragmaRepeatGate, PragmaSetDensityMatrix, PragmaSetNumberOfMeasurements,
    PragmaSetStateVector, PragmaSleep, PragmaStartDecompositionBlock,
    PragmaStopDecompositionBlock, PragmaStopParallelBlock,
};
use roqoqo::Circuit;
use std::collections::HashMap;

fn vector() -> ComplexVector {
    ComplexVector {
        array: ndarray::Array1::from_vec(vec![
            num_complex::Complex64::new(0.0, 0.0),
            num_complex::Complex64::new(1.0, 0.0),
        ]),
    }
}

fn matrix() -> ComplexMatrix {
    ComplexMatrix { array: ndarray::Array2::from_elem((2, 2), num_complex::Complex64::new(0.5, 0.0)) }
}

fn every_operation() -> Vec<Operation> {
    let time = CalculatorFloat::from(0.005);
    let rate = CalculatorFloat::from("rate");
    let mut circuit = Circuit::new();
    circuit.add_operation(Operation::PragmaActiveReset(PragmaActiveReset::new(2)));
    vec![
        Operation::PragmaSetNumberOfMeasurements(PragmaSetNumberOfMeasurements::new(1, "ro".to_string())),
        Operation::PragmaSetStateVector(PragmaSetStateVector::new(vector())),
        Operation::PragmaSetDensityMatrix(PragmaSetDensityMatrix::new(matrix())),
        Operation::PragmaRepeatGate(PragmaRepeatGate::new(3)),
        Operation::PragmaOverrotation(PragmaOverrotation::new(
            "RotateX".to_string(),
            vec![0],
            0.03f64.to_bits(),
            0.001f64.to_bits(),
        )),
        Operation::PragmaBoostNoise(PragmaBoostNoise::new(time.clone())),
        Operation::PragmaStopParallelBlock(PragmaStopParallelBlock::new(vec![0, 1], time.clone())),
        Operation::PragmaGlobalPhase(PragmaGlobalPhase::new(rate.clone())),
        Operation::PragmaSleep(PragmaSleep::new(vec![0, 1], time.clone())),
        Operation::PragmaActiveReset(PragmaActiveReset::new(0)),
        Operation::PragmaStartDecompositionBlock(PragmaStartDecompositionBlock::new(vec![0, 1], HashMap::new())),
        Operation::PragmaStopDecompositionBlock(PragmaStopDecompositionBlock::new(vec![0, 1])),
        Operation::PragmaDamping(PragmaDamping::new(0, time.clone(), rate.clone())),
        Operation::PragmaDepolarising(PragmaDepolarising::new(0, time.clone(), rate.clone())),
        Operation::PragmaDephasing(PragmaDephasing::new(0, time.clone(), rate.clone())),
        Operation::PragmaRandomNoise(PragmaRandomNoise::new(0, time.clone(), rate.clone(), rate.clone())),
        Operation::PragmaGeneralNoise(PragmaGeneralNoise::new(0, time.clone(), rate.clone(), matrix())),
        Operation::PragmaConditional(PragmaConditional::new("ro".to_string(), 0, circuit)),
    ]
}

#[test]
fn tags_begin_with_operation_and_end_with_the_name() {
    for operation in every_operation() {
        let tags = operation.tags();
        assert!(!tags.is_empty());
        assert_eq!(tags[0], "Operation");
        assert!(tags.contains(&"PragmaOperation"));
        assert_eq!(*tags.last().unwrap(), operation.hqslang());
        assert_eq!(operation.tags(), tags);
        assert_eq!(operation.clone().tags(), tags);
        assert_eq!(tags_of(operation.kind()), tags);
        assert_eq!(operation.clone(), operation);
    }
}

#[test]
fn tags_of_each_kind() {
    assert_eq!(
        tags_of(OperationKind::PragmaSetNumberOfMeasurements),
        vec!["Operation", "PragmaOperation", "PragmaSetNumberOfMeasurements"]
    );
    assert_eq!(
        PragmaSleep::new(vec![], CalculatorFloat::from(0)).tags(),
        vec!["Operation", "MultiQubitOperation", "PragmaOperation", "PragmaSleep"]
    );
    assert_eq!(
        PragmaActiveReset::new(0).tags(),
        vec!["Operation", "SingleQubitOperation", "PragmaOperation", "PragmaActiveReset"]
    );
    assert_eq!(
        PragmaDamping::new(0, CalculatorFloat::from(0), CalculatorFloat::from(0)).tags(),
        vec![
            "Operation",
            "SingleQubitOperation",
            "PragmaOperation",
            "PragmaNoiseOperation",
            "PragmaDamping"
        ]
    );
    assert_eq!(
        PragmaGeneralNoise::new(0, CalculatorFloat::from(0), CalculatorFloat::from(0), matrix()).tags(),
        vec!["Operation", "SingleQubitOperation", "PragmaOperation", "PragmaGeneralNoise"]
    );
    assert_eq!(
        PragmaConditional::new("ro".to_string(), 0, Circuit::new()).tags(),
        vec!["Operation", "SingleQubitOperation", "PragmaOperation", "PragmaConditional"]
    );
    assert_eq!(PragmaRepeatGate::new(1).hqslang(), "PragmaRepeatGate");
}

#[test]
fn involvement_of_each_kind() {
    let expected = [
        "Nothing", "All", "All", "All", "Set", "Nothing", "Set", "Nothing", "Set", "Set", "Set",
        "Set", "Set", "Set", "Set", "Set", "Set", "Set",
    ];
    for (operation, kind) in every_operation().iter().zip(expected.iter()) {
        let involved = operation.involved_qubits();
        let actual = match involved {
            InvolvedQubits::All => "All",
            InvolvedQubits::Nothing => "Nothing",
            InvolvedQubits::ExplicitSet(_) => "Set",
        };
        assert_eq!(actual, *kind, "{}", operation.hqslang());
        assert_eq!(operation.involved_qubits(), involved);
    }
}

#[test]
fn parts_are_handed_back() {
    let count = PragmaSetNumberOfMeasurements::new(20, "ro".to_string());
    assert_eq!(count.number_measurements(), &20);
    assert_eq!(count.readout(), &"ro".to_string());
    let state = PragmaSetStateVector::new(vector());
    assert_eq!(state.statevector(), &vector());
    assert_eq!(state.clone(), state);
    let density = PragmaSetDensityMatrix::new(matrix());
    assert_eq!(density.density_matrix(), &matrix());
    assert_eq!(PragmaRepeatGate::new(7).repetition_coefficient(), &7);
    let boost = PragmaBoostNoise::new(CalculatorFloat::from(0.003));
    assert_eq!(boost.noise_coefficient(), &CalculatorFloat::from(0.003));
    let stop = PragmaStopParallelBlock::new(vec![0, 1], CalculatorFloat::from(0.0000001));
    assert_eq!(stop.qubits(), &vec![0, 1]);
    assert_eq!(stop.execution_time(), &CalculatorFloat::from(0.0000001));
    assert_eq!(PragmaGlobalPhase::new(CalculatorFloat::from(0.05)).phase(), &CalculatorFloat::from(0.05));
    assert_eq!(PragmaActiveReset::new(4).qubit(), &4);
}
