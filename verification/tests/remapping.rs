use qoqo_calculator::CalculatorFloat;
use roqoqo::operations::{
    InvolvedQubits, Operation, PragmaActiveReset, PragmaConditional, PragmaDamping,
    PragmaGlobalPhase, PragmaOverrotation, PragmaRepeatGate, PragmaSetNumberOfMeasurements,
    PragmaSleep, PragmaStartDecompositionBlock, PragmaStopDecompositionBlock,
    PragmaStopParallelBlock,
};
use roqoqo::{Circuit, RoqoqoError};
use std::collections::{HashMap, HashSet};

fn mapping_of(pairs: &[(usize, usize)]) -> HashMap<usize, usize> {
    let mut mapping = HashMap::new();
    for (old, new) in pairs {
        mapping.insert(*old, *new);
    }
    mapping
}

fn set_of(qubits: &[usize]) -> HashSet<usize> {
    qubits.iter().copied().collect()
}

#[test]
fn active_reset_names_the_missing_qubit() {
    let pragma = PragmaActiveReset::new(5);
    let mapping = mapping_of(&[(0, 1)]);
    assert_eq!(
        pragma.remap_qubits(&mapping),
        Err(RoqoqoError::QubitMappingError { qubit: 5 })
    );
}

#[test]
fn active_reset_is_remapped() {
    let pragma = PragmaActiveReset::new(0);
    let mapping = mapping_of(&[(0, 1), (1, 0)]);
    assert_eq!(pragma.remap_qubits(&mapping), Ok(PragmaActiveReset::new(1)));
    assert_eq!(pragma, PragmaActiveReset::new(0));
}

#[test]
fn list_is_remapped_in_order() {
    let pragma = PragmaSleep::new(vec![0, 2, 1], CalculatorFloat::from(0.5));
    let mapping = mapping_of(&[(0, 3), (1, 5), (2, 4)]);
    let remapped = pragma.remap_qubits(&mapping).unwrap();
    assert_eq!(remapped.qubits(), &vec![3, 4, 5]);
    assert_eq!(remapped.sleep_time(), &CalculatorFloat::from(0.5));
}

#[test]
fn list_error_names_the_first_missing_qubit() {
    let pragma = PragmaStopParallelBlock::new(vec![0, 7, 1, 9], CalculatorFloat::from(0.1));
    let mapping = mapping_of(&[(0, 1), (1, 0)]);
    assert_eq!(
        pragma.remap_qubits(&mapping),
        Err(RoqoqoError::QubitMappingError { qubit: 7 })
    );
    let stop = PragmaStopDecompositionBlock::new(vec![1, 4]);
    assert_eq!(
        stop.remap_qubits(&mapping),
        Err(RoqoqoError::QubitMappingError { qubit: 4 })
    );
}

#[test]
fn overrotation_keeps_its_numbers() {
    let pragma = PragmaOverrotation::new(
        "RotateX".to_string(),
        vec![0, 1],
        0.03f64.to_bits(),
        0.001f64.to_bits(),
    );
    let mapping = mapping_of(&[(0, 1), (1, 0)]);
    let remapped = pragma.remap_qubits(&mapping).unwrap();
    assert_eq!(remapped.qubits(), &vec![1, 0]);
    assert_eq!(remapped.gate_hqslang(), &"RotateX".to_string());
    assert_eq!(f64::from_bits(*remapped.amplitude()), 0.03);
    assert_eq!(f64::from_bits(*remapped.variance()), 0.001);
}

#[test]
fn operations_without_qubits_never_fail() {
    let empty: HashMap<usize, usize> = HashMap::new();
    let count = PragmaSetNumberOfMeasurements::new(20, "ro".to_string());
    assert_eq!(count.remap_qubits(&empty), Ok(count.clone()));
    let repeat = PragmaRepeatGate::new(3);
    assert_eq!(repeat.remap_qubits(&empty), Ok(PragmaRepeatGate::new(3)));
    let phase = PragmaGlobalPhase::new(CalculatorFloat::from("phi"));
    assert_eq!(phase.remap_qubits(&empty), Ok(phase.clone()));
}

#[test]
fn decomposition_block_remaps_list_keys_and_values() {
    let dictionary = mapping_of(&[(0, 1), (1, 0)]);
    let pragma = PragmaStartDecompositionBlock::new(vec![0, 1], dictionary);
    let mapping = mapping_of(&[(0, 2), (1, 3)]);
    let remapped = pragma.remap_qubits(&mapping).unwrap();
    assert_eq!(remapped.qubits(), &vec![2, 3]);
    assert_eq!(remapped.reordering_dictionary(), &mapping_of(&[(2, 3), (3, 2)]));
}

#[test]
fn decomposition_block_fails_on_a_missing_key() {
    let pragma = PragmaStartDecompositionBlock::new(vec![0], mapping_of(&[(5, 0)]));
    let mapping = mapping_of(&[(0, 1)]);
    assert_eq!(
        pragma.remap_qubits(&mapping),
        Err(RoqoqoError::QubitMappingError { qubit: 5 })
    );
}

#[test]
fn decomposition_block_fails_on_a_missing_value() {
    let pragma = PragmaStartDecompositionBlock::new(vec![0], mapping_of(&[(0, 6)]));
    let mapping = mapping_of(&[(0, 1)]);
    assert_eq!(
        pragma.remap_qubits(&mapping),
        Err(RoqoqoError::QubitMappingError { qubit: 6 })
    );
}

#[test]
fn decomposition_block_looks_at_its_list_first() {
    let pragma = PragmaStartDecompositionBlock::new(vec![8, 0], mapping_of(&[(9, 0)]));
    let mapping = mapping_of(&[(0, 1)]);
    assert_eq!(
        pragma.remap_qubits(&mapping),
        Err(RoqoqoError::QubitMappingError { qubit: 8 })
    );
}

#[test]
fn identity_mapping_changes_nothing() {
    let identity = mapping_of(&[(0, 0), (1, 1), (2, 2)]);
    let block = PragmaStartDecompositionBlock::new(vec![0, 1, 2], mapping_of(&[(0, 2), (2, 0)]));
    assert_eq!(block.remap_qubits(&identity), Ok(block.clone()));
    let noise = PragmaDamping::new(1, CalculatorFloat::from(0.01), CalculatorFloat::from("r"));
    assert_eq!(noise.remap_qubits(&identity), Ok(noise.clone()));
    let mut circuit = Circuit::new();
    circuit.add_operation(Operation::PragmaActiveReset(PragmaActiveReset::new(0)));
    circuit.add_operation(Operation::PragmaStartDecompositionBlock(block));
    let conditional = Operation::PragmaConditional(PragmaConditional::new("ro".to_string(), 1, circuit));
    assert_eq!(conditional.remap_qubits(&identity), Ok(conditional.clone()));
}

#[test]
fn involved_qubits_of_a_remapped_operation_are_the_images() {
    let mapping = mapping_of(&[(0, 4), (1, 4), (2, 7)]);
    let pragma = Operation::PragmaSleep(PragmaSleep::new(vec![0, 1, 2], CalculatorFloat::from(1)));
    assert_eq!(pragma.involved_qubits(), InvolvedQubits::ExplicitSet(set_of(&[0, 1, 2])));
    let remapped = pragma.remap_qubits(&mapping).unwrap();
    assert_eq!(remapped.involved_qubits(), InvolvedQubits::ExplicitSet(set_of(&[4, 7])));
    let all = Operation::PragmaRepeatGate(PragmaRepeatGate::new(2));
    assert_eq!(all.remap_qubits(&mapping).unwrap().involved_qubits(), InvolvedQubits::All);
    let none = Operation::PragmaGlobalPhase(PragmaGlobalPhase::new(CalculatorFloat::from(0.5)));
    assert_eq!(none.remap_qubits(&mapping).unwrap().involved_qubits(), InvolvedQubits::Nothing);
}

#[test]
fn conditional_involves_and_remaps_its_circuit() {
    let mut circuit = Circuit::new();
    circuit.add_operation(Operation::PragmaActiveReset(PragmaActiveReset::new(0)));
    circuit.add_operation(Operation::PragmaDamping(PragmaDamping::new(
        2,
        CalculatorFloat::from(0.005),
        CalculatorFloat::from(0.02),
    )));
    let pragma = PragmaConditional::new("ro".to_string(), 1, circuit);
    assert_eq!(pragma.involved_qubits(), InvolvedQubits::ExplicitSet(set_of(&[0, 2])));
    let mapping = mapping_of(&[(0, 3), (2, 4)]);
    let remapped = pragma.remap_qubits(&mapping).unwrap();
    assert_eq!(remapped.involved_qubits(), InvolvedQubits::ExplicitSet(set_of(&[3, 4])));
    assert_eq!(remapped.circuit().involved_qubits(), InvolvedQubits::ExplicitSet(set_of(&[3, 4])));
    assert_eq!(remapped.condition_register(), &"ro".to_string());
    assert_eq!(remapped.condition_index(), &1);
    assert_eq!(
        remapped.circuit().get(0),
        Some(&Operation::PragmaActiveReset(PragmaActiveReset::new(3)))
    );
    assert_eq!(pragma.involved_qubits(), InvolvedQubits::ExplicitSet(set_of(&[0, 2])));
}

#[test]
fn conditional_hands_on_the_error_of_its_circuit() {
    let mut inner = Circuit::new();
    inner.add_operation(Operation::PragmaActiveReset(PragmaActiveReset::new(1)));
    inner.add_operation(Operation::PragmaActiveReset(PragmaActiveReset::new(9)));
    let mut outer = Circuit::new();
    outer.add_operation(Operation::PragmaActiveReset(PragmaActiveReset::new(0)));
    outer.add_operation(Operation::PragmaConditional(PragmaConditional::new("c".to_string(), 0, inner)));
    outer.add_operation(Operation::PragmaActiveReset(PragmaActiveReset::new(8)));
    let pragma = PragmaConditional::new("ro".to_string(), 0, outer);
    let mapping = mapping_of(&[(0, 1), (1, 0)]);
    assert_eq!(
        pragma.remap_qubits(&mapping),
        Err(RoqoqoError::QubitMappingError { qubit: 9 })
    );
}

#[test]
fn circuit_involvement_follows_its_operations() {
    let mut circuit = Circuit::new();
    assert!(circuit.is_empty());
    assert_eq!(circuit.involved_qubits(), InvolvedQubits::Nothing);
    circuit.add_operation(Operation::PragmaGlobalPhase(PragmaGlobalPhase::new(CalculatorFloat::from(1))));
    circuit.add_operation(Operation::PragmaSleep(PragmaSleep::new(vec![], CalculatorFloat::from(1))));
    assert_eq!(circuit.involved_qubits(), InvolvedQubits::Nothing);
    circuit.add_operation(Operation::PragmaSleep(PragmaSleep::new(vec![3, 1], CalculatorFloat::from(1))));
    circuit.add_operation(Operation::PragmaActiveReset(PragmaActiveReset::new(1)));
    assert_eq!(circuit.involved_qubits(), InvolvedQubits::ExplicitSet(set_of(&[1, 3])));
    assert_eq!(circuit.involved_qubits(), circuit.involved_qubits());
    circuit.add_operation(Operation::PragmaRepeatGate(PragmaRepeatGate::new(2)));
    assert_eq!(circuit.involved_qubits(), InvolvedQubits::All);
    assert_eq!(circuit.len(), 5);
    assert_eq!(circuit.get(5), None);
    assert_eq!(circuit.clone(), circuit);
}

#[test]
fn empty_list_involves_the_empty_set() {
    let pragma = PragmaSleep::new(vec![], CalculatorFloat::from(1));
    assert_eq!(pragma.involved_qubits(), InvolvedQubits::ExplicitSet(HashSet::new()));
    assert_eq!(pragma.involved_qubits().clone(), InvolvedQubits::ExplicitSet(HashSet::new()));
    let other = PragmaSleep::new(vec![2, 2, 5], CalculatorFloat::from(1));
    assert_eq!(other.involved_qubits().clone(), InvolvedQubits::ExplicitSet(set_of(&[2, 5])));
}
