use qoqo_calculator::{Calculator, CalculatorError, CalculatorFloat};
use roqoqo::calculator::{resolve, resolved};
use roqoqo::channel::{
    damping_channel, decay_factor, dephasing_channel, depolarising_channel,
    exponential_probability, linear_probability, probability_from,
};
use roqoqo::involved::set_of as qubit_set;
use roqoqo::mapping::{copy_list, remap_dictionary, remap_list, remap_qubit};
use roqoqo::RoqoqoError;
use std::collections::{HashMap, HashSet};

fn number(value: f64) -> CalculatorFloat {
    CalculatorFloat::Float(value)
}

fn row(values: [f64; 4]) -> Vec<CalculatorFloat> {
    values.iter().map(|value| number(*value)).collect()
}

#[test]
fn damping_channel_of_a_decay_factor() {
    let matrix = damping_channel(&number(0.25));
    assert_eq!(
        matrix.rows,
        vec![
            row([1.0, 0.0, 0.0, 0.75]),
            row([0.0, 0.5, 0.0, 0.0]),
            row([0.0, 0.0, 0.5, 0.0]),
            row([0.0, 0.0, 0.0, 0.25]),
        ]
    );
}

#[test]
fn depolarising_channel_of_a_decay_factor() {
    let matrix = depolarising_channel(&number(1.0));
    assert_eq!(
        matrix.rows,
        vec![
            row([1.0, 0.0, 0.0, 0.0]),
            row([0.0, 1.0, 0.0, 0.0]),
            row([0.0, 0.0, 1.0, 0.0]),
            row([0.0, 0.0, 0.0, 1.0]),
        ]
    );
    let matrix = depolarising_channel(&number(0.0));
    let p = 0.75;
    let a = 1.0 - (2.0 / 3.0) * p;
    let b = 1.0 - (4.0 / 3.0) * p;
    let c = (2.0 / 3.0) * p;
    assert_eq!(
        matrix.rows,
        vec![
            row([a, 0.0, 0.0, c]),
            row([0.0, b, 0.0, 0.0]),
            row([0.0, 0.0, b, 0.0]),
            row([c, 0.0, 0.0, a]),
        ]
    );
}

#[test]
fn dephasing_channel_of_a_decay_factor() {
    let matrix = dephasing_channel(&number(0.5));
    assert_eq!(
        matrix.rows,
        vec![
            row([1.0, 0.0, 0.0, 0.0]),
            row([0.0, 0.5, 0.0, 0.0]),
            row([0.0, 0.0, 0.5, 0.0]),
            row([0.0, 0.0, 0.0, 1.0]),
        ]
    );
}

#[test]
fn channels_of_a_symbolic_decay_factor_are_symbolic() {
    let matrix = damping_channel(&CalculatorFloat::from("d"));
    assert_eq!(matrix.entry(0, 3), Some(&CalculatorFloat::Str("(1e0 - d)".to_string())));
    assert_eq!(
        matrix.entry(1, 1),
        Some(&CalculatorFloat::Str("sqrt((1e0 - (1e0 - d)))".to_string()))
    );
    assert_eq!(matrix.entry(0, 0), Some(&number(1.0)));
}

#[test]
fn decay_factor_is_the_exponential() {
    assert_eq!(decay_factor(-1, &number(2.0), &number(0.0)), Ok(number(1.0)));
    let two = -2.0f64 * 0.5 * 3.0;
    assert_eq!(decay_factor(-2, &number(0.5), &number(3.0)), Ok(number(two.exp())));
    assert_eq!(
        decay_factor(-1, &CalculatorFloat::from("t"), &number(3.0)),
        Err(RoqoqoError::CalculatorError(CalculatorError::FloatSymbolicNotConvertable {
            val: "t".to_string()
        }))
    );
}

#[test]
fn probability_of_a_decay_factor() {
    assert_eq!(probability_from(&number(0.5), 1, 2), number(0.25));
    assert_eq!(probability_from(&number(0.0), 3, 4), number(0.75));
    assert_eq!(probability_from(&number(1.0), 3, 4), number(0.0));
    assert_eq!(
        probability_from(&CalculatorFloat::from("d"), 1, 2),
        CalculatorFloat::Str("(((d * -1e0) + 1e0) * 5e-1)".to_string())
    );
    assert_eq!(exponential_probability(&number(3.0), &number(0.0), -2, 1, 2), number(0.0));
    assert_eq!(
        linear_probability(&number(2.0), &number(4.0), &number(0.5)),
        number((1.0 + 1.0 + 1.5) * 2.0)
    );
}

#[test]
fn resolving_a_parameter() {
    let mut calculator = Calculator::new();
    calculator.set_variable("a", 1.5);
    assert_eq!(resolve(&calculator, &number(0.25)), Ok(number(0.25)));
    assert_eq!(resolve(&calculator, &CalculatorFloat::from("2*a")), Ok(number(3.0)));
    assert_eq!(
        resolve(&calculator, &CalculatorFloat::from("b")),
        Err(RoqoqoError::CalculatorError(CalculatorError::VariableNotSet { name: "b".to_string() }))
    );
    assert_eq!(
        resolve(&calculator, &CalculatorFloat::Str(String::new())),
        Err(RoqoqoError::ExpressionNotSupported)
    );
    assert_eq!(
        resolve(&calculator, &CalculatorFloat::Str("\u{3b8}".to_string())),
        Err(RoqoqoError::ExpressionNotSupported)
    );
    assert_eq!(resolve(&calculator, &CalculatorFloat::Str(" ".to_string())).is_err(), true);
    assert_eq!(resolved(Ok(number(1.0))), Ok(number(1.0)));
    assert_eq!(
        resolved(Err(CalculatorError::DivisionByZero)),
        Err(RoqoqoError::CalculatorError(CalculatorError::DivisionByZero))
    );
}

#[test]
fn remapping_qubits_lists_and_dictionaries() {
    let mut mapping: HashMap<usize, usize> = HashMap::new();
    mapping.insert(0, 2);
    mapping.insert(1, 3);
    assert_eq!(remap_qubit(0, &mapping), Ok(2));
    assert_eq!(remap_qubit(2, &mapping), Err(RoqoqoError::QubitMappingError { qubit: 2 }));
    assert_eq!(remap_list(&vec![1, 0, 1], &mapping), Ok(vec![3, 2, 3]));
    assert_eq!(remap_list(&vec![], &mapping), Ok(vec![]));
    assert_eq!(
        remap_list(&vec![1, 5, 4], &mapping),
        Err(RoqoqoError::QubitMappingError { qubit: 5 })
    );
    let mut dictionary: HashMap<usize, usize> = HashMap::new();
    dictionary.insert(0, 0);
    dictionary.insert(1, 0);
    let mut expected: HashMap<usize, usize> = HashMap::new();
    expected.insert(2, 2);
    expected.insert(3, 2);
    assert_eq!(remap_dictionary(&dictionary, &mapping), Ok(expected));
    assert_eq!(remap_dictionary(&HashMap::new(), &mapping), Ok(HashMap::new()));
    assert_eq!(copy_list(&vec![4, 4, 1]), vec![4, 4, 1]);
    let set: HashSet<usize> = [1, 4].into_iter().collect();
    assert_eq!(qubit_set(&vec![4, 4, 1]), set);
}

#[test]
fn dictionary_with_two_keys_on_one_image_keeps_one_entry() {
    let mut mapping: HashMap<usize, usize> = HashMap::new();
    mapping.insert(0, 7);
    mapping.insert(1, 7);
    mapping.insert(2, 8);
    mapping.insert(3, 9);
    let mut dictionary: HashMap<usize, usize> = HashMap::new();
    dictionary.insert(0, 2);
    dictionary.insert(1, 3);
    let remapped = remap_dictionary(&dictionary, &mapping).unwrap();
    assert_eq!(remapped.len(), 1);
    let value = remapped[&7];
    assert!(value == 8 || value == 9);
}
