use qoqo_calculator::{Calculator, CalculatorError, CalculatorFloat};
use roqoqo::operations::{
    Operation, PragmaBoostNoise, PragmaConditional, PragmaDamping, PragmaDephasing,
    PragmaDepolarising, PragmaGeneralNoise, PragmaGlobalPhase, PragmaRandomNoise, PragmaSleep,
    Superoperator,
};
use roqoqo::operations::ComplexMatrix;
use roqoqo::{Circuit, RoqoqoError};

fn entries(matrix: &Superoperator) -> Vec<Vec<f64>> {
    let mut rows = Vec::new();
    for row in 0..4 {
        let mut values = Vec::new();
        for column in 0..4 {
            match matrix.entry(row, column) {
                Some(CalculatorFloat::Float(x)) => values.push(*x),
                other => panic!("entry {} {} is {:?}", row, column, other),
            }
        }
        rows.push(values);
    }
    assert_eq!(matrix.entry(4, 0), None);
    assert_eq!(matrix.entry(0, 4), None);
    rows
}

fn assert_close(actual: &Vec<Vec<f64>>, expected: [[f64; 4]; 4]) {
    for row in 0..4 {
        for column in 0..4 {
            assert!(
                (actual[row][column] - expected[row][column]).abs() < 1e-9,
                "entry {} {}: {} is not {}",
                row,
                column,
                actual[row][column],
                expected[row][column]
            );
        }
    }
}

const IDENTITY: [[f64; 4]; 4] = [
    [1.0, 0.0, 0.0, 0.0],
    [0.0, 1.0, 0.0, 0.0],
    [0.0, 0.0, 1.0, 0.0],
    [0.0, 0.0, 0.0, 1.0],
];

#[test]
fn damping_at_rate_ln_two() {
    let pragma = PragmaDamping::new(0, CalculatorFloat::from(1.0), CalculatorFloat::from(2.0f64.ln()));
    let matrix = entries(&pragma.superoperator().unwrap());
    let root = 0.5f64.sqrt();
    assert_close(
        &matrix,
        [
            [1.0, 0.0, 0.0, 0.5],
            [0.0, root, 0.0, 0.0],
            [0.0, 0.0, root, 0.0],
            [0.0, 0.0, 0.0, 0.5],
        ],
    );
}

#[test]
fn damping_matches_the_formula_exactly() {
    let gate_time = 0.005;
    let rate = 0.02;
    let pragma = PragmaDamping::new(0, CalculatorFloat::from(gate_time), CalculatorFloat::from(rate));
    let matrix = entries(&pragma.superoperator().unwrap());
    let pre_exp: f64 = -1.0 * gate_time * rate;
    let prob: f64 = 1.0 - pre_exp.exp();
    let sqrt: f64 = (1.0 - prob).sqrt();
    assert_eq!(
        matrix,
        vec![
            vec![1.0, 0.0, 0.0, prob],
            vec![0.0, sqrt, 0.0, 0.0],
            vec![0.0, 0.0, sqrt, 0.0],
            vec![0.0, 0.0, 0.0, 1.0 - prob],
        ]
    );
}

#[test]
fn depolarising_matches_the_formula_exactly() {
    let gate_time = 0.005;
    let rate = 0.02;
    let pragma =
        PragmaDepolarising::new(0, CalculatorFloat::from(gate_time), CalculatorFloat::from(rate));
    let matrix = entries(&pragma.superoperator().unwrap());
    let pre_exp: f64 = -1.0 * gate_time * rate;
    let prob: f64 = (3.0 / 4.0) * (1.0 - pre_exp.exp());
    let proba1: f64 = 1.0 - (2.0 / 3.0) * prob;
    let proba2: f64 = 1.0 - (4.0 / 3.0) * prob;
    let proba3: f64 = (2.0 / 3.0) * prob;
    assert_eq!(
        matrix,
        vec![
            vec![proba1, 0.0, 0.0, proba3],
            vec![0.0, proba2, 0.0, 0.0],
            vec![0.0, 0.0, proba2, 0.0],
            vec![proba3, 0.0, 0.0, proba1],
        ]
    );
}

#[test]
fn dephasing_matches_the_formula_exactly() {
    let gate_time = 0.005;
    let rate = 0.02;
    let pragma = PragmaDephasing::new(0, CalculatorFloat::from(gate_time), CalculatorFloat::from(rate));
    let matrix = entries(&pragma.superoperator().unwrap());
    let pre_exp: f64 = -2.0 * gate_time * rate;
    let prob: f64 = (1.0 / 2.0) * (1.0 - pre_exp.exp());
    let expected = vec![
        vec![1.0, 0.0, 0.0, 0.0],
        vec![0.0, 1.0 - 2.0 * prob, 0.0, 0.0],
        vec![0.0, 0.0, 1.0 - 2.0 * prob, 0.0],
        vec![0.0, 0.0, 0.0, 1.0],
    ];
    assert_eq!(matrix, expected);
    let random = PragmaRandomNoise::new(
        0,
        CalculatorFloat::from(gate_time),
        CalculatorFloat::from(0.7),
        CalculatorFloat::from(rate),
    );
    assert_eq!(entries(&random.superoperator().unwrap()), expected);
}

#[test]
fn superoperators_are_the_identity_at_rate_zero() {
    for gate_time in [0.0, 0.005, 1.0, 250.0] {
        let time = CalculatorFloat::from(gate_time);
        let zero = CalculatorFloat::from(0.0);
        let damping = PragmaDamping::new(0, time.clone(), zero.clone());
        assert_close(&entries(&damping.superoperator().unwrap()), IDENTITY);
        let depolarising = PragmaDepolarising::new(0, time.clone(), zero.clone());
        assert_close(&entries(&depolarising.superoperator().unwrap()), IDENTITY);
        let dephasing = PragmaDephasing::new(0, time.clone(), zero.clone());
        assert_close(&entries(&dephasing.superoperator().unwrap()), IDENTITY);
        let random = PragmaRandomNoise::new(0, time.clone(), CalculatorFloat::from(0.3), zero.clone());
        assert_close(&entries(&random.superoperator().unwrap()), IDENTITY);
    }
}

#[test]
fn superoperator_needs_numbers() {
    let symbolic_time = PragmaDamping::new(0, CalculatorFloat::from("t"), CalculatorFloat::from("r"));
    assert_eq!(
        symbolic_time.superoperator(),
        Err(RoqoqoError::CalculatorError(CalculatorError::FloatSymbolicNotConvertable {
            val: "t".to_string()
        }))
    );
    let symbolic_rate = PragmaDepolarising::new(0, CalculatorFloat::from(1.0), CalculatorFloat::from("r"));
    assert_eq!(
        symbolic_rate.superoperator(),
        Err(RoqoqoError::CalculatorError(CalculatorError::FloatSymbolicNotConvertable {
            val: "r".to_string()
        }))
    );
    let dephasing = PragmaDephasing::new(0, CalculatorFloat::from("t"), CalculatorFloat::from(1.0));
    assert!(dephasing.superoperator().is_err());
    let random = PragmaRandomNoise::new(
        0,
        CalculatorFloat::from(1.0),
        CalculatorFloat::from("dep"),
        CalculatorFloat::from(0.5),
    );
    assert!(random.superoperator().is_ok());
    let random = PragmaRandomNoise::new(
        0,
        CalculatorFloat::from(1.0),
        CalculatorFloat::from(0.5),
        CalculatorFloat::from("deph"),
    );
    assert_eq!(
        random.superoperator(),
        Err(RoqoqoError::CalculatorError(CalculatorError::FloatSymbolicNotConvertable {
            val: "deph".to_string()
        }))
    );
}

#[test]
fn probabilities_of_numbers() {
    let gate_time = 0.005;
    let rate = 0.02;
    let time = CalculatorFloat::from(gate_time);
    let damping = PragmaDamping::new(0, time.clone(), CalculatorFloat::from(rate));
    assert_eq!(
        damping.probability(),
        CalculatorFloat::from(((gate_time * rate * -2.0f64).exp() * -1.0 + 1.0) * 0.5)
    );
    let depolarising = PragmaDepolarising::new(0, time.clone(), CalculatorFloat::from(rate));
    assert_eq!(
        depolarising.probability(),
        CalculatorFloat::from(((gate_time * rate * -1.0f64).exp() * -1.0 + 1.0) * 0.75)
    );
    let dephasing = PragmaDephasing::new(0, time.clone(), CalculatorFloat::from(rate));
    assert_eq!(
        dephasing.probability(),
        CalculatorFloat::from(((gate_time * rate * -2.0f64).exp() * -1.0 + 1.0) * 0.5)
    );
    let random = PragmaRandomNoise::new(0, time, CalculatorFloat::from(0.4), CalculatorFloat::from(rate));
    assert_eq!(
        random.probability(),
        CalculatorFloat::from((0.4 / 4.0 + 0.4 / 4.0 + (0.4 / 4.0 + rate)) * gate_time)
    );
}

#[test]
fn probabilities_stay_symbolic() {
    let damping = PragmaDamping::new(0, CalculatorFloat::from("t"), CalculatorFloat::from(0.02));
    let expected = ((CalculatorFloat::from("t") * CalculatorFloat::from(0.02) * (-2.0)).exp()
        * (-1.0)
        + 1.0)
        * 0.5;
    assert_eq!(damping.probability(), expected);
    assert_eq!(
        damping.probability(),
        CalculatorFloat::Str("(((exp(((t * 2e-2) * -2e0)) * -1e0) + 1e0) * 5e-1)".to_string())
    );
    let depolarising = PragmaDepolarising::new(0, CalculatorFloat::from("t"), CalculatorFloat::from("r"));
    assert_eq!(
        depolarising.probability(),
        CalculatorFloat::Str("(((exp(((t * r) * -1e0)) * -1e0) + 1e0) * 7.5e-1)".to_string())
    );
    let random = PragmaRandomNoise::new(
        0,
        CalculatorFloat::from("t"),
        CalculatorFloat::from("a"),
        CalculatorFloat::from("b"),
    );
    assert_eq!(
        random.probability(),
        CalculatorFloat::Str(
            "((((a / 4e0) + (a / 4e0)) + ((a / 4e0) + b)) * t)".to_string()
        )
    );
}

#[test]
fn power_multiplies_only_the_duration() {
    let damping = PragmaDamping::new(3, CalculatorFloat::from(0.005), CalculatorFloat::from(0.02));
    let powered = damping.powercf(CalculatorFloat::from(1.5));
    assert_eq!(
        powered,
        PragmaDamping::new(3, CalculatorFloat::from(1.5 * 0.005), CalculatorFloat::from(0.02))
    );
    assert_eq!(damping.gate_time(), &CalculatorFloat::from(0.005));
    let symbolic = PragmaDephasing::new(1, CalculatorFloat::from("t"), CalculatorFloat::from("r"));
    assert_eq!(
        symbolic.powercf(CalculatorFloat::from("k")),
        PragmaDephasing::new(1, CalculatorFloat::Str("(k * t)".to_string()), CalculatorFloat::from("r"))
    );
    let depolarising = PragmaDepolarising::new(1, CalculatorFloat::from(2.0), CalculatorFloat::from("r"));
    assert_eq!(depolarising.powercf(CalculatorFloat::from(3.0)).gate_time(), &CalculatorFloat::from(6.0));
    let random = PragmaRandomNoise::new(
        1,
        CalculatorFloat::from(2.0),
        CalculatorFloat::from(0.1),
        CalculatorFloat::from(0.2),
    );
    let powered = random.powercf(CalculatorFloat::from(0.25));
    assert_eq!(powered.gate_time(), &CalculatorFloat::from(0.5));
    assert_eq!(powered.depolarising_rate(), &CalculatorFloat::from(0.1));
    assert_eq!(powered.dephasing_rate(), &CalculatorFloat::from(0.2));
    assert_eq!(powered.qubit(), &1);
}

#[test]
fn power_and_its_inverse_restore_the_duration() {
    let damping = PragmaDamping::new(0, CalculatorFloat::from(0.375), CalculatorFloat::from(0.02));
    let back = damping.powercf(CalculatorFloat::from(4.0)).powercf(CalculatorFloat::from(0.25));
    assert_eq!(back.gate_time(), damping.gate_time());
    let symbolic = PragmaDamping::new(0, CalculatorFloat::from("t"), CalculatorFloat::from(0.02));
    let back = symbolic.powercf(CalculatorFloat::from(4.0)).powercf(CalculatorFloat::from(0.25));
    let mut calculator = Calculator::new();
    calculator.set_variable("t", 0.375);
    assert_eq!(
        calculator.parse_get(back.gate_time().clone()),
        calculator.parse_get(symbolic.gate_time().clone())
    );
}

#[test]
fn substitution_resolves_parameters() {
    let mut calculator = Calculator::new();
    calculator.set_variable("t", 0.5);
    calculator.set_variable("r", 2.0);
    let damping = PragmaDamping::new(1, CalculatorFloat::from("2*t"), CalculatorFloat::from("r+1"));
    assert!(damping.is_parametrized());
    let substituted = damping.substitute_parameters(&calculator).unwrap();
    assert_eq!(
        substituted,
        PragmaDamping::new(1, CalculatorFloat::from(1.0), CalculatorFloat::from(3.0))
    );
    assert!(!substituted.is_parametrized());
    assert_eq!(damping.gate_time(), &CalculatorFloat::from("2*t"));
    let numbers = PragmaSleep::new(vec![0, 1], CalculatorFloat::from(0.25));
    assert!(!numbers.is_parametrized());
    assert_eq!(numbers.substitute_parameters(&Calculator::new()), Ok(numbers.clone()));
    let random = PragmaRandomNoise::new(
        0,
        CalculatorFloat::from("t"),
        CalculatorFloat::from(0.1),
        CalculatorFloat::from("r * t"),
    );
    assert_eq!(
        random.substitute_parameters(&calculator),
        Ok(PragmaRandomNoise::new(
            0,
            CalculatorFloat::from(0.5),
            CalculatorFloat::from(0.1),
            CalculatorFloat::from(1.0)
        ))
    );
}

#[test]
fn substitution_hands_on_the_error_of_the_evaluator() {
    let calculator = Calculator::new();
    let phase = PragmaGlobalPhase::new(CalculatorFloat::from("phi"));
    assert_eq!(
        phase.substitute_parameters(&calculator),
        Err(RoqoqoError::CalculatorError(CalculatorError::VariableNotSet {
            name: "phi".to_string()
        }))
    );
    let boost = PragmaBoostNoise::new(CalculatorFloat::from("1/0"));
    assert_eq!(
        boost.substitute_parameters(&calculator),
        Err(RoqoqoError::CalculatorError(CalculatorError::DivisionByZero))
    );
    let damping = PragmaDamping::new(0, CalculatorFloat::from(1.0), CalculatorFloat::from("r"));
    assert_eq!(
        damping.substitute_parameters(&calculator),
        Err(RoqoqoError::CalculatorError(CalculatorError::VariableNotSet {
            name: "r".to_string()
        }))
    );
}

#[test]
fn substitution_refuses_what_the_evaluator_cannot_read() {
    let calculator = Calculator::new();
    let empty = PragmaGlobalPhase::new(CalculatorFloat::Str(String::new()));
    assert_eq!(
        empty.substitute_parameters(&calculator),
        Err(RoqoqoError::ExpressionNotSupported)
    );
    let euro = PragmaBoostNoise::new(CalculatorFloat::Str("2 \u{20ac}".to_string()));
    assert_eq!(
        euro.substitute_parameters(&calculator),
        Err(RoqoqoError::ExpressionNotSupported)
    );
    assert_eq!(
        RoqoqoError::ExpressionNotSupported.message(),
        "expression is empty or not ASCII".to_string()
    );
    assert_eq!(
        RoqoqoError::QubitMappingError { qubit: 1 }.message(),
        "qubit not found in the mapping".to_string()
    );
    assert_eq!(
        RoqoqoError::CalculatorError(CalculatorError::DivisionByZero).message(),
        "error of the symbolic evaluator".to_string()
    );
}

#[test]
fn substitution_runs_through_circuits() {
    let mut calculator = Calculator::new();
    calculator.set_variable("t", 0.5);
    let mut circuit = Circuit::new();
    circuit.add_operation(Operation::PragmaSleep(PragmaSleep::new(vec![0], CalculatorFloat::from("t"))));
    circuit.add_operation(Operation::PragmaGlobalPhase(PragmaGlobalPhase::new(CalculatorFloat::from(0.1))));
    let conditional = PragmaConditional::new("ro".to_string(), 0, circuit);
    assert!(conditional.is_parametrized());
    let substituted = conditional.substitute_parameters(&calculator).unwrap();
    assert!(!substituted.is_parametrized());
    assert_eq!(
        substituted.circuit().get(0),
        Some(&Operation::PragmaSleep(PragmaSleep::new(vec![0], CalculatorFloat::from(0.5))))
    );
    assert_eq!(
        conditional.substitute_parameters(&Calculator::new()),
        Err(RoqoqoError::CalculatorError(CalculatorError::VariableNotSet {
            name: "t".to_string()
        }))
    );
}

#[test]
fn general_noise_keeps_its_operators() {
    let operators = ComplexMatrix {
        array: ndarray::Array2::from_elem((3, 3), num_complex::Complex64::new(1.0, -0.5)),
    };
    let mut calculator = Calculator::new();
    calculator.set_variable("t", 0.5);
    let pragma = PragmaGeneralNoise::new(
        0,
        CalculatorFloat::from("t"),
        CalculatorFloat::from(0.02),
        operators.clone(),
    );
    let substituted = pragma.substitute_parameters(&calculator).unwrap();
    assert_eq!(substituted.operators(), &operators);
    assert_eq!(substituted.gate_time(), &CalculatorFloat::from(0.5));
    assert_eq!(pragma.clone(), pragma);
}
