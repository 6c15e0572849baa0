//! Tests of the public interface of the multi-qubit gate operations.

use std::collections::{HashMap, HashSet};

use num_complex::Complex64;
use qoqo_calculator::Calculator;
use qoqo_calculator::CalculatorFloat;
use qubit_gates::circuit::{Circuit, Operation};
use qubit_gates::gates::multi_cnot::MultiCNOT;
use qubit_gates::gates::multi_qubit_ms::MultiQubitMS;
use qubit_gates::gates::multi_qubit_zz::MultiQubitZZ;
use qubit_gates::matrix::Matrix;
use qubit_gates::operate::{
    InvolveQubits, Operate, OperateGate, OperateMultiQubit, OperateMultiQubitGate, Rotate,
    Substitute,
};

fn hadamard(qubit: usize) -> Operation {
    Operation::Hadamard { qubit }
}

fn cnot(control: usize, target: usize) -> Operation {
    Operation::CNOT { control, target }
}

fn rotate_z(qubit: usize, theta: CalculatorFloat) -> Operation {
    Operation::RotateZ { qubit, theta }
}

fn t_gate(qubit: usize) -> Operation {
    Operation::TGate { qubit }
}

fn phase_shift_state_1(qubit: usize, theta: CalculatorFloat) -> Operation {
    Operation::PhaseShiftState1 { qubit, theta }
}

fn number(x: &CalculatorFloat) -> f64 {
    match x {
        CalculatorFloat::Float(value) => *value,
        CalculatorFloat::Str(text) => panic!("symbolic entry {}", text),
    }
}

fn entries(matrix: &Matrix) -> Vec<Vec<Complex64>> {
    matrix
        .rows
        .iter()
        .map(|row| row.iter().map(|z| Complex64::new(number(&z.re), number(&z.im))).collect())
        .collect()
}

fn assert_close(unit: &Matrix, expected: &[Vec<Complex64>]) {
    let unit = entries(unit);
    assert_eq!(unit.len(), expected.len());
    for (row, expected_row) in unit.iter().zip(expected.iter()) {
        assert_eq!(row.len(), expected_row.len());
        for (x, y) in row.iter().zip(expected_row.iter()) {
            assert!((x - y).norm() < f64::EPSILON);
        }
    }
}

/// Test circuit function of MultiQubitMolmerSorensen
#[test]
fn test_circuit_multi_ms_two_qubit() {
    let gate = MultiQubitMS::new(vec![0, 1], CalculatorFloat::FRAC_PI_2);
    let c = gate.circuit();
    let mut comparison_circuit = Circuit::new();
    comparison_circuit.add_operation(hadamard(0));
    comparison_circuit.add_operation(hadamard(1));
    comparison_circuit.add_operation(cnot(0, 1));
    comparison_circuit.add_operation(rotate_z(1, CalculatorFloat::FRAC_PI_4));
    comparison_circuit.add_operation(cnot(0, 1));
    comparison_circuit.add_operation(hadamard(0));
    comparison_circuit.add_operation(hadamard(1));
    assert!(c == comparison_circuit);
}

#[test]
fn test_circuit_multi_ms_three_qubit() {
    let gate = MultiQubitMS::new(vec![0, 1, 2], CalculatorFloat::FRAC_PI_2);
    let c = gate.circuit();
    let mut comparison_circuit = Circuit::new();
    comparison_circuit.add_operation(hadamard(0));
    comparison_circuit.add_operation(hadamard(1));
    comparison_circuit.add_operation(hadamard(2));
    comparison_circuit.add_operation(cnot(0, 1));
    comparison_circuit.add_operation(cnot(1, 2));
    comparison_circuit.add_operation(rotate_z(2, CalculatorFloat::FRAC_PI_4));
    comparison_circuit.add_operation(cnot(1, 2));
    comparison_circuit.add_operation(cnot(0, 1));
    comparison_circuit.add_operation(hadamard(0));
    comparison_circuit.add_operation(hadamard(1));
    comparison_circuit.add_operation(hadamard(2));
    assert!(c == comparison_circuit);
}

#[test]
fn test_matrix_output_two_qubit() {
    let gate = MultiQubitMS::new(vec![0, 1], CalculatorFloat::FRAC_PI_2);
    let f: f64 = 1.0 / ((2.0_f64).sqrt());
    let o = Complex64::new(0.0, 0.0);
    let d = Complex64::new(f, 0.0);
    let a = Complex64::new(0.0, (-1.0) * f);
    let test_array = vec![
        vec![d, o, o, a],
        vec![o, d, a, o],
        vec![o, a, d, o],
        vec![a, o, o, d],
    ];
    let unit = gate.unitary_matrix().unwrap();
    assert_close(&unit, &test_array);
}

#[test]
fn test_matrix_output_three_three_qubit() {
    let gate = MultiQubitMS::new(vec![0, 1, 2], CalculatorFloat::FRAC_PI_2);
    let f: f64 = 1.0 / ((2.0_f64).sqrt());
    let o = Complex64::new(0.0, 0.0);
    let d = Complex64::new(f, 0.0);
    let a = Complex64::new(0.0, (-1.0) * f);
    let test_array = vec![
        vec![d, o, o, o, o, o, o, a],
        vec![o, d, o, o, o, o, a, o],
        vec![o, o, d, o, o, a, o, o],
        vec![o, o, o, d, a, o, o, o],
        vec![o, o, o, a, d, o, o, o],
        vec![o, o, a, o, o, d, o, o],
        vec![o, a, o, o, o, o, d, o],
        vec![a, o, o, o, o, o, o, d],
    ];
    let unit = gate.unitary_matrix().unwrap();
    assert_close(&unit, &test_array);
}

#[test]
fn test_clone_partial_eq() {
    let qubits = vec![0, 1, 2];

    let gate = MultiQubitMS::new(qubits.clone(), CalculatorFloat::FRAC_PI_2);
    assert_eq!(gate.hqslang(), "MultiQubitMS");
    assert_eq!(
        gate.tags(),
        &[
            "Operation",
            "GateOperation",
            "MultiQubitGateOperation",
            "MultiQubitMS",
        ]
    );
    assert!(!gate.is_parametrized());
    let gate1 = MultiQubitMS::new(qubits, "theta".into());
    assert!(gate1.is_parametrized());
    let helper = gate != gate1;
    assert!(helper);
    let gate2 = gate1.clone();
    assert_eq!(gate2, gate1);
}

#[test]
fn test_operate() {
    let qubits = vec![0, 1, 2];
    let gate = MultiQubitMS::new(qubits.clone(), CalculatorFloat::FRAC_PI_2);
    assert_eq!(gate.hqslang(), "MultiQubitMS");
    assert_eq!(
        gate.tags(),
        &[
            "Operation",
            "GateOperation",
            "MultiQubitGateOperation",
            "MultiQubitMS",
        ]
    );
    assert_eq!(gate.qubits(), &vec![0, 1, 2]);
    assert!(!gate.is_parametrized());
    let gate1 = MultiQubitMS::new(qubits, "theta".into());
    assert!(gate1.is_parametrized());
}

#[test]
fn test_substitute() {
    let qubits = vec![0, 1, 2];
    let gate1 = MultiQubitMS::new(qubits.clone(), "theta".into());
    let gate = MultiQubitMS::new(qubits, CalculatorFloat::FRAC_PI_2);
    let mut calc = Calculator::new();
    calc.set_variable("theta", std::f64::consts::FRAC_PI_2);
    let gate_substituted = Substitute::substitute_parameters(&gate1, &mut calc);
    let subs = gate_substituted.unwrap();
    assert_eq!(gate, subs);
    let mut mapping: HashMap<usize, usize> = std::collections::HashMap::new();
    let _ = mapping.insert(0, 1);
    let _ = mapping.insert(1, 2);
    let _ = mapping.insert(2, 0);
    let remapped = gate1.remap_qubits(&mapping).unwrap();
    let qubits = remapped.qubits();
    assert_eq!(qubits, &vec![1, 2, 0]);
}

#[test]
fn test_substitute_error() {
    let qubits = vec![0, 1, 2];
    let gate1 = MultiQubitMS::new(qubits, "theta".into());
    let mut calc = Calculator::new();
    let gate_substituted = gate1.substitute_parameters(&mut calc);
    assert!(gate_substituted.is_err());
    let mut mapping: HashMap<usize, usize> = std::collections::HashMap::new();
    let _ = mapping.insert(1, 2);
    let _ = mapping.insert(2, 0);
    let remapped = gate1.remap_qubits(&mapping);
    assert!(remapped.is_err());
}

#[test]
fn test_format() {
    let qubits = vec![0, 1, 2];
    let gate = MultiQubitMS::new(qubits, "theta".into());
    let string = format!("{:?}", gate);
    assert!(string.contains("theta"));
    assert!(string.contains("MultiQubitMS"));
}

#[test]
fn test_involved_qubits() {
    let qubits = vec![0, 1, 2];
    let gate = MultiQubitMS::new(qubits, "theta".into());
    let involved_qubits = gate.involved_qubits();
    let mut comp_set: HashSet<usize> = HashSet::new();
    let _ = comp_set.insert(0);
    let _ = comp_set.insert(1);
    let _ = comp_set.insert(2);
    assert_eq!(involved_qubits, comp_set);
}

fn check_powercf_multi_qubit_ms(theta: CalculatorFloat, power: CalculatorFloat) {
    let qubits = vec![0, 1, 2];
    let gate = MultiQubitMS::new(qubits.clone(), theta);

    let power_gate = gate.powercf(power.clone());
    let test_theta = power * gate.theta().clone();
    let test_gate = MultiQubitMS::new(qubits, test_theta);
    assert_eq!(power_gate, test_gate);
    assert_eq!(power_gate.theta(), test_gate.theta());
}

/// Test powerfc function for MultiQubitMS with symbolic parameters
#[test]
fn test_rotatex_powercf_power_2() {
    check_powercf_multi_qubit_ms(CalculatorFloat::from("theta"), CalculatorFloat::from(2.0));
}

#[test]
fn test_rotatex_powercf_power_1_2() {
    check_powercf_multi_qubit_ms(CalculatorFloat::from("theta"), CalculatorFloat::from(1.0 / 2.0));
}

#[test]
fn test_rotatex_powercf_power_1() {
    check_powercf_multi_qubit_ms(CalculatorFloat::from("theta"), CalculatorFloat::from(1.0));
}

#[test]
fn test_rotatex_powercf_power_0() {
    check_powercf_multi_qubit_ms(CalculatorFloat::from("theta"), CalculatorFloat::from(0.0));
}

#[test]
fn test_rotatex_powercf_power_minus_2() {
    check_powercf_multi_qubit_ms(CalculatorFloat::from("theta"), CalculatorFloat::from(-2.0));
}

#[test]
fn test_rotatex_powercf_power_symbolic() {
    check_powercf_multi_qubit_ms(CalculatorFloat::from("theta"), CalculatorFloat::from("power"));
}

/// Test circuit function of MultiCNOT
#[test]
fn test_circuit_multi_cnot_two_qubit() {
    let gate = MultiCNOT::new(vec![0, 1]);
    let c = gate.circuit();
    let mut comparison_circuit = Circuit::new();
    comparison_circuit.add_operation(cnot(0, 1));
    assert!(c == comparison_circuit);
}

#[test]
fn test_circuit_multi_cnot_three_qubit() {
    let gate = MultiCNOT::new(vec![0, 1, 2]);
    let c = gate.circuit();
    let mut comparison_circuit = Circuit::new();
    comparison_circuit.add_operation(hadamard(2));
    comparison_circuit.add_operation(cnot(1, 2));
    comparison_circuit.add_operation(phase_shift_state_1(2, -CalculatorFloat::FRAC_PI_4));
    comparison_circuit.add_operation(cnot(0, 2));
    comparison_circuit.add_operation(t_gate(2));
    comparison_circuit.add_operation(cnot(1, 2));
    comparison_circuit.add_operation(phase_shift_state_1(2, -CalculatorFloat::FRAC_PI_4));
    comparison_circuit.add_operation(cnot(0, 2));
    comparison_circuit.add_operation(t_gate(1));
    comparison_circuit.add_operation(t_gate(2));
    comparison_circuit.add_operation(hadamard(2));
    comparison_circuit.add_operation(cnot(0, 1));
    comparison_circuit.add_operation(t_gate(0));
    comparison_circuit.add_operation(phase_shift_state_1(1, -CalculatorFloat::FRAC_PI_4));
    comparison_circuit.add_operation(cnot(0, 1));
    assert!(c == comparison_circuit);
}

fn apply(unit: &[Vec<Complex64>], v: &[Complex64]) -> Vec<Complex64> {
    unit.iter()
        .map(|row| row.iter().zip(v.iter()).map(|(a, b)| a * b).sum())
        .collect()
}

fn check_matrix_output_multi_cnot(num_qubits: usize) {
    let gate = MultiCNOT::new((0..num_qubits).collect());
    let unit = entries(&gate.unitary_matrix().unwrap());
    let n = 2_usize.pow(num_qubits as u32);
    assert_eq!(unit.len(), n);
    for i in 0..n - 2 {
        let mut v = vec![Complex64::new(0., 0.); n];
        v[i] = Complex64::new(1., 0.);
        let u = apply(&unit, &v);
        assert_eq!(v, u);
    }
    let mut v0 = vec![Complex64::new(0., 0.); n];
    let mut v1 = vec![Complex64::new(0., 0.); n];
    v0[n - 2] = Complex64::new(1., 0.);
    v1[n - 1] = Complex64::new(1., 0.);
    let u0 = apply(&unit, &v0);
    let u1 = apply(&unit, &v1);
    assert_eq!(u0, v1);
    assert_eq!(u1, v0);
}

#[test]
fn test_matrix_output_multi_cnot_two_qubit() {
    check_matrix_output_multi_cnot(2);
}

#[test]
fn test_matrix_output_multi_cnot_three_qubit() {
    check_matrix_output_multi_cnot(3);
}

#[test]
fn test_matrix_output_multi_cnot_four_qubit() {
    check_matrix_output_multi_cnot(4);
}

#[test]
fn test_clone_partial_eq_multi_cnot() {
    let qubits = vec![0, 1, 2];

    let gate = MultiCNOT::new(qubits);
    assert_eq!(gate.hqslang(), "MultiCNOT");
    assert_eq!(
        gate.tags(),
        &[
            "Operation",
            "GateOperation",
            "MultiQubitGateOperation",
            "MultiCNOT",
        ]
    );
    assert!(!gate.is_parametrized());
    let gate2 = gate.clone();
    assert_eq!(gate2, gate);
}

#[test]
fn test_substitute_multi_cnot() {
    let qubits = vec![0, 1, 2];
    let gate = MultiCNOT::new(qubits);
    let mut mapping: HashMap<usize, usize> = std::collections::HashMap::new();
    let _ = mapping.insert(0, 1);
    let _ = mapping.insert(1, 2);
    let _ = mapping.insert(2, 0);
    let remapped = gate.remap_qubits(&mapping).unwrap();
    let qubits = remapped.qubits();
    assert_eq!(qubits, &vec![1, 2, 0]);
}

#[test]
fn test_substitute_error_multi_cnot() {
    let qubits = vec![0, 1, 2];
    let gate = MultiCNOT::new(qubits);
    let mut mapping: HashMap<usize, usize> = std::collections::HashMap::new();
    let _ = mapping.insert(1, 2);
    let _ = mapping.insert(2, 0);
    let remapped = gate.remap_qubits(&mapping);
    assert!(remapped.is_err());
}

#[test]
fn test_format_multi_cnot() {
    let qubits = vec![0, 1, 2];
    let gate = MultiCNOT::new(qubits);
    let string = format!("{:?}", gate);
    assert!(string.contains("MultiCNOT"));
}

#[test]
fn test_involved_qubits_multi_cnot() {
    let qubits = vec![0, 1, 2];
    let gate = MultiCNOT::new(qubits);
    let involved_qubits = gate.involved_qubits();
    let mut comp_set: HashSet<usize> = HashSet::new();
    let _ = comp_set.insert(0);
    let _ = comp_set.insert(1);
    let _ = comp_set.insert(2);
    assert_eq!(involved_qubits, comp_set);
}

#[test]
fn test_circuit_multi_zz_two_qubit() {
    let gate = MultiQubitZZ::new(vec![0, 1], CalculatorFloat::FRAC_PI_2);
    let c = gate.circuit();
    let mut comparison_circuit = Circuit::new();

    comparison_circuit.add_operation(cnot(0, 1));
    comparison_circuit.add_operation(rotate_z(1, CalculatorFloat::FRAC_PI_4));
    comparison_circuit.add_operation(cnot(0, 1));

    assert!(c == comparison_circuit);
}

#[test]
fn test_circuit_multi_zz_three_qubit() {
    let gate = MultiQubitZZ::new(vec![0, 1, 2], CalculatorFloat::FRAC_PI_2);
    let c = gate.circuit();
    let mut comparison_circuit = Circuit::new();

    comparison_circuit.add_operation(cnot(0, 1));
    comparison_circuit.add_operation(cnot(1, 2));
    comparison_circuit.add_operation(rotate_z(2, CalculatorFloat::FRAC_PI_4));
    comparison_circuit.add_operation(cnot(1, 2));
    comparison_circuit.add_operation(cnot(0, 1));

    assert!(c == comparison_circuit);
}

#[test]
fn test_matrix_output_multi_qubit_zz_two_qubit() {
    let gate = MultiQubitZZ::new(vec![0, 1], CalculatorFloat::FRAC_PI_2);
    let f: f64 = 1.0 / ((2.0_f64).sqrt());
    let o = Complex64::new(0.0, 0.0);
    let m = Complex64::new(f, (-1.0) * f);
    let p = Complex64::new(f, f);
    let test_array = vec![
        vec![m, o, o, o],
        vec![o, p, o, o],
        vec![o, o, p, o],
        vec![o, o, o, m],
    ];
    let unit = gate.unitary_matrix().unwrap();
    assert_close(&unit, &test_array);
}

#[test]
fn test_matrix_output_three_multi_qubit_zz_three_qubit() {
    let gate = MultiQubitZZ::new(vec![0, 1, 2], CalculatorFloat::FRAC_PI_2);
    let f: f64 = 1.0 / ((2.0_f64).sqrt());
    let o = Complex64::new(0.0, 0.0);
    let m = Complex64::new(f, (-1.0) * f);
    let p = Complex64::new(f, f);
    let test_array = vec![
        vec![m, o, o, o, o, o, o, o],
        vec![o, p, o, o, o, o, o, o],
        vec![o, o, p, o, o, o, o, o],
        vec![o, o, o, m, o, o, o, o],
        vec![o, o, o, o, p, o, o, o],
        vec![o, o, o, o, o, m, o, o],
        vec![o, o, o, o, o, o, m, o],
        vec![o, o, o, o, o, o, o, p],
    ];
    let unit = gate.unitary_matrix().unwrap();
    assert_close(&unit, &test_array);
}

#[test]
fn test_clone_partial_eq_mulit_qubit_ms() {
    let qubits = vec![0, 1, 2];

    let gate = MultiQubitZZ::new(qubits.clone(), CalculatorFloat::FRAC_PI_2);
    assert_eq!(gate.hqslang(), "MultiQubitZZ");
    assert_eq!(
        gate.tags(),
        &[
            "Operation",
            "GateOperation",
            "MultiQubitGateOperation",
            "MultiQubitZZ",
        ]
    );
    assert!(!gate.is_parametrized());
    let gate1 = MultiQubitZZ::new(qubits, "theta".into());
    assert!(gate1.is_parametrized());
    let helper = gate != gate1;
    assert!(helper);
    let gate2 = gate1.clone();
    assert_eq!(gate2, gate1);
}

#[test]
fn test_operate_mulit_qubit_zz() {
    let qubits = vec![0, 1, 2];
    let gate = MultiQubitZZ::new(qubits.clone(), CalculatorFloat::FRAC_PI_2);
    assert_eq!(gate.hqslang(), "MultiQubitZZ");
    assert_eq!(
        gate.tags(),
        &[
            "Operation",
            "GateOperation",
            "MultiQubitGateOperation",
            "MultiQubitZZ",
        ]
    );
    assert_eq!(gate.qubits(), &vec![0, 1, 2]);
    assert!(!gate.is_parametrized());
    let gate1 = MultiQubitZZ::new(qubits, "theta".into());
    assert!(gate1.is_parametrized());
}

#[test]
fn test_substitute_multi_qubit_zz() {
    let qubits = vec![0, 1, 2];
    let gate1 = MultiQubitZZ::new(qubits.clone(), "theta".into());
    let gate = MultiQubitZZ::new(qubits, CalculatorFloat::FRAC_PI_2);
    let mut calc = Calculator::new();
    calc.set_variable("theta", std::f64::consts::FRAC_PI_2);
    let gate_substituted = Substitute::substitute_parameters(&gate1, &mut calc);
    let subs = gate_substituted.unwrap();
    assert_eq!(gate, subs);
    let mut mapping: HashMap<usize, usize> = std::collections::HashMap::new();
    let _ = mapping.insert(0, 1);
    let _ = mapping.insert(1, 2);
    let _ = mapping.insert(2, 0);
    let remapped = gate1.remap_qubits(&mapping).unwrap();
    let qubits = remapped.qubits();
    assert_eq!(qubits, &vec![1, 2, 0]);
}

#[test]
fn test_substitute_error_multi_qubit_zz() {
    let qubits = vec![0, 1, 2];
    let gate1 = MultiQubitZZ::new(qubits, "theta".into());
    let mut calc = Calculator::new();
    let gate_substituted = gate1.substitute_parameters(&mut calc);
    assert!(gate_substituted.is_err());
    let mut mapping: HashMap<usize, usize> = std::collections::HashMap::new();
    let _ = mapping.insert(1, 2);
    let _ = mapping.insert(2, 0);
    let remapped = gate1.remap_qubits(&mapping);
    assert!(remapped.is_err());
}

#[test]
fn test_format_error_multi_qubit_zz() {
    let qubits = vec![0, 1, 2];
    let gate = MultiQubitZZ::new(qubits, "theta".into());
    let string = format!("{:?}", gate);
    assert!(string.contains("theta"));
    assert!(string.contains("MultiQubitZZ"));
}

#[test]
fn test_involved_qubits_multi_qubit_zz() {
    let qubits = vec![0, 1, 2];
    let gate = MultiQubitZZ::new(qubits, "theta".into());
    let involved_qubits = gate.involved_qubits();
    let mut comp_set: HashSet<usize> = HashSet::new();
    let _ = comp_set.insert(0);
    let _ = comp_set.insert(1);
    let _ = comp_set.insert(2);
    assert_eq!(involved_qubits, comp_set);
}

fn check_powercf_multi_qubit_zz(theta: CalculatorFloat, power: CalculatorFloat) {
    let qubits = vec![0, 1, 2];
    let gate = MultiQubitZZ::new(qubits.clone(), theta);

    let power_gate = gate.powercf(power.clone());
    let test_theta = power * gate.theta().clone();
    let test_gate = MultiQubitZZ::new(qubits, test_theta);
    assert_eq!(power_gate, test_gate);
    assert_eq!(power_gate.theta(), test_gate.theta());
}

/// Test powerfc function for MultiQubitZZ with symbolic parameters
#[test]
fn test_rotatex_powercf_multi_qubit_zz_power_2() {
    check_powercf_multi_qubit_zz(CalculatorFloat::from("theta"), CalculatorFloat::from(2.0));
}

#[test]
fn test_rotatex_powercf_multi_qubit_zz_power_1_2() {
    check_powercf_multi_qubit_zz(CalculatorFloat::from("theta"), CalculatorFloat::from(1.0 / 2.0));
}

#[test]
fn test_rotatex_powercf_multi_qubit_zz_power_1() {
    check_powercf_multi_qubit_zz(CalculatorFloat::from("theta"), CalculatorFloat::from(1.0));
}

#[test]
fn test_rotatex_powercf_multi_qubit_zz_power_0() {
    check_powercf_multi_qubit_zz(CalculatorFloat::from("theta"), CalculatorFloat::from(0.0));
}

#[test]
fn test_rotatex_powercf_multi_qubit_zz_power_minus_2() {
    check_powercf_multi_qubit_zz(CalculatorFloat::from("theta"), CalculatorFloat::from(-2.0));
}

#[test]
fn test_rotatex_powercf_multi_qubit_zz_power_symbolic() {
    check_powercf_multi_qubit_zz(CalculatorFloat::from("theta"), CalculatorFloat::from("power"));
}
