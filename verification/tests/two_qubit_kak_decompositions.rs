//! Tests of the KAK decompositions of the two-qubit gate operations.

use num_complex::Complex64;
use qoqo_calculator::{CalculatorComplex, CalculatorFloat};
use qubit_gates::circuit::{Circuit, Operation};
use qubit_gates::gates::bogoliubov::Bogoliubov;
use qubit_gates::gates::cnot::CNOT;
use qubit_gates::gates::complex_pm_interaction::ComplexPMInteraction;
use qubit_gates::gates::controlled_pauli_y::ControlledPauliY;
use qubit_gates::gates::controlled_pauli_z::ControlledPauliZ;
use qubit_gates::gates::controlled_phase_shift::ControlledPhaseShift;
use qubit_gates::gates::fsim::Fsim;
use qubit_gates::gates::fswap::FSwap;
use qubit_gates::gates::givens_rotation::GivensRotation;
use qubit_gates::gates::givens_rotation_little_endian::GivensRotationLittleEndian;
use qubit_gates::gates::inv_sqrt_iswap::InvSqrtISwap;
use qubit_gates::gates::iswap::ISwap;
use qubit_gates::gates::molmer_sorensen_xx::MolmerSorensenXX;
use qubit_gates::gates::phase_shifted_controlled_z::PhaseShiftedControlledZ;
use qubit_gates::gates::pm_interaction::PMInteraction;
use qubit_gates::gates::qsim::Qsim;
use qubit_gates::gates::spin_interaction::SpinInteraction;
use qubit_gates::gates::sqrt_iswap::SqrtISwap;
use qubit_gates::gates::swap::SWAP;
use qubit_gates::gates::variable_msxx::VariableMSXX;
use qubit_gates::gates::xy::XY;
use qubit_gates::kak::KakDecomposition;
use qubit_gates::matrix::Matrix;
use qubit_gates::operate::{OperateGate, OperateTwoQubitGate};
use std::f64::consts::PI;

type Rows = Vec<Vec<Complex64>>;

fn rx(qubit: usize, theta: CalculatorFloat) -> Operation {
    Operation::RotateX { qubit, theta }
}

fn ry(qubit: usize, theta: CalculatorFloat) -> Operation {
    Operation::RotateY { qubit, theta }
}

fn rz(qubit: usize, theta: CalculatorFloat) -> Operation {
    Operation::RotateZ { qubit, theta }
}

fn circuit(operations: Vec<Operation>) -> Option<Circuit> {
    let mut circuit = Circuit::new();
    for operation in operations {
        circuit.add_operation(operation);
    }
    Some(circuit)
}

fn kak(
    global_phase: CalculatorFloat,
    k_vector: [CalculatorFloat; 3],
    circuit_before: Option<Circuit>,
    circuit_after: Option<Circuit>,
) -> KakDecomposition {
    KakDecomposition { global_phase, k_vector, circuit_before, circuit_after }
}

fn zero() -> CalculatorFloat {
    CalculatorFloat::ZERO
}

fn pi_2() -> CalculatorFloat {
    CalculatorFloat::FRAC_PI_2
}

fn pi_4() -> CalculatorFloat {
    CalculatorFloat::FRAC_PI_4
}

// ---- reconstruction of the unitary matrix from a decomposition

fn c(re: f64, im: f64) -> Complex64 {
    Complex64::new(re, im)
}

fn number(x: &CalculatorFloat) -> f64 {
    match x {
        CalculatorFloat::Float(value) => *value,
        CalculatorFloat::Str(text) => panic!("symbolic entry {}", text),
    }
}

fn entries(matrix: &Matrix) -> Rows {
    matrix
        .rows
        .iter()
        .map(|row| row.iter().map(|z| c(number(&z.re), number(&z.im))).collect())
        .collect()
}

fn identity(n: usize) -> Rows {
    (0..n)
        .map(|i| (0..n).map(|j| if i == j { c(1.0, 0.0) } else { c(0.0, 0.0) }).collect())
        .collect()
}

fn product(a: &Rows, b: &Rows) -> Rows {
    let n = a.len();
    (0..n)
        .map(|i| (0..n).map(|j| (0..n).map(|k| a[i][k] * b[k][j]).sum()).collect())
        .collect()
}

fn kron(a: &Rows, b: &Rows) -> Rows {
    let (n, m) = (a.len(), b.len());
    (0..n * m)
        .map(|i| (0..n * m).map(|j| a[i / m][j / m] * b[i % m][j % m]).collect())
        .collect()
}

fn scaled(a: &Rows, factor: Complex64) -> Rows {
    a.iter().map(|row| row.iter().map(|x| x * factor).collect()).collect()
}

fn sum(a: &Rows, b: &Rows) -> Rows {
    a.iter()
        .zip(b.iter())
        .map(|(x, y)| x.iter().zip(y.iter()).map(|(p, q)| p + q).collect())
        .collect()
}

fn pauli(axis: char) -> Rows {
    match axis {
        'x' => vec![vec![c(0.0, 0.0), c(1.0, 0.0)], vec![c(1.0, 0.0), c(0.0, 0.0)]],
        'y' => vec![vec![c(0.0, 0.0), c(0.0, -1.0)], vec![c(0.0, 1.0), c(0.0, 0.0)]],
        _ => vec![vec![c(1.0, 0.0), c(0.0, 0.0)], vec![c(0.0, 0.0), c(-1.0, 0.0)]],
    }
}

/// exp(-i θ/2 P) for the Pauli matrix P of the axis.
fn rotation(axis: char, theta: f64) -> Rows {
    sum(
        &scaled(&identity(2), c((theta / 2.0).cos(), 0.0)),
        &scaled(&pauli(axis), c(0.0, -(theta / 2.0).sin())),
    )
}

/// exp(i k P⊗P) for the Pauli matrix P of the axis.
fn entangler(axis: char, k: f64) -> Rows {
    let pp = kron(&pauli(axis), &pauli(axis));
    sum(&scaled(&identity(4), c(k.cos(), 0.0)), &scaled(&pp, c(0.0, k.sin())))
}

fn circuit_matrix(circuit: &Option<Circuit>, control: usize, target: usize) -> Rows {
    let mut matrix = identity(4);
    if let Some(circuit) = circuit {
        for operation in circuit.operations.iter() {
            let (axis, qubit, theta) = match operation {
                Operation::RotateX { qubit, theta } => ('x', *qubit, number(theta)),
                Operation::RotateY { qubit, theta } => ('y', *qubit, number(theta)),
                Operation::RotateZ { qubit, theta } => ('z', *qubit, number(theta)),
                other => panic!("unexpected operation {:?}", other),
            };
            let single = rotation(axis, theta);
            let step = if qubit == control {
                kron(&single, &identity(2))
            } else {
                assert_eq!(qubit, target);
                kron(&identity(2), &single)
            };
            matrix = product(&step, &matrix);
        }
    }
    matrix
}

fn reconstructed(kak: &KakDecomposition, control: usize, target: usize) -> Rows {
    let before = circuit_matrix(&kak.circuit_before, control, target);
    let after = circuit_matrix(&kak.circuit_after, control, target);
    let core = product(
        &product(
            &entangler('x', number(&kak.k_vector[0])),
            &entangler('y', number(&kak.k_vector[1])),
        ),
        &entangler('z', number(&kak.k_vector[2])),
    );
    let phase = number(&kak.global_phase);
    scaled(&product(&after, &product(&core, &before)), c(phase.cos(), phase.sin()))
}

fn assert_consistent(kak: KakDecomposition, unit: Matrix, control: usize, target: usize) {
    let unit = entries(&unit);
    let rebuilt = reconstructed(&kak, control, target);
    for i in 0..4 {
        for j in 0..4 {
            assert!(
                (unit[i][j] - rebuilt[i][j]).norm() < 1e-10,
                "entry ({}, {}): {} instead of {}",
                i,
                j,
                rebuilt[i][j],
                unit[i][j]
            );
        }
    }
}

// ---- the decompositions

#[test]
fn test_kak_cnot() {
    let gate = CNOT::new(0, 1);
    let expected = kak(
        pi_4(),
        [pi_4(), zero(), zero()],
        circuit(vec![rz(0, pi_2()), ry(0, pi_2()), rx(1, pi_2())]),
        circuit(vec![ry(0, pi_2() * (-1.0))]),
    );
    assert_eq!(gate.kak_decomposition(), expected);
    assert_consistent(gate.kak_decomposition(), gate.unitary_matrix().unwrap(), 0, 1);
}

#[test]
fn test_kak_swap() {
    let gate = SWAP::new(2, 3);
    let expected = kak(
        CalculatorFloat::from((-1.0) * PI / 4.0),
        [pi_4(), pi_4(), pi_4()],
        None,
        None,
    );
    assert_eq!(gate.kak_decomposition(), expected);
    assert_consistent(gate.kak_decomposition(), gate.unitary_matrix().unwrap(), 2, 3);
}

#[test]
fn test_kak_iswap() {
    let gate = ISwap::new(0, 1);
    let expected = kak(zero(), [pi_4(), pi_4(), zero()], None, None);
    assert_eq!(gate.kak_decomposition(), expected);
    assert_consistent(gate.kak_decomposition(), gate.unitary_matrix().unwrap(), 0, 1);
}

#[test]
fn test_kak_fswap() {
    let gate = FSwap::new(1, 0);
    let expected = kak(
        pi_2() * (-1.0),
        [pi_4(), pi_4(), zero()],
        circuit(vec![rz(1, pi_2() * (-1.0)), rz(0, pi_2() * (-1.0))]),
        None,
    );
    assert_eq!(gate.kak_decomposition(), expected);
    assert_consistent(gate.kak_decomposition(), gate.unitary_matrix().unwrap(), 1, 0);
}

#[test]
fn test_kak_sqrt_iswap() {
    let gate = SqrtISwap::new(0, 1);
    let expected = kak(
        zero(),
        [CalculatorFloat::from(PI / 8.0), CalculatorFloat::from(PI / 8.0), zero()],
        None,
        None,
    );
    assert_eq!(gate.kak_decomposition(), expected);
    assert_consistent(gate.kak_decomposition(), gate.unitary_matrix().unwrap(), 0, 1);
}

#[test]
fn test_kak_inv_sqrt_iswap() {
    let gate = InvSqrtISwap::new(0, 1);
    let expected = kak(
        zero(),
        [
            CalculatorFloat::from((-1.0) * PI / 8.0),
            CalculatorFloat::from((-1.0) * PI / 8.0),
            zero(),
        ],
        None,
        None,
    );
    assert_eq!(gate.kak_decomposition(), expected);
    assert_consistent(gate.kak_decomposition(), gate.unitary_matrix().unwrap(), 0, 1);
}

fn check_kak_xy(theta: CalculatorFloat) -> XY {
    let gate = XY::new(0, 1, theta.clone());
    let expected = kak(zero(), [theta.clone() / 4.0, theta / 4.0, zero()], None, None);
    assert_eq!(gate.kak_decomposition(), expected);
    gate
}

#[test]
fn test_kak_xy() {
    let gate = check_kak_xy(0.37.into());
    assert_consistent(gate.kak_decomposition(), gate.unitary_matrix().unwrap(), 0, 1);
    let symbolic = check_kak_xy("theta".into());
    assert_eq!(symbolic.kak_decomposition().k_vector[0], CalculatorFloat::from("(theta / 4e0)"));
}

fn check_kak_controlled_phase_shift(theta: CalculatorFloat) -> ControlledPhaseShift {
    let gate = ControlledPhaseShift::new(0, 1, theta.clone());
    let expected = kak(
        theta.clone() / 4.0,
        [zero(), zero(), theta.clone() / 4.0],
        circuit(vec![rz(0, theta.clone() / 2.0), rz(1, theta / 2.0)]),
        None,
    );
    assert_eq!(gate.kak_decomposition(), expected);
    gate
}

#[test]
fn test_kak_controlled_phase_shift() {
    let gate = check_kak_controlled_phase_shift(1.3.into());
    assert_consistent(gate.kak_decomposition(), gate.unitary_matrix().unwrap(), 0, 1);
    check_kak_controlled_phase_shift("theta".into());
}

#[test]
fn test_kak_controlled_pauli_y() {
    let gate = ControlledPauliY::new(0, 1);
    let expected = kak(
        pi_4(),
        [zero(), zero(), pi_4()],
        circuit(vec![rz(0, pi_2()), ry(1, pi_2()), rx(1, pi_2())]),
        circuit(vec![rx(1, pi_2() * (-1.0))]),
    );
    assert_eq!(gate.kak_decomposition(), expected);
    assert_consistent(gate.kak_decomposition(), gate.unitary_matrix().unwrap(), 0, 1);
}

#[test]
fn test_kak_controlled_pauli_z() {
    let gate = ControlledPauliZ::new(0, 1);
    let expected = kak(
        pi_4(),
        [zero(), zero(), pi_4()],
        circuit(vec![rz(0, pi_2()), rz(1, pi_2())]),
        None,
    );
    assert_eq!(gate.kak_decomposition(), expected);
    assert_consistent(gate.kak_decomposition(), gate.unitary_matrix().unwrap(), 0, 1);
}

#[test]
fn test_kak_molmer_sorensen_xx() {
    let gate = MolmerSorensenXX::new(0, 1);
    let decomposition = gate.kak_decomposition();
    assert_eq!(decomposition.global_phase, CalculatorFloat::from(0.0));
    assert_eq!(
        decomposition.k_vector,
        [CalculatorFloat::from((-1.0) * PI / 4.0), zero(), zero()]
    );
    assert_eq!(decomposition.circuit_before, None);
    assert_eq!(decomposition.circuit_after, None);
    assert_consistent(decomposition, gate.unitary_matrix().unwrap(), 0, 1);
}

fn check_kak_variable_msxx(theta: CalculatorFloat) -> VariableMSXX {
    let gate = VariableMSXX::new(0, 1, theta.clone());
    let expected = kak(zero(), [theta * (-1.0 / 2.0), zero(), zero()], None, None);
    assert_eq!(gate.kak_decomposition(), expected);
    gate
}

#[test]
fn test_kak_variable_msxx() {
    let gate = check_kak_variable_msxx((-2.1).into());
    assert_consistent(gate.kak_decomposition(), gate.unitary_matrix().unwrap(), 0, 1);
    check_kak_variable_msxx("theta".into());
}

fn check_kak_givens_rotation(theta: CalculatorFloat, phi: CalculatorFloat) -> GivensRotation {
    let gate = GivensRotation::new(0, 1, theta.clone(), phi.clone());
    let expected = kak(
        phi.clone() / 2.0,
        [theta.clone() / 2.0, theta / 2.0, zero()],
        circuit(vec![rz(1, phi + (PI / 2.0))]),
        circuit(vec![rz(1, pi_2() * (-1.0))]),
    );
    assert_eq!(gate.kak_decomposition(), expected);
    gate
}

#[test]
fn test_kak_givens_rotation() {
    let gate = check_kak_givens_rotation(0.8.into(), 0.3.into());
    assert_consistent(gate.kak_decomposition(), gate.unitary_matrix().unwrap(), 0, 1);
    check_kak_givens_rotation("theta".into(), "phi".into());
    check_kak_givens_rotation(0.8.into(), "phi".into());
}

fn check_kak_givens_rotation_little_endian(
    theta: CalculatorFloat,
    phi: CalculatorFloat,
) -> GivensRotationLittleEndian {
    let gate = GivensRotationLittleEndian::new(0, 1, theta.clone(), phi.clone());
    let expected = kak(
        phi.clone() / 2.0,
        [theta.clone() / 2.0, theta / 2.0, zero()],
        circuit(vec![rz(0, pi_2() * (-1.0))]),
        circuit(vec![rz(0, phi + (PI / 2.0))]),
    );
    assert_eq!(gate.kak_decomposition(), expected);
    gate
}

#[test]
fn test_kak_givens_rotation_little_endian() {
    let gate = check_kak_givens_rotation_little_endian(0.8.into(), 0.3.into());
    assert_consistent(gate.kak_decomposition(), gate.unitary_matrix().unwrap(), 0, 1);
    check_kak_givens_rotation_little_endian("theta".into(), "phi".into());
}

fn check_kak_qsim(x: CalculatorFloat, y: CalculatorFloat, z: CalculatorFloat) -> Qsim {
    let gate = Qsim::new(0, 1, x.clone(), y.clone(), z.clone());
    let expected = kak(
        CalculatorFloat::from(-1.0 * PI / 4.0),
        [x * (-1.0) + PI / 4.0, y * (-1.0) + PI / 4.0, z * (-1.0) + PI / 4.0],
        None,
        None,
    );
    assert_eq!(gate.kak_decomposition(), expected);
    gate
}

#[test]
fn test_kak_qsim() {
    let gate = check_kak_qsim(0.5.into(), 1.0.into(), (-0.7).into());
    assert_consistent(gate.kak_decomposition(), gate.unitary_matrix().unwrap(), 0, 1);
    check_kak_qsim("x".into(), "y".into(), "z".into());
}

fn check_kak_fsim(t: CalculatorFloat, u: CalculatorFloat, delta: CalculatorFloat) -> Fsim {
    let gate = Fsim::new(0, 1, t.clone(), u.clone(), delta.clone());
    let theta = u.clone() / (-2.0) - PI / 2.0;
    let expected = kak(
        u.clone() / (-4.0) - PI / 2.0,
        [
            (t.clone() / (-2.0) + delta.clone() / 2.0 + PI / 4.0),
            (t / (-2.0) - delta / 2.0 + PI / 4.0),
            u / (-4.0),
        ],
        None,
        circuit(vec![rz(0, theta.clone()), rz(1, theta)]),
    );
    assert_eq!(gate.kak_decomposition(), expected);
    gate
}

#[test]
fn test_kak_fsim() {
    let gate = check_kak_fsim(0.4.into(), (-1.1).into(), 2.3.into());
    assert_consistent(gate.kak_decomposition(), gate.unitary_matrix().unwrap(), 0, 1);
    check_kak_fsim("t".into(), "u".into(), "delta".into());
}

fn check_kak_spin_interaction(
    x: CalculatorFloat,
    y: CalculatorFloat,
    z: CalculatorFloat,
) -> SpinInteraction {
    let gate = SpinInteraction::new(0, 1, x.clone(), y.clone(), z.clone());
    let expected = kak(zero(), [x * (-1.0), y * (-1.0), z * (-1.0)], None, None);
    assert_eq!(gate.kak_decomposition(), expected);
    gate
}

#[test]
fn test_kak_spin_interaction() {
    let gate = check_kak_spin_interaction(0.5.into(), 1.0.into(), (-0.7).into());
    assert_consistent(gate.kak_decomposition(), gate.unitary_matrix().unwrap(), 0, 1);
    check_kak_spin_interaction("x".into(), "y".into(), "z".into());
}

fn check_kak_bogoliubov(dr: CalculatorFloat, di: CalculatorFloat) -> Bogoliubov {
    let gate = Bogoliubov::new(0, 1, dr.clone(), di.clone());
    let delta: CalculatorComplex = CalculatorComplex::new(dr, di);
    let expected = kak(
        zero(),
        [delta.norm() / (2.0), delta.norm() / (-2.0), zero()],
        circuit(vec![rz(1, delta.arg())]),
        circuit(vec![rz(1, delta.arg() * (-1.0))]),
    );
    assert_eq!(gate.kak_decomposition(), expected);
    gate
}

#[test]
fn test_kak_bogoliubov() {
    let gate = check_kak_bogoliubov(0.6.into(), (-0.9).into());
    assert_consistent(gate.kak_decomposition(), gate.unitary_matrix().unwrap(), 0, 1);
    check_kak_bogoliubov("dr".into(), "di".into());
    check_kak_bogoliubov(0.6.into(), "di".into());
}

fn check_kak_pm_interaction(t: CalculatorFloat) -> PMInteraction {
    let gate = PMInteraction::new(0, 1, t.clone());
    let expected = kak(zero(), [t.clone() / (-2.0), t / (-2.0), zero()], None, None);
    assert_eq!(gate.kak_decomposition(), expected);
    gate
}

#[test]
fn test_kak_pm_interaction() {
    let gate = check_kak_pm_interaction(0.9.into());
    assert_consistent(gate.kak_decomposition(), gate.unitary_matrix().unwrap(), 0, 1);
    check_kak_pm_interaction("t".into());
}

fn check_kak_complex_pm_interaction(
    tr: CalculatorFloat,
    ti: CalculatorFloat,
) -> ComplexPMInteraction {
    let gate = ComplexPMInteraction::new(0, 1, tr.clone(), ti.clone());
    let t: CalculatorComplex = CalculatorComplex::new(tr, ti);
    let expected = kak(
        zero(),
        [t.norm() / (-2.0), t.norm() / (-2.0), zero()],
        circuit(vec![rz(1, t.arg())]),
        circuit(vec![rz(1, t.arg() * (-1.0))]),
    );
    assert_eq!(gate.kak_decomposition(), expected);
    gate
}

#[test]
fn test_kak_complex_pm_interaction() {
    let gate = check_kak_complex_pm_interaction((-0.3).into(), 1.4.into());
    assert_consistent(gate.kak_decomposition(), gate.unitary_matrix().unwrap(), 0, 1);
    check_kak_complex_pm_interaction("tr".into(), "ti".into());
}

fn check_kak_phase_shifted_controlled_z(phi: CalculatorFloat) -> PhaseShiftedControlledZ {
    let gate = PhaseShiftedControlledZ::new(0, 1, phi.clone());
    let expected = kak(
        pi_4() + phi.clone(),
        [zero(), zero(), pi_4()],
        circuit(vec![rz(0, pi_2()), rz(1, pi_2())]),
        circuit(vec![rz(0, phi.clone()), rz(1, phi)]),
    );
    assert_eq!(gate.kak_decomposition(), expected);
    gate
}

#[test]
fn test_kak_phase_shifted_controlled_z() {
    let gate = check_kak_phase_shifted_controlled_z(0.45.into());
    assert_consistent(gate.kak_decomposition(), gate.unitary_matrix().unwrap(), 0, 1);
    check_kak_phase_shifted_controlled_z("phi".into());
}

#[test]
fn test_kak_with_symbolic_argument() {
    let gate = Bogoliubov::new(0, 1, "dr".into(), "di".into());
    let decomposition = gate.kak_decomposition();
    assert_eq!(decomposition.circuit_before, circuit(vec![rz(1, "atan2(di, dr)".into())]));
    assert_eq!(
        decomposition.circuit_after,
        circuit(vec![rz(1, "(atan2(di, dr) * -1e0)".into())])
    );
    let gate = ComplexPMInteraction::new(0, 1, "a".into(), "b".into());
    let decomposition = gate.kak_decomposition();
    assert_eq!(decomposition.circuit_before, circuit(vec![rz(1, "atan2(b, a)".into())]));
}

#[test]
fn test_kak_from_argument() {
    let gate = Bogoliubov::new(4, 7, 3.0.into(), 4.0.into());
    let decomposition = gate.kak_from_argument(&CalculatorFloat::from(0.25));
    assert_eq!(decomposition.k_vector[0], CalculatorFloat::from(2.5));
    assert_eq!(decomposition.k_vector[1], CalculatorFloat::from(-2.5));
    assert_eq!(decomposition.circuit_before, circuit(vec![rz(7, 0.25.into())]));
    assert_eq!(decomposition.circuit_after, circuit(vec![rz(7, (-0.25).into())]));
}

#[test]
fn test_kak_new() {
    let decomposition = KakDecomposition::new(
        1.0.into(),
        2.0.into(),
        "k".into(),
        4.0.into(),
        None,
        circuit(vec![rx(0, 0.5.into())]),
    );
    assert_eq!(
        decomposition,
        kak(
            1.0.into(),
            [2.0.into(), "k".into(), 4.0.into()],
            None,
            circuit(vec![rx(0, 0.5.into())])
        )
    );
}
