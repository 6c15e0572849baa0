//! Tests of the unitary matrices of the two-qubit gate operations.

use num_complex::Complex64;
use qoqo_calculator::{CalculatorError, CalculatorFloat};
use qubit_gates::error::RoqoqoError;
use qubit_gates::gates::bogoliubov::Bogoliubov;
use qubit_gates::gates::cnot::CNOT;
use qubit_gates::gates::complex_pm_interaction::ComplexPMInteraction;
use qubit_gates::gates::controlled_pauli_y::ControlledPauliY;
use qubit_gates::gates::controlled_pauli_z::ControlledPauliZ;
use qubit_gates::gates::controlled_phase_shift::ControlledPhaseShift;
use qubit_gates::gates::fsim::Fsim;
use qubit_gates::gates::fswap::FSwap;
use qubit_gates::gates::givens_rotation::GivensRotation;
use qubit_gates::gates::givens_rotation_little_endian::GivensRotationLittleEndian;
use qubit_gates::gates::inv_sqrt_iswap::InvSqrtISwap;
use qubit_gates::gates::iswap::ISwap;
use qubit_gates::gates::molmer_sorensen_xx::MolmerSorensenXX;
use qubit_gates::gates::phase_shifted_controlled_z::PhaseShiftedControlledZ;
use qubit_gates::gates::pm_interaction::PMInteraction;
use qubit_gates::gates::qsim::Qsim;
use qubit_gates::gates::spin_interaction::SpinInteraction;
use qubit_gates::gates::sqrt_iswap::SqrtISwap;
use qubit_gates::gates::swap::SWAP;
use qubit_gates::gates::variable_msxx::VariableMSXX;
use qubit_gates::gates::xy::XY;
use qubit_gates::matrix::Matrix;
use qubit_gates::operate::OperateGate;
use std::f64::consts::PI;

type Rows = Vec<Vec<Complex64>>;

fn c(re: f64, im: f64) -> Complex64 {
    Complex64::new(re, im)
}

fn number(x: &CalculatorFloat) -> f64 {
    match x {
        CalculatorFloat::Float(value) => *value,
        CalculatorFloat::Str(text) => panic!("symbolic entry {}", text),
    }
}

fn entries(matrix: &Matrix) -> Rows {
    matrix
        .rows
        .iter()
        .map(|row| row.iter().map(|z| c(number(&z.re), number(&z.im))).collect())
        .collect()
}

fn assert_matrix(unit: Result<Matrix, RoqoqoError>, expected: Rows) {
    let unit = entries(&unit.unwrap());
    assert_eq!(unit.len(), 4);
    for i in 0..4 {
        assert_eq!(unit[i].len(), 4);
        for j in 0..4 {
            assert!(
                (unit[i][j] - expected[i][j]).norm() < 1e-15,
                "entry ({}, {}): {} instead of {}",
                i,
                j,
                unit[i][j],
                expected[i][j]
            );
        }
    }
    assert_unitary(&unit);
}

fn assert_unitary(unit: &Rows) {
    let n = unit.len();
    for i in 0..n {
        for j in 0..n {
            let mut sum = c(0.0, 0.0);
            for k in 0..n {
                sum += unit[i][k] * unit[j][k].conj();
            }
            let expected = if i == j { c(1.0, 0.0) } else { c(0.0, 0.0) };
            assert!((sum - expected).norm() < 1e-10);
        }
    }
}

fn assert_symbolic(unit: Result<Matrix, RoqoqoError>, text: &str) {
    assert_eq!(
        unit,
        Err(RoqoqoError::CalculatorError(CalculatorError::FloatSymbolicNotConvertable {
            val: text.to_string()
        }))
    );
}

fn o() -> Complex64 {
    c(0.0, 0.0)
}

fn l() -> Complex64 {
    c(1.0, 0.0)
}

#[test]
fn test_unitary_cnot() {
    let expected = vec![
        vec![l(), o(), o(), o()],
        vec![o(), l(), o(), o()],
        vec![o(), o(), o(), l()],
        vec![o(), o(), l(), o()],
    ];
    assert_matrix(CNOT::new(0, 1).unitary_matrix(), expected);
}

#[test]
fn test_unitary_cnot_is_exact_permutation() {
    let unit = entries(&CNOT::new(0, 1).unitary_matrix().unwrap());
    let images = [0, 1, 3, 2];
    for state in 0..4 {
        for row in 0..4 {
            let expected = if row == images[state] { l() } else { o() };
            assert_eq!(unit[row][state], expected);
        }
    }
}

#[test]
fn test_unitary_swap() {
    let expected = vec![
        vec![l(), o(), o(), o()],
        vec![o(), o(), l(), o()],
        vec![o(), l(), o(), o()],
        vec![o(), o(), o(), l()],
    ];
    assert_matrix(SWAP::new(0, 1).unitary_matrix(), expected);
}

#[test]
fn test_unitary_iswap() {
    let expected = vec![
        vec![l(), o(), o(), o()],
        vec![o(), o(), c(0.0, 1.0), o()],
        vec![o(), c(0.0, 1.0), o(), o()],
        vec![o(), o(), o(), l()],
    ];
    assert_matrix(ISwap::new(0, 1).unitary_matrix(), expected);
}

#[test]
fn test_unitary_fswap() {
    let expected = vec![
        vec![l(), o(), o(), o()],
        vec![o(), o(), l(), o()],
        vec![o(), l(), o(), o()],
        vec![o(), o(), o(), c(-1.0, 0.0)],
    ];
    assert_matrix(FSwap::new(0, 1).unitary_matrix(), expected);
}

#[test]
fn test_unitary_sqrt_iswap() {
    let f: f64 = 1.0 / ((2.0_f64).sqrt());
    let expected = vec![
        vec![l(), o(), o(), o()],
        vec![o(), c(f, 0.0), c(0.0, f), o()],
        vec![o(), c(0.0, f), c(f, 0.0), o()],
        vec![o(), o(), o(), l()],
    ];
    assert_matrix(SqrtISwap::new(0, 1).unitary_matrix(), expected);
}

#[test]
fn test_unitary_inv_sqrt_iswap() {
    let f: f64 = 1.0 / ((2.0_f64).sqrt());
    let expected = vec![
        vec![l(), o(), o(), o()],
        vec![o(), c(f, 0.0), c(0.0, (-1.0) * f), o()],
        vec![o(), c(0.0, (-1.0) * f), c(f, 0.0), o()],
        vec![o(), o(), o(), l()],
    ];
    assert_matrix(InvSqrtISwap::new(0, 1).unitary_matrix(), expected);
}

fn bits(x: &CalculatorFloat) -> u64 {
    number(x).to_bits()
}

/// The factor 1/√2 is one divided by the square root of two, to the last bit.
#[test]
fn test_unitary_entries_are_one_over_the_square_root_of_two() {
    let f: f64 = 1.0 / ((2.0_f64).sqrt());
    assert_eq!(f.to_bits(), 0x3FE6_A09E_667F_3BCC);
    assert_ne!(f.to_bits(), std::f64::consts::FRAC_1_SQRT_2.to_bits());
    let unit = SqrtISwap::new(0, 1).unitary_matrix().unwrap();
    for (i, j) in [(1, 1), (2, 2)] {
        assert_eq!(bits(&unit.entry(i, j).re), f.to_bits());
    }
    for (i, j) in [(1, 2), (2, 1)] {
        assert_eq!(bits(&unit.entry(i, j).im), f.to_bits());
    }
    let unit = InvSqrtISwap::new(0, 1).unitary_matrix().unwrap();
    for (i, j) in [(1, 1), (2, 2)] {
        assert_eq!(bits(&unit.entry(i, j).re), f.to_bits());
    }
    for (i, j) in [(1, 2), (2, 1)] {
        assert_eq!(bits(&unit.entry(i, j).im), ((-1.0) * f).to_bits());
    }
    let unit = MolmerSorensenXX::new(0, 1).unitary_matrix().unwrap();
    for i in 0..4 {
        assert_eq!(bits(&unit.entry(i, i).re), f.to_bits());
        assert_eq!(bits(&unit.entry(i, 3 - i).im), ((-1.0) * f).to_bits());
    }
}

/// The square of the square root of the ISwap gate is the ISwap gate, and its
/// inverse is its conjugate transpose.
#[test]
fn test_unitary_sqrt_iswap_squares_to_iswap() {
    let root = entries(&SqrtISwap::new(0, 1).unitary_matrix().unwrap());
    let inverse = entries(&InvSqrtISwap::new(0, 1).unitary_matrix().unwrap());
    let iswap = entries(&ISwap::new(0, 1).unitary_matrix().unwrap());
    for i in 0..4 {
        for j in 0..4 {
            let square: Complex64 = (0..4).map(|k| root[i][k] * root[k][j]).sum();
            assert!((square - iswap[i][j]).norm() < 1e-10);
            let product: Complex64 = (0..4).map(|k| inverse[i][k] * root[k][j]).sum();
            let identity = if i == j { l() } else { o() };
            assert!((product - identity).norm() < 1e-10);
            assert_eq!(inverse[i][j], root[j][i].conj());
        }
    }
}

#[test]
fn test_unitary_xy() {
    let theta = 0.37;
    let cos: f64 = (theta / 2.0_f64).cos();
    let sin: f64 = (theta / 2.0_f64).sin();
    let expected = vec![
        vec![l(), o(), o(), o()],
        vec![o(), c(cos, 0.0), c(0.0, sin), o()],
        vec![o(), c(0.0, sin), c(cos, 0.0), o()],
        vec![o(), o(), o(), l()],
    ];
    assert_matrix(XY::new(0, 1, theta.into()).unitary_matrix(), expected);
    assert_symbolic(XY::new(0, 1, "theta".into()).unitary_matrix(), "theta");
}

#[test]
fn test_unitary_controlled_phase_shift() {
    let theta: f64 = 1.3;
    let expected = vec![
        vec![l(), o(), o(), o()],
        vec![o(), l(), o(), o()],
        vec![o(), o(), l(), o()],
        vec![o(), o(), o(), c(theta.cos(), theta.sin())],
    ];
    assert_matrix(ControlledPhaseShift::new(0, 1, theta.into()).unitary_matrix(), expected);
    assert_symbolic(ControlledPhaseShift::new(0, 1, "angle".into()).unitary_matrix(), "angle");
}

#[test]
fn test_unitary_controlled_pauli_y() {
    let expected = vec![
        vec![l(), o(), o(), o()],
        vec![o(), l(), o(), o()],
        vec![o(), o(), o(), c(0.0, -1.0)],
        vec![o(), o(), c(0.0, 1.0), o()],
    ];
    assert_matrix(ControlledPauliY::new(0, 1).unitary_matrix(), expected);
}

#[test]
fn test_unitary_controlled_pauli_z() {
    let expected = vec![
        vec![l(), o(), o(), o()],
        vec![o(), l(), o(), o()],
        vec![o(), o(), l(), o()],
        vec![o(), o(), o(), c(-1.0, 0.0)],
    ];
    assert_matrix(ControlledPauliZ::new(0, 1).unitary_matrix(), expected);
}

#[test]
fn test_unitary_molmer_sorensen_xx() {
    let f: f64 = 1.0 / ((2.0_f64).sqrt());
    let expected = vec![
        vec![c(f, 0.0), o(), o(), c(0.0, (-1.0) * f)],
        vec![o(), c(f, 0.0), c(0.0, (-1.0) * f), o()],
        vec![o(), c(0.0, (-1.0) * f), c(f, 0.0), o()],
        vec![c(0.0, (-1.0) * f), o(), o(), c(f, 0.0)],
    ];
    assert_matrix(MolmerSorensenXX::new(0, 1).unitary_matrix(), expected);
}

#[test]
fn test_unitary_variable_msxx() {
    let theta = -2.1;
    let cos: f64 = (theta / 2.0_f64).cos();
    let sin: f64 = (theta / 2.0_f64).sin();
    let expected = vec![
        vec![c(cos, 0.0), o(), o(), c(0.0, (-1.0) * sin)],
        vec![o(), c(cos, 0.0), c(0.0, (-1.0) * sin), o()],
        vec![o(), c(0.0, (-1.0) * sin), c(cos, 0.0), o()],
        vec![c(0.0, (-1.0) * sin), o(), o(), c(cos, 0.0)],
    ];
    assert_matrix(VariableMSXX::new(0, 1, theta.into()).unitary_matrix(), expected);
    assert_symbolic(VariableMSXX::new(0, 1, "theta".into()).unitary_matrix(), "theta");
}

#[test]
fn test_unitary_variable_msxx_matches_molmer_sorensen_xx() {
    let variable = entries(
        &VariableMSXX::new(0, 1, CalculatorFloat::FRAC_PI_2).unitary_matrix().unwrap(),
    );
    let fixed = entries(&MolmerSorensenXX::new(0, 1).unitary_matrix().unwrap());
    for i in 0..4 {
        for j in 0..4 {
            assert!((variable[i][j] - fixed[i][j]).norm() < 1e-15);
        }
    }
}

#[test]
fn test_unitary_givens_rotation() {
    let (theta, phi): (f64, f64) = (0.8, 0.3);
    let ct = theta.cos();
    let st = theta.sin();
    let cp = phi.cos();
    let sp = phi.sin();
    let expected = vec![
        vec![l(), o(), o(), o()],
        vec![o(), c(ct * cp, ct * sp), c(st, 0.0), o()],
        vec![o(), c((-1.0) * st * cp, (-1.0) * st * sp), c(ct, 0.0), o()],
        vec![o(), o(), o(), c(cp, sp)],
    ];
    assert_matrix(GivensRotation::new(0, 1, theta.into(), phi.into()).unitary_matrix(), expected);
    assert_symbolic(GivensRotation::new(0, 1, "a".into(), "b".into()).unitary_matrix(), "a");
    assert_symbolic(GivensRotation::new(0, 1, theta.into(), "b".into()).unitary_matrix(), "b");
}

#[test]
fn test_unitary_givens_rotation_little_endian() {
    let (theta, phi): (f64, f64) = (0.8, 0.3);
    let ct = theta.cos();
    let st = theta.sin();
    let cp = phi.cos();
    let sp = phi.sin();
    let expected = vec![
        vec![l(), o(), o(), o()],
        vec![o(), c(ct, 0.0), c(st, 0.0), o()],
        vec![o(), c((-1.0) * st * cp, (-1.0) * st * sp), c(ct * cp, ct * sp), o()],
        vec![o(), o(), o(), c(cp, sp)],
    ];
    assert_matrix(
        GivensRotationLittleEndian::new(0, 1, theta.into(), phi.into()).unitary_matrix(),
        expected,
    );
    assert_symbolic(
        GivensRotationLittleEndian::new(0, 1, "a".into(), phi.into()).unitary_matrix(),
        "a",
    );
}

#[test]
fn test_unitary_qsim() {
    let (x, y, z): (f64, f64, f64) = (0.5, 1.0, -0.7);
    let cm: f64 = (x - y).cos();
    let cp: f64 = (x + y).cos();
    let sm: f64 = (x - y).sin();
    let sp: f64 = (x + y).sin();
    let cz: f64 = z.cos();
    let sz: f64 = z.sin();
    let expected = vec![
        vec![c(cm * cz, (-1.0) * cm * sz), o(), o(), c((-1.0) * sm * sz, (-1.0) * sm * cz)],
        vec![o(), c(sp * sz, (-1.0) * sp * cz), c(cp * cz, cp * sz), o()],
        vec![o(), c(cp * cz, cp * sz), c(sp * sz, (-1.0) * sp * cz), o()],
        vec![c((-1.0) * sm * sz, (-1.0) * sm * cz), o(), o(), c(cm * cz, (-1.0) * cm * sz)],
    ];
    assert_matrix(Qsim::new(0, 1, x.into(), y.into(), z.into()).unitary_matrix(), expected);
    assert_symbolic(Qsim::new(0, 1, "x".into(), "y".into(), "z".into()).unitary_matrix(), "x");
    assert_symbolic(Qsim::new(0, 1, x.into(), "y".into(), "z".into()).unitary_matrix(), "y");
    assert_symbolic(Qsim::new(0, 1, x.into(), y.into(), "z".into()).unitary_matrix(), "z");
}

#[test]
fn test_unitary_fsim() {
    let (t, u, d): (f64, f64, f64) = (0.4, -1.1, 2.3);
    let expected = vec![
        vec![c(d.cos(), 0.0), o(), o(), c(0.0, d.sin())],
        vec![o(), c(0.0, (-1.0) * t.sin()), c(t.cos(), 0.0), o()],
        vec![o(), c(t.cos(), 0.0), c(0.0, (-1.0) * t.sin()), o()],
        vec![
            c((-1.0) * d.sin() * u.sin(), (-1.0) * d.sin() * u.cos()),
            o(),
            o(),
            c((-1.0) * d.cos() * u.cos(), d.cos() * u.sin()),
        ],
    ];
    assert_matrix(Fsim::new(0, 1, t.into(), u.into(), d.into()).unitary_matrix(), expected);
    assert_symbolic(Fsim::new(0, 1, "t".into(), "u".into(), "d".into()).unitary_matrix(), "t");
    assert_symbolic(Fsim::new(0, 1, t.into(), "u".into(), "d".into()).unitary_matrix(), "u");
    assert_symbolic(Fsim::new(0, 1, t.into(), u.into(), "d".into()).unitary_matrix(), "d");
}

#[test]
fn test_unitary_spin_interaction() {
    let (x, y, z): (f64, f64, f64) = (0.5, 1.0, -0.7);
    let cm: f64 = (x - y).cos();
    let cp: f64 = (x + y).cos();
    let sm: f64 = (x - y).sin();
    let sp: f64 = (x + y).sin();
    let cz: f64 = z.cos();
    let sz: f64 = z.sin();
    let expected = vec![
        vec![c(cm * cz, (-1.0) * cm * sz), o(), o(), c((-1.0) * sm * sz, (-1.0) * sm * cz)],
        vec![o(), c(cp * cz, cp * sz), c(sp * sz, (-1.0) * sp * cz), o()],
        vec![o(), c(sp * sz, (-1.0) * sp * cz), c(cp * cz, cp * sz), o()],
        vec![c((-1.0) * sm * sz, (-1.0) * sm * cz), o(), o(), c(cm * cz, (-1.0) * cm * sz)],
    ];
    assert_matrix(
        SpinInteraction::new(0, 1, x.into(), y.into(), z.into()).unitary_matrix(),
        expected,
    );
    assert_symbolic(
        SpinInteraction::new(0, 1, x.into(), "y".into(), z.into()).unitary_matrix(),
        "y",
    );
}

#[test]
fn test_unitary_bogoliubov() {
    let (dr, di): (f64, f64) = (0.6, -0.9);
    let delta = Complex64::new(dr, di);
    let da: f64 = delta.norm();
    let dp: f64 = delta.arg();
    let expected = vec![
        vec![c(da.cos(), 0.0), o(), o(), c((-1.0) * da.sin() * dp.sin(), da.sin() * dp.cos())],
        vec![o(), l(), o(), o()],
        vec![o(), o(), l(), o()],
        vec![c(da.sin() * dp.sin(), da.sin() * dp.cos()), o(), o(), c(da.cos(), 0.0)],
    ];
    assert_matrix(Bogoliubov::new(0, 1, dr.into(), di.into()).unitary_matrix(), expected);
    assert_symbolic(Bogoliubov::new(0, 1, "dr".into(), "di".into()).unitary_matrix(), "dr");
    assert_symbolic(Bogoliubov::new(0, 1, dr.into(), "di".into()).unitary_matrix(), "di");
}

#[test]
fn test_unitary_pm_interaction() {
    let t: f64 = 0.9;
    let cos = t.cos();
    let sin = t.sin();
    let expected = vec![
        vec![l(), o(), o(), o()],
        vec![o(), c(cos, 0.0), c(0.0, (-1.0) * sin), o()],
        vec![o(), c(0.0, (-1.0) * sin), c(cos, 0.0), o()],
        vec![o(), o(), o(), l()],
    ];
    assert_matrix(PMInteraction::new(0, 1, t.into()).unitary_matrix(), expected);
    assert_symbolic(PMInteraction::new(0, 1, "t".into()).unitary_matrix(), "t");
}

#[test]
fn test_unitary_complex_pm_interaction() {
    let (tr, ti): (f64, f64) = (-0.3, 1.4);
    let t = Complex64::new(tr, ti);
    let tn: f64 = t.norm();
    let ta: f64 = t.arg();
    let expected = vec![
        vec![l(), o(), o(), o()],
        vec![
            o(),
            c(tn.cos(), 0.0),
            c((-1.0) * tn.sin() * ta.sin(), (-1.0) * tn.sin() * ta.cos()),
            o(),
        ],
        vec![o(), c(tn.sin() * ta.sin(), (-1.0) * tn.sin() * ta.cos()), c(tn.cos(), 0.0), o()],
        vec![o(), o(), o(), l()],
    ];
    assert_matrix(ComplexPMInteraction::new(0, 1, tr.into(), ti.into()).unitary_matrix(), expected);
    assert_symbolic(
        ComplexPMInteraction::new(0, 1, tr.into(), "ti".into()).unitary_matrix(),
        "ti",
    );
}

#[test]
fn test_unitary_phase_shifted_controlled_z() {
    let phi: f64 = 0.45;
    let cos: f64 = phi.cos();
    let sin: f64 = phi.sin();
    let cos2: f64 = (2.0 * phi - PI).cos();
    let sin2: f64 = (2.0 * phi - PI).sin();
    let expected = vec![
        vec![l(), o(), o(), o()],
        vec![o(), c(cos, sin), o(), o()],
        vec![o(), o(), c(cos, sin), o()],
        vec![o(), o(), o(), c(cos2, sin2)],
    ];
    assert_matrix(PhaseShiftedControlledZ::new(0, 1, phi.into()).unitary_matrix(), expected);
    assert_symbolic(PhaseShiftedControlledZ::new(0, 1, "phi".into()).unitary_matrix(), "phi");
}

#[test]
fn test_unitary_phase_shifted_controlled_z_without_shift() {
    let unit = entries(&PhaseShiftedControlledZ::new(2, 5, 0.0.into()).unitary_matrix().unwrap());
    let controlled_z = entries(&ControlledPauliZ::new(2, 5).unitary_matrix().unwrap());
    let diagonal = [l(), l(), l(), c(-1.0, 0.0)];
    for i in 0..4 {
        for j in 0..4 {
            let expected = if i == j { diagonal[i] } else { o() };
            assert!((unit[i][j] - expected).norm() < 1e-15);
            assert!((unit[i][j] - controlled_z[i][j]).norm() < 1e-15);
        }
    }
}

#[test]
fn test_matrix_accessors() {
    let unit = FSwap::new(0, 1).unitary_matrix().unwrap();
    assert_eq!(unit.dim(), 4);
    assert_eq!(unit.entry(3, 3).re, CalculatorFloat::from(-1.0));
    assert_eq!(unit.entry(3, 3).im, CalculatorFloat::ZERO);
    assert_eq!(unit.entry(1, 2).re, CalculatorFloat::ONE);
    assert_eq!(unit.entry(1, 1).re, CalculatorFloat::ZERO);
}
