//! Tests of what every two-qubit gate operation offers besides its matrix and
//! its decomposition: names, qubits, parameters, substitution, remapping and
//! powers.

use qoqo_calculator::{Calculator, CalculatorError, CalculatorFloat};
use qubit_gates::error::RoqoqoError;
use qubit_gates::gates::bogoliubov::Bogoliubov;
use qubit_gates::gates::cnot::CNOT;
use qubit_gates::gates::complex_pm_interaction::ComplexPMInteraction;
use qubit_gates::gates::controlled_pauli_y::ControlledPauliY;
use qubit_gates::gates::controlled_pauli_z::ControlledPauliZ;
use qubit_gates::gates::controlled_phase_shift::ControlledPhaseShift;
use qubit_gates::gates::fsim::Fsim;
use qubit_gates::gates::fswap::FSwap;
use qubit_gates::gates::givens_rotation::GivensRotation;
use qubit_gates::gates::givens_rotation_little_endian::GivensRotationLittleEndian;
use qubit_gates::gates::inv_sqrt_iswap::InvSqrtISwap;
use qubit_gates::gates::iswap::ISwap;
use qubit_gates::gates::molmer_sorensen_xx::MolmerSorensenXX;
use qubit_gates::gates::phase_shifted_controlled_z::PhaseShiftedControlledZ;
use qubit_gates::gates::pm_interaction::PMInteraction;
use qubit_gates::gates::qsim::Qsim;
use qubit_gates::gates::spin_interaction::SpinInteraction;
use qubit_gates::gates::sqrt_iswap::SqrtISwap;
use qubit_gates::gates::swap::SWAP;
use qubit_gates::gates::variable_msxx::VariableMSXX;
use qubit_gates::gates::xy::XY;
use qubit_gates::operate::{InvolveQubits, Operate, OperateTwoQubit, Rotate, Substitute};
use std::collections::{HashMap, HashSet};

fn plain(name: &'static str) -> Vec<&'static str> {
    vec!["Operation", "GateOperation", "TwoQubitGateOperation", name]
}

fn rotation(name: &'static str) -> Vec<&'static str> {
    vec!["Operation", "GateOperation", "TwoQubitGateOperation", "Rotation", name]
}

fn check_names(hqslang: &str, tags: Vec<&'static str>, expected: Vec<&'static str>) {
    assert_eq!(tags, expected);
    assert_eq!(&tags[0..2], &["Operation", "GateOperation"]);
    assert_eq!(*tags.last().unwrap(), hqslang);
}

fn x() -> CalculatorFloat {
    CalculatorFloat::from(0.25)
}

#[test]
fn test_names_of_gates_without_parameters() {
    let g = CNOT::new(0, 1);
    assert_eq!(g.hqslang(), "CNOT");
    check_names(g.hqslang(), g.tags(), plain("CNOT"));
    let g = SWAP::new(0, 1);
    assert_eq!(g.hqslang(), "SWAP");
    check_names(g.hqslang(), g.tags(), plain("SWAP"));
    let g = ISwap::new(0, 1);
    assert_eq!(g.hqslang(), "ISwap");
    check_names(g.hqslang(), g.tags(), plain("ISwap"));
    let g = FSwap::new(0, 1);
    assert_eq!(g.hqslang(), "FSwap");
    check_names(g.hqslang(), g.tags(), plain("FSwap"));
    let g = SqrtISwap::new(0, 1);
    assert_eq!(g.hqslang(), "SqrtISwap");
    check_names(g.hqslang(), g.tags(), plain("SqrtISwap"));
    let g = InvSqrtISwap::new(0, 1);
    assert_eq!(g.hqslang(), "InvSqrtISwap");
    check_names(g.hqslang(), g.tags(), plain("InvSqrtISwap"));
    let g = ControlledPauliY::new(0, 1);
    assert_eq!(g.hqslang(), "ControlledPauliY");
    check_names(g.hqslang(), g.tags(), plain("ControlledPauliY"));
    let g = ControlledPauliZ::new(0, 1);
    assert_eq!(g.hqslang(), "ControlledPauliZ");
    check_names(g.hqslang(), g.tags(), plain("ControlledPauliZ"));
    let g = MolmerSorensenXX::new(0, 1);
    assert_eq!(g.hqslang(), "MolmerSorensenXX");
    check_names(g.hqslang(), g.tags(), plain("MolmerSorensenXX"));
}

#[test]
fn test_names_of_rotations() {
    let g = XY::new(0, 1, x());
    assert_eq!(g.hqslang(), "XY");
    check_names(g.hqslang(), g.tags(), rotation("XY"));
    let g = ControlledPhaseShift::new(0, 1, x());
    assert_eq!(g.hqslang(), "ControlledPhaseShift");
    check_names(g.hqslang(), g.tags(), rotation("ControlledPhaseShift"));
    let g = VariableMSXX::new(0, 1, x());
    assert_eq!(g.hqslang(), "VariableMSXX");
    check_names(g.hqslang(), g.tags(), rotation("VariableMSXX"));
    let g = GivensRotation::new(0, 1, x(), x());
    assert_eq!(g.hqslang(), "GivensRotation");
    check_names(g.hqslang(), g.tags(), rotation("GivensRotation"));
    let g = GivensRotationLittleEndian::new(0, 1, x(), x());
    assert_eq!(g.hqslang(), "GivensRotationLittleEndian");
    check_names(g.hqslang(), g.tags(), rotation("GivensRotationLittleEndian"));
}

#[test]
fn test_names_of_interactions() {
    let g = Qsim::new(0, 1, x(), x(), x());
    assert_eq!(g.hqslang(), "Qsim");
    check_names(g.hqslang(), g.tags(), plain("Qsim"));
    let g = Fsim::new(0, 1, x(), x(), x());
    assert_eq!(g.hqslang(), "Fsim");
    check_names(g.hqslang(), g.tags(), plain("Fsim"));
    let g = SpinInteraction::new(0, 1, x(), x(), x());
    assert_eq!(g.hqslang(), "SpinInteraction");
    check_names(g.hqslang(), g.tags(), plain("SpinInteraction"));
    let g = Bogoliubov::new(0, 1, x(), x());
    assert_eq!(g.hqslang(), "Bogoliubov");
    check_names(g.hqslang(), g.tags(), plain("Bogoliubov"));
    let g = PMInteraction::new(0, 1, x());
    assert_eq!(g.hqslang(), "PMInteraction");
    check_names(g.hqslang(), g.tags(), plain("PMInteraction"));
    let g = ComplexPMInteraction::new(0, 1, x(), x());
    assert_eq!(g.hqslang(), "ComplexPMInteraction");
    check_names(g.hqslang(), g.tags(), plain("ComplexPMInteraction"));
    let g = PhaseShiftedControlledZ::new(0, 1, x());
    assert_eq!(g.hqslang(), "PhaseShiftedControlledZ");
    check_names(g.hqslang(), g.tags(), plain("PhaseShiftedControlledZ"));
}

#[test]
fn test_fields() {
    let g = Fsim::new(3, 5, 0.1.into(), "u".into(), 0.3.into());
    assert_eq!(g.control(), &3);
    assert_eq!(g.target(), &5);
    assert_eq!(g.t(), &CalculatorFloat::from(0.1));
    assert_eq!(g.u(), &CalculatorFloat::from("u"));
    assert_eq!(g.delta(), &CalculatorFloat::from(0.3));
    let g = Bogoliubov::new(1, 0, 0.5.into(), 0.75.into());
    assert_eq!(g.delta_real(), &CalculatorFloat::from(0.5));
    assert_eq!(g.delta_imag(), &CalculatorFloat::from(0.75));
    let g = ComplexPMInteraction::new(1, 0, 0.5.into(), 0.75.into());
    assert_eq!(g.t_real(), &CalculatorFloat::from(0.5));
    assert_eq!(g.t_imag(), &CalculatorFloat::from(0.75));
    let g = GivensRotation::new(1, 0, 0.5.into(), 0.75.into());
    assert_eq!(g.theta(), &CalculatorFloat::from(0.5));
    assert_eq!(g.phi(), &CalculatorFloat::from(0.75));
    let g = Qsim::new(1, 0, 1.0.into(), 2.0.into(), 3.0.into());
    assert_eq!((g.x(), g.y(), g.z()), (&1.0.into(), &2.0.into(), &3.0.into()));
    let g = CNOT::new(7, 2);
    assert_eq!((g.control(), g.target()), (&7, &2));
}

#[test]
fn test_clone_and_equality() {
    let g = XY::new(0, 1, "theta".into());
    assert_eq!(g.clone(), g);
    assert_ne!(g, XY::new(0, 1, 0.5.into()));
    assert_ne!(g, XY::new(1, 0, "theta".into()));
    let g = SWAP::new(0, 1);
    assert_eq!(g.clone(), g);
    assert_ne!(g, SWAP::new(0, 2));
}

#[test]
fn test_equality_compares_every_field() {
    let gate = Fsim::new(0, 1, 0.1.into(), "u".into(), 0.3.into());
    assert_eq!(gate, Fsim::new(0, 1, 0.1.into(), "u".into(), 0.3.into()));
    assert_ne!(gate, Fsim::new(2, 1, 0.1.into(), "u".into(), 0.3.into()));
    assert_ne!(gate, Fsim::new(0, 2, 0.1.into(), "u".into(), 0.3.into()));
    assert_ne!(gate, Fsim::new(0, 1, 0.2.into(), "u".into(), 0.3.into()));
    assert_ne!(gate, Fsim::new(0, 1, 0.1.into(), "v".into(), 0.3.into()));
    assert_ne!(gate, Fsim::new(0, 1, 0.1.into(), 0.5.into(), 0.3.into()));
    assert_ne!(gate, Fsim::new(0, 1, 0.1.into(), "u".into(), 0.4.into()));
    assert_eq!(CNOT::new(3, 4), CNOT::new(3, 4));
    assert_ne!(CNOT::new(3, 4), CNOT::new(4, 3));
}

#[test]
fn test_equality_of_numbers() {
    assert_eq!(XY::new(0, 1, 0.0.into()), XY::new(0, 1, (-0.0).into()));
    assert_ne!(XY::new(0, 1, f64::NAN.into()), XY::new(0, 1, f64::NAN.into()));
    assert_eq!(XY::new(0, 1, f64::INFINITY.into()), XY::new(0, 1, f64::INFINITY.into()));
    assert_ne!(XY::new(0, 1, 1.0.into()), XY::new(0, 1, "1.0 ".into()));
    assert_eq!(XY::new(0, 1, 1.0.into()), XY::new(0, 1, "1.0".into()));
}

#[test]
fn test_debug_format() {
    let text = format!("{:?}", PhaseShiftedControlledZ::new(0, 1, "phase".into()));
    assert!(text.contains("PhaseShiftedControlledZ"));
    assert!(text.contains("phase"));
    let text = format!("{:?}", CNOT::new(0, 1));
    assert!(text.contains("CNOT"));
}

#[test]
fn test_involved_qubits_of_two_qubit_gates() {
    let expected: HashSet<usize> = [4, 9].into_iter().collect();
    assert_eq!(CNOT::new(4, 9).involved_qubits(), expected);
    assert_eq!(XY::new(9, 4, x()).involved_qubits(), expected);
    assert_eq!(Qsim::new(4, 9, x(), x(), x()).involved_qubits(), expected);
    let single: HashSet<usize> = [3].into_iter().collect();
    assert_eq!(SWAP::new(3, 3).involved_qubits(), single);
}

#[test]
fn test_is_parametrized() {
    assert!(!CNOT::new(0, 1).is_parametrized());
    assert!(!MolmerSorensenXX::new(0, 1).is_parametrized());
    assert!(!XY::new(0, 1, 0.5.into()).is_parametrized());
    assert!(XY::new(0, 1, "theta".into()).is_parametrized());
    assert!(!Qsim::new(0, 1, 0.1.into(), 0.2.into(), 0.3.into()).is_parametrized());
    assert!(Qsim::new(0, 1, "x".into(), 0.2.into(), 0.3.into()).is_parametrized());
    assert!(Qsim::new(0, 1, 0.1.into(), "y".into(), 0.3.into()).is_parametrized());
    assert!(Qsim::new(0, 1, 0.1.into(), 0.2.into(), "z".into()).is_parametrized());
    assert!(Bogoliubov::new(0, 1, 0.1.into(), "di".into()).is_parametrized());
    assert!(GivensRotation::new(0, 1, 0.1.into(), "phi".into()).is_parametrized());
}

fn cycle() -> HashMap<usize, usize> {
    [(0, 1), (1, 2), (2, 0)].into_iter().collect()
}

#[test]
fn test_remap_qubits() {
    let mapping = cycle();
    assert_eq!(CNOT::new(0, 1).remap_qubits(&mapping), Ok(CNOT::new(1, 2)));
    assert_eq!(SWAP::new(2, 0).remap_qubits(&mapping), Ok(SWAP::new(0, 1)));
    assert_eq!(
        Fsim::new(1, 2, "t".into(), 0.2.into(), 0.3.into()).remap_qubits(&mapping),
        Ok(Fsim::new(2, 0, "t".into(), 0.2.into(), 0.3.into()))
    );
    assert_eq!(
        GivensRotation::new(2, 1, 0.2.into(), "phi".into()).remap_qubits(&mapping),
        Ok(GivensRotation::new(0, 2, 0.2.into(), "phi".into()))
    );
}

#[test]
fn test_remap_qubits_with_missing_qubit() {
    let mapping: HashMap<usize, usize> = [(1, 2), (2, 0)].into_iter().collect();
    assert_eq!(
        CNOT::new(0, 1).remap_qubits(&mapping),
        Err(RoqoqoError::QubitMappingError { qubit: 0 })
    );
    assert_eq!(
        XY::new(1, 5, x()).remap_qubits(&mapping),
        Err(RoqoqoError::QubitMappingError { qubit: 5 })
    );
    assert_eq!(
        Qsim::new(7, 5, x(), x(), x()).remap_qubits(&mapping),
        Err(RoqoqoError::QubitMappingError { qubit: 7 })
    );
    assert_eq!(
        SWAP::new(0, 1).remap_qubits(&HashMap::new()),
        Err(RoqoqoError::QubitMappingError { qubit: 0 })
    );
}

#[test]
fn test_remap_and_involved_qubits_agree() {
    let mapping: HashMap<usize, usize> = [(0, 5), (1, 5), (2, 0)].into_iter().collect();
    let gate = ControlledPhaseShift::new(0, 2, x());
    let image: HashSet<usize> =
        gate.involved_qubits().iter().map(|qubit| mapping[qubit]).collect();
    assert_eq!(gate.remap_qubits(&mapping).unwrap().involved_qubits(), image);
    let gate = ISwap::new(0, 1);
    let image: HashSet<usize> =
        gate.involved_qubits().iter().map(|qubit| mapping[qubit]).collect();
    assert_eq!(image.len(), 1);
    assert_eq!(gate.remap_qubits(&mapping).unwrap().involved_qubits(), image);
}

#[test]
fn test_substitute_parameters() {
    let mut calculator = Calculator::new();
    calculator.set_variable("theta", 0.5);
    calculator.set_variable("phi", 2.0);
    assert_eq!(
        XY::new(0, 1, "theta".into()).substitute_parameters(&calculator),
        Ok(XY::new(0, 1, 0.5.into()))
    );
    assert_eq!(
        GivensRotation::new(0, 1, "2 * theta".into(), "phi + 1".into())
            .substitute_parameters(&calculator),
        Ok(GivensRotation::new(0, 1, 1.0.into(), 3.0.into()))
    );
    assert_eq!(
        Qsim::new(0, 1, "theta".into(), 0.25.into(), "phi".into())
            .substitute_parameters(&calculator),
        Ok(Qsim::new(0, 1, 0.5.into(), 0.25.into(), 2.0.into()))
    );
    assert_eq!(CNOT::new(0, 1).substitute_parameters(&calculator), Ok(CNOT::new(0, 1)));
}

#[test]
fn test_substitute_parameters_without_symbols_is_identity() {
    let calculator = Calculator::new();
    let gate = Fsim::new(0, 1, 0.1.into(), 0.2.into(), 0.3.into());
    assert_eq!(gate.substitute_parameters(&calculator), Ok(gate.clone()));
    let gate = Bogoliubov::new(0, 1, (-0.1).into(), 0.0.into());
    assert_eq!(gate.substitute_parameters(&calculator), Ok(gate.clone()));
    let gate = MolmerSorensenXX::new(3, 4);
    assert_eq!(gate.substitute_parameters(&calculator), Ok(gate.clone()));
}

#[test]
fn test_substitute_parameters_with_missing_variable() {
    let mut calculator = Calculator::new();
    calculator.set_variable("x", 0.5);
    assert_eq!(
        PMInteraction::new(0, 1, "t".into()).substitute_parameters(&calculator),
        Err(RoqoqoError::CalculatorError(CalculatorError::VariableNotSet {
            name: "t".to_string()
        }))
    );
    assert_eq!(
        SpinInteraction::new(0, 1, "x".into(), "y".into(), "z".into())
            .substitute_parameters(&calculator),
        Err(RoqoqoError::CalculatorError(CalculatorError::VariableNotSet {
            name: "y".to_string()
        }))
    );
}

#[test]
fn test_powercf() {
    let gate = XY::new(0, 1, 0.5.into());
    assert_eq!(gate.powercf(3.0.into()), XY::new(0, 1, 1.5.into()));
    assert_eq!(gate.powercf("p".into()), XY::new(0, 1, "(p * 5e-1)".into()));
    let gate = GivensRotation::new(0, 1, "theta".into(), "phi".into());
    assert_eq!(
        gate.powercf(2.0.into()),
        GivensRotation::new(0, 1, "(2e0 * theta)".into(), "phi".into())
    );
    let gate = VariableMSXX::new(2, 1, (-0.5).into());
    assert_eq!(gate.powercf((-2.0).into()).theta(), &CalculatorFloat::from(1.0));
    let gate = ControlledPhaseShift::new(2, 1, 0.25.into());
    assert_eq!(gate.powercf(0.5.into()).theta(), &CalculatorFloat::from(0.125));
    let gate = GivensRotationLittleEndian::new(2, 1, 0.25.into(), 0.7.into());
    assert_eq!(
        gate.powercf(4.0.into()),
        GivensRotationLittleEndian::new(2, 1, 1.0.into(), 0.7.into())
    );
}

#[test]
fn test_powercf_with_power_one_and_zero() {
    for theta in [CalculatorFloat::from(0.3), CalculatorFloat::from(-7.5), "theta".into()] {
        let gate = XY::new(0, 1, theta.clone());
        assert_eq!(gate.powercf(1.0.into()), gate);
        assert_eq!(gate.powercf(0.0.into()).theta(), &CalculatorFloat::from(0.0));
        let gate = GivensRotation::new(0, 1, theta.clone(), 0.2.into());
        assert_eq!(gate.powercf(CalculatorFloat::ONE), gate);
        assert_eq!(gate.powercf(CalculatorFloat::ZERO).theta(), &CalculatorFloat::ZERO);
    }
}

#[test]
fn test_angles_of_the_matrices() {
    assert_eq!(XY::new(0, 1, 0.5.into()).half_angle(), Ok(CalculatorFloat::from(0.25)));
    assert_eq!(VariableMSXX::new(0, 1, 3.0.into()).half_angle(), Ok(CalculatorFloat::from(1.5)));
    assert_eq!(
        Qsim::new(0, 1, 0.5.into(), 0.25.into(), "z".into()).mixing_angles(),
        Ok((CalculatorFloat::from(0.25), CalculatorFloat::from(0.75)))
    );
    assert_eq!(
        SpinInteraction::new(0, 1, 1.0.into(), 3.0.into(), 0.0.into()).mixing_angles(),
        Ok((CalculatorFloat::from(-2.0), CalculatorFloat::from(4.0)))
    );
    assert_eq!(
        PhaseShiftedControlledZ::new(0, 1, 1.0.into()).shifted_angle(),
        Ok(CalculatorFloat::from(2.0 - std::f64::consts::PI))
    );
    assert_eq!(
        XY::new(0, 1, "theta".into()).half_angle(),
        Err(RoqoqoError::CalculatorError(CalculatorError::FloatSymbolicNotConvertable {
            val: "theta".to_string()
        }))
    );
    assert_eq!(
        Qsim::new(0, 1, 0.5.into(), "y".into(), 0.0.into()).mixing_angles(),
        Err(RoqoqoError::CalculatorError(CalculatorError::FloatSymbolicNotConvertable {
            val: "y".to_string()
        }))
    );
}

#[test]
fn test_matrix_of_cosines_and_sines() {
    let unit = XY::matrix_of(&0.5.into(), &0.25.into());
    assert_eq!(unit.entry(1, 1).re, CalculatorFloat::from(0.5));
    assert_eq!(unit.entry(1, 2).im, CalculatorFloat::from(0.25));
    assert_eq!(unit.entry(2, 1).im, CalculatorFloat::from(0.25));
    assert_eq!(unit.entry(2, 2).re, CalculatorFloat::from(0.5));
    let unit = GivensRotation::matrix_of(&2.0.into(), &3.0.into(), &5.0.into(), &7.0.into());
    assert_eq!(unit.entry(1, 1).re, CalculatorFloat::from(10.0));
    assert_eq!(unit.entry(1, 1).im, CalculatorFloat::from(14.0));
    assert_eq!(unit.entry(1, 2).re, CalculatorFloat::from(3.0));
    assert_eq!(unit.entry(2, 1).re, CalculatorFloat::from(-15.0));
    assert_eq!(unit.entry(2, 1).im, CalculatorFloat::from(-21.0));
    assert_eq!(unit.entry(2, 2).re, CalculatorFloat::from(2.0));
    assert_eq!(unit.entry(3, 3).re, CalculatorFloat::from(5.0));
    assert_eq!(unit.entry(3, 3).im, CalculatorFloat::from(7.0));
}
