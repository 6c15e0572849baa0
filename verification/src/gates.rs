//! The catalogue of two-qubit and multi-qubit gates, one module each.
pub mod bogoliubov;
pub mod cnot;
pub mod complex_pm_interaction;
pub mod controlled_pauli_y;
pub mod controlled_pauli_z;
pub mod controlled_phase_shift;
pub mod fsim;
pub mod fswap;
pub mod givens_rotation;
pub mod givens_rotation_little_endian;
pub mod inv_sqrt_iswap;
pub mod iswap;
pub mod molmer_sorensen_xx;
pub mod multi_cnot;
pub mod multi_qubit_ms;
pub mod multi_qubit_zz;
pub mod phase_shifted_controlled_z;
pub mod pm_interaction;
pub mod qsim;
pub mod spin_interaction;
pub mod sqrt_iswap;
pub mod swap;
pub mod variable_msxx;
pub mod xy;

pub use bogoliubov::Bogoliubov;
pub use cnot::CNOT;
pub use complex_pm_interaction::ComplexPMInteraction;
pub use controlled_pauli_y::ControlledPauliY;
pub use controlled_pauli_z::ControlledPauliZ;
pub use controlled_phase_shift::ControlledPhaseShift;
pub use fsim::Fsim;
pub use fswap::FSwap;
pub use givens_rotation::GivensRotation;
pub use givens_rotation_little_endian::GivensRotationLittleEndian;
pub use inv_sqrt_iswap::InvSqrtISwap;
pub use iswap::ISwap;
pub use molmer_sorensen_xx::MolmerSorensenXX;
pub use multi_cnot::MultiCNOT;
pub use multi_qubit_ms::MultiQubitMS;
pub use multi_qubit_zz::MultiQubitZZ;
pub use phase_shifted_controlled_z::PhaseShiftedControlledZ;
pub use pm_interaction::PMInteraction;
pub use qsim::Qsim;
pub use spin_interaction::SpinInteraction;
pub use sqrt_iswap::SqrtISwap;
pub use swap::SWAP;
pub use variable_msxx::VariableMSXX;
pub use xy::XY;
