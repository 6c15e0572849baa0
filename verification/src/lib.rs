//! Two-qubit and multi-qubit quantum gate operations.
//!
//! Every gate is a plain record of its qubits and its parameters. It knows
//! its name and tags, the qubits it involves, whether a parameter is
//! symbolic, how to substitute parameters and remap qubits, and its unitary
//! matrix. Two-qubit gates also give their KAK decomposition, multi-qubit
//! gates the circuit of one- and two-qubit gates that they compile to.
//!
//! Parameters are scalars of `qoqo_calculator`, numbers or symbolic
//! expressions; all arithmetic on them is done by that crate. The contracts
//! of this crate are stated over what the scalars hold ([`scalar::Scalar`]) and
//! are checked by Verus.
pub mod circuit;
pub mod compile;
pub mod error;
pub mod gates;
pub mod kak;
pub mod matrix;
pub mod operate;
pub mod qubits;
pub mod scalar;
pub mod substitution;
pub mod tags;
