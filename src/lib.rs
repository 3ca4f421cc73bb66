//! Turns a structured description of a memory-mapped peripheral (registers,
//! bit fields, access modes, reset values) into a sequence of structured code
//! fragments: the peripheral's layout with padding, one wrapper type per
//! register, and read / write accessors for its fields.
pub mod bits;
pub mod width;
pub mod model;
pub mod naming;
pub mod error;
pub mod access;
pub mod fragment;
pub mod codegen;
pub mod peripheral;
