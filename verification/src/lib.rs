//! A vending machine whose commercial operations are gated by two orthogonal
//! axes: who is operating it (guest, administrator, supplier) and whether it
//! is locked for maintenance. The engine state is carried in the type of the
//! machine value, so that each operation is only callable from the states in
//! which it is legal; transitions consume the machine and return a new one.

pub mod application;
pub mod commands;
pub mod domain;
pub mod in_memory;
pub mod interfaces;
pub mod states;
pub mod text;
pub mod transitions;
