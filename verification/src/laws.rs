//! What holds across operations.

pub mod checks;
pub mod creation;
pub mod numbers;
pub mod pointer;
pub mod shell;
pub mod states;
pub mod views;
pub mod windows;
