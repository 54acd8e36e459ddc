//! The submitting side: builders for the instructions that the program takes.

pub mod state;
