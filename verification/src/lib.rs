//! A compiler and interpreter for a small stack language: the lexer and the
//! parser, the intermediate representation, the interpreter as a machine
//! that its host drives, and two generators of x86_64 assembly for Linux.

#![allow(nonstandard_style)]

pub mod backend;
pub mod engine;
pub mod interp;
pub mod ir;
pub mod laws;
pub mod syntax;
pub mod templates;
pub mod text;

pub use ir::{EIrInstr, EType};
