//! A verified core for a Move bytecode assembler and disassembler.
//!
//! The library holds a plain-value model of compiled Move modules and scripts
//! ([`model`]), the textual syntax of single instructions ([`bytecode`]) with
//! its decimal operands ([`text`], [`u256`]), and the conversion of a module
//! or script to and from its assembly listing ([`listing`]), where every
//! instruction is a line of text.
pub mod text;
pub mod u256;
pub mod bytecode;
pub mod model;
pub mod listing;
