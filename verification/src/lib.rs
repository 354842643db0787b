//! Records of the TSK 3.x body file format.
//!
//! A body file is a pipe-delimited text file that holds one line per
//! filesystem object. This crate models a single line, [`Bodyfile3Line`],
//! and renders it as text.
//!
//! - [`bodyfile3`] holds the line, its constructors, setters and getters,
//!   and its rendering;
//! - [`model`] says what a line is as a mathematical value and what its
//!   text is;
//! - [`decimal`] writes numbers in base 10;
//! - [`chars`] counts a character in a text and cuts a text at it;
//! - [`laws`] proves what holds of every line.

pub mod bodyfile3;
pub mod chars;
pub mod decimal;
pub mod laws;
pub mod model;

pub use bodyfile3::Bodyfile3Line;
