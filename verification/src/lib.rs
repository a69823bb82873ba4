//! A small language for describing the buttons of a chat message.
//!
//! A description such as `btn!("ok") => emoji!('✔') "Confirm"` is read from
//! a sequence of tokens into a [`component::Component`], and written back out
//! as the tokens of an expression that builds the button. A list of
//! descriptions is packed into rows of at most five controls each.
//!
//! - [`token`]: the tokens, and [`render`]: their source text;
//! - [`component`]: what a description says;
//! - [`grammar`]: what is read from which tokens, and [`parse`]: the reader;
//! - [`emit`]: what is written for a component, and the writer;
//! - [`rows`]: the packing of controls into rows;
//! - [`components`]: lists of components and the two entry points;
//! - [`laws`]: what holds of reading and writing taken together;
//! - [`syntax`]: the questions put to `syn` and `proc-macro2`, whose answers
//!   are trusted.

pub mod component;
pub mod components;
pub mod emit;
pub mod grammar;
pub mod laws;
pub mod parse;
pub mod render;
pub mod rows;
pub mod syntax;
pub mod token;
