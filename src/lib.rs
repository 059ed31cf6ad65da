//! Lexical front end of a small command language: an addressing model for
//! reference values, a token algebra, and a vocabulary of pattern matchers
//! that classifies the word fragments of a source text.
pub mod id;
pub mod matcher;
pub mod number;
pub mod token;
pub mod vocabulary;
pub mod bot;
pub mod laws;
