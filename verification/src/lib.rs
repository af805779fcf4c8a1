//! A parser-combinator engine with a document grammar built on it, and a small
//! evaluator for sequence constructors.

pub mod repr;
pub mod text;
pub mod qname;
pub mod item;
pub mod xdmerror;
pub mod evaluate;
pub mod parser;
