//! Assignment-level expression parsing for a C-family scripting language.
//!
//! A stream of lexical tokens ([`cursor::Cursor`]) is turned into a syntax
//! tree ([`node::Node`]) for one assignment expression: an arrow function,
//! chosen by looking at most two tokens ahead, or an operand followed by at
//! most one right-associative assignment or compound-assignment operator.
//! The grammar is written as spec functions in [`grammar`]; every parser is
//! proved to build exactly the tree, and leave exactly the stream, that the
//! grammar gives. [`laws`] states and proves properties of that grammar.
pub mod token;
pub mod node;
pub mod cursor;
pub mod grammar;
pub mod operand;
pub mod arrow;
pub mod assignment;
pub mod printer;
pub mod laws;
