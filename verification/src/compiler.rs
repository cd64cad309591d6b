//! The script compiler: expression model and abstract syntax tree,
//! grammar and parser, dispatch of statements into abstract commands, and
//! the stepping state machine.
pub mod ast;
pub mod calling;
pub mod controller;
pub mod grammar;
