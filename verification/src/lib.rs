//! Lexical front end of a small scripting language: an immutable source
//! buffer indexed by Unicode scalar values, spans over that buffer, a
//! cursor-driven token scanner, and the structured diagnostics that every
//! scanning failure produces.

pub mod scanning;
