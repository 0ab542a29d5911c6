//! Ownership-safe handles over a C-style WebAssembly engine interface.
//!
//! A handle engine hands out opaque references to parsed modules and
//! instantiated instances, and expects each one to be released exactly once.
//! Nothing in such an interface stops a caller from releasing a handle twice,
//! releasing one the engine already took back, or instantiating a module that
//! was already consumed. This crate wraps the interface in types that make
//! those misuses unrepresentable: `Module` owns a parsed module until it is
//! released or consumed by instantiation, and `Instance` owns an instantiated
//! module until it is released.
//!
//! The engine itself is `Engine`: a reference model of the raw interface that
//! tracks which handles are live and counts the release calls it has served,
//! so that the exactly-once discipline is both proved and observable.

mod engine;
mod handles;
mod validation;

pub use engine::Engine;
pub use handles::parse;
pub use handles::Instance;
pub use handles::Module;
pub use validation::valid_preamble;
pub use validation::validate;
