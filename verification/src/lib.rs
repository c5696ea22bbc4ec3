//! A tour of small, verified language-feature demonstrations.
//!
//! Each module holds a handful of standalone functions, one per feature:
//! bindings and scoping, numeric and compound types, control flow,
//! ownership and borrowing, structs, enums and matching, collections,
//! failure handling, and generics. Every demonstration carries its
//! assertions as statically checked facts, and every helper states its
//! behaviour in a contract.
pub mod basics;
pub mod collections;
pub mod control_flow;
pub mod datatypes;
pub mod enums;
pub mod errors;
pub mod generics;
pub mod ownership;
pub mod structs;
