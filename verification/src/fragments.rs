//! The placeholder values that the generator's templates are filled with,
//! computed from an entity's fields.
pub mod backend;
pub mod classes;
pub mod compile;
pub mod lookups;
pub mod web;
pub mod mobile;
