pub mod ast;
pub mod scope;
pub mod model;
pub mod copy;
pub mod report;
pub mod semantics;
pub mod analysis;
pub mod laws;
pub mod unresolved;
pub mod reanalysis;
pub mod binding;
