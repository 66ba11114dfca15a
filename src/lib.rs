//! Detection of `Drop` implementations whose body does nothing.
//!
//! The host compiler hands over each top-level declaration as a value of the
//! tree model in [`hir`]; [`empty_drop::EmptyDrop::check_item`] decides
//! whether it is an empty destructor and, if so, returns the finding to emit.
pub mod empty_drop;
pub mod hir;
