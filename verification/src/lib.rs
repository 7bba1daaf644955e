//! An interactive, keyboard-driven lookup tool over a fixed in-memory catalog
//! of Vim reference entries. The verified core is the filter/selection engine:
//! a mutable query string deterministically produces an ordered, reduced view
//! of the catalog, and the selection index stays consistent as that view
//! changes and as the user navigates it. Terminal input and rendering are
//! external collaborators that consume read-only view snapshots.

pub mod catalog;
pub mod engine;
pub mod filter;
pub mod text;
