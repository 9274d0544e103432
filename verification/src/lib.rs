//! A verified core of an object-relational mapping layer.
//!
//! Application code describes tables as entity descriptors, builds SQL
//! statements (select / insert / update, with joins and filters) through a
//! fluent API over a typed statement model, and interprets execution results
//! handed back by a database driver.  The wire-level SQL rendering is done by
//! the `sea_query` crate behind a small set of trusted bindings; everything
//! that decides *what* is rendered is verified here.

pub mod value;
pub mod active_model;
pub mod expr;
pub mod error;
pub mod relation;
pub mod select;
pub mod entity;
pub mod views;
pub mod insert;
pub mod statement;
pub mod update;
pub mod sq;
pub mod render;
pub mod text;
pub mod driver;
pub mod transformer;
pub mod laws;

use vstd::prelude::*;

verus! {

} // verus!
