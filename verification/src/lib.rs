//! A generic, safety-constrained data-access layer over an embedded SQLite
//! store: table-agnostic CRUD, many-to-many linking, a read-only aggregate
//! gateway, and bulk snapshot export/import, all built by a verified query
//! constructor that keeps untrusted text out of identifier positions and
//! binds every value as a parameter.

pub mod builder;
pub mod err;
pub mod gateway;
pub mod ident;
pub mod laws;
pub mod ops;
pub mod snapshot;
pub mod text;
pub mod trusted;
pub mod value;

use vstd::prelude::*;

verus! {

} // verus!
