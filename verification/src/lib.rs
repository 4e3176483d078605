//! Typed marshaling of metadata-index attributes and a driver-independent
//! query protocol over an index of items.
//!
//! The index itself is a service outside this crate. A caller performs each
//! operation that a session asks for and reports what the index answered;
//! every decision taken on those answers is made, and proved, here.

pub mod error;
pub mod ext;
pub mod from_objc;
pub mod index;
pub mod lookup_proofs;
pub mod mds;
pub mod prelude;
pub mod query_proofs;
pub mod spotlight;
pub mod text;
pub mod value;
