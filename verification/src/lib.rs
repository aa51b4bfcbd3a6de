//! Type descriptions for a PDB symbol store, and the engine that turns them into
//! store requests without emitting the same type twice.
//!
//! A [`PDB`] session resolves a [`PDBType`] to a [`TypeRef`]: the code of a simple type, the
//! reference that its cache holds, or the reference to a type that the store is asked to
//! create. The session talks to no store. It queues [`Request`]s, and whoever owns the
//! store carries them out in order and hands the answers back.

pub mod cache;
pub mod descriptor;
pub mod error;
pub mod laws;
pub mod model;
pub mod names;
pub mod pdb_meta;
pub mod request;
pub mod session;
pub mod soundness;

pub use cache::TypeCache;
pub use descriptor::{PDBType, StructField};
pub use error::{Error, Stop, Unsupported};
pub use request::{Request, TypeRef};
pub use session::PDB;
