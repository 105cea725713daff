//! A schema-less object graph store, without the engine.
//!
//! Every entity is a document: an identifier and a JSON value. Type, tags,
//! parent and links are ordinary members of that value, read by convention.
//! The store decides which statements go to the relational engine and what
//! its answers mean; whoever holds the connection carries them out.

pub mod codec;
pub mod error;
pub mod json;
pub mod object;
pub mod query;
pub mod statement;
pub mod store;
pub mod text;

pub use error::Error;
pub use json::Json;
pub use object::Object;
pub use query::Query;
pub use statement::Statement;
pub use store::{Action, Answer, Filter, Pending, Reply, Row, Stage, Step, Store};
