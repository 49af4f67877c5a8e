//! Source synthesis for service clients. Given the description of a remote
//! service, its shapes and its operations, the crate emits the text of a
//! client module: the types, the capability interface and the client, with
//! the parts that depend on the wire protocol supplied by a backend.
//!
//! - `model` holds the shape graph and what each of its types stands for.
//! - `names` turns schema names into type names and field names.
//! - `ownership` says which types borrow from the payload, and `resolve`
//!   settles it for a whole service in one pass, cycles included.
//! - `types` resolves a shape to its type expression.
//! - `structs`, `emit` and `client` emit the parts of the module, and
//!   `pipeline` selects the backends and puts the parts in order.
//!
//! Every function states what it returns over the values that the types
//! stand for. Where a backend supplies text, the contract says which call
//! the text answers and where it is placed.

pub mod client;
pub mod emit;
pub mod error;
pub mod filter;
mod flags;
mod links;
mod marking;
pub mod model;
pub mod names;
mod nesting;
pub mod ownership;
pub mod pipeline;
pub mod protocol;
pub mod resolve;
pub mod structs;
pub mod templates;
pub mod text;
pub mod types;

pub use error::GenerateError;
pub use filter::TypeFilter;
pub use model::{Member, Operation, Service, Shape, ShapeType};
pub use names::{
    error_type_name, generate_field_name, mutate_type_name, mutate_type_name_for_streaming,
};
pub use ownership::Ownership;
pub use pipeline::{generate, generate_source, Backends};
pub use protocol::{ErrorStyle, GenerateErrorTypes, GenerateProtocol, Protocol};
pub use resolve::Memo;
pub use types::get_rust_type;
