//! Parsing and validation of endpoint definition lists.
//!
//! A front end hands over a tree of literals ([`syntax::Expr`]); the
//! parser turns it into an ordered list of validated endpoint descriptors,
//! or into the first diagnostic it meets.

pub mod chain;
pub mod endpoint;
pub mod error;
pub mod field;
pub mod laws;
pub mod normalize;
pub mod parse;
pub mod record;
pub mod syntax;
pub mod text;
pub mod valid;

pub use crate::endpoint::Endpoint;
pub use crate::error::{ErrorKind, ParseError};
pub use crate::parse::parse_endpoints;
