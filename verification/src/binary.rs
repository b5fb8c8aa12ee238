//! Binary decoding infrastructure: the bounds-checked [`Decoder`] cursor,
//! the decode [`Error`] taxonomy, and the chunk-dispatch [`Parser`] that
//! drives a [`Consumer`].

pub mod decoder;
pub mod error;
pub mod parser;

pub use decoder::Decoder;
pub use error::Error;
pub use parser::{Action, Consumer, Parser, State};
