//! Decoders for the markup and JSON payloads served by a gallery-indexing
//! web service.  Every entry point is a pure function from an input string
//! to a typed record or a typed error: the crate performs no I/O of its own.

pub mod date;
pub mod dom;
pub mod eh_url;
pub mod error;
pub mod jsonval;
pub mod parser;
pub mod request;
pub mod sentinel;
pub mod settings;
pub mod structures;
pub mod text;
