//! Validation of email addresses: a single left-to-right scan that accepts a
//! well-formed address or reports the first rule that it breaks.

pub mod ascii;
mod error;
pub mod laws;
mod parser;
pub mod rules;

pub use ascii::AsciiError;
pub use error::ParseError;
pub use parser::{is_valid_email, parse_email};
