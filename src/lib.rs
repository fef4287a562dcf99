//! Identifier value types of a trading domain model: account, component,
//! instrument symbol and venue. Each wraps one owned UTF-8 text with value
//! semantics: equality of text, a hash of the text alone, verbatim rendering,
//! and deep copies.
pub mod account_id;
pub mod component_id;
pub mod symbol;
pub mod text;
pub mod venue;
