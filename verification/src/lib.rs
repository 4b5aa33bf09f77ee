//! A lossless concrete syntax tree for a protocol-buffer style schema
//! language: every token, separator and comment is kept, so that spans,
//! comments and the source text itself can always be derived from the tree.

pub mod error;
pub mod source_pos;
pub mod node;
pub mod identifiers;
pub mod values;
pub mod options;
pub mod enums;
pub mod message;
pub mod elements;
