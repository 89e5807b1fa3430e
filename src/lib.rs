//! Pattern matching over text, and a generic tagged-value view of a
//! pattern's parsed syntax tree.

pub mod tree;
pub mod error;
pub mod pattern;
pub mod syntax;
pub mod value;

pub use error::PatternError;
pub use pattern::{matches_value, option, string_value, strings_value, Match, RRegExp};
pub use syntax::{
    AnchorKind, ByteRange, ClassValue, GroupRole, LiteralValue, RepeatBounds, RepeatKind,
    SyntaxNode, UnicodeRange, WordBoundaryKind,
};
pub use tree::parse;
pub use value::Value;
