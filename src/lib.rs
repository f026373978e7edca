//! Generation of iCalendar (RFC 5545) text streams.
//!
//! The library turns a sequence of typed write calls (begin a component,
//! write a property, its parameters and its value) into correctly folded and
//! escaped content lines. Every layer is specified over the characters it
//! emits:
//!
//! - [`syntax`]: the character classes of the grammar, and octet counts;
//! - [`folding_writer`]: folding at 75 octets, between characters;
//! - [`text_writer`]: TEXT escaping;
//! - [`validating_writers`]: writers held to one grammar production;
//! - [`content_line`]: the name, parameters, value and CRLF of one line;
//! - [`composite`]: values of one item, tuples, lists, and the VALUE
//!   parameter of a value whose type is not its property's default;
//! - [`line_stream`], [`writer`], [`typed_writers`]: streams of lines,
//!   components and properties;
//! - [`structure`]: the names of components, properties, parameters and
//!   value types;
//! - [`value_types`], [`chrono_values`], [`jiff_values`]: the text of dates,
//!   times, periods and the other values.
use vstd::prelude::*;

pub mod syntax;
pub mod folding_writer;
pub mod text_writer;
pub mod validating_writers;
pub mod content_line;
pub mod composite;
pub mod line_stream;
pub mod structure;
pub mod writer;
pub mod value_types;
pub mod typed_writers;
pub mod chrono_values;
pub mod jiff_values;

verus! {

/// The one failure that writing can meet: a character that the grammar
/// production being written does not allow.
#[derive(Debug, Clone, Copy, PartialEq, Eq, Structural)]
pub struct FormatError;

} // verus!
