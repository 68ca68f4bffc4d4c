//! Typed configuration for a developer tool.
//!
//! A [`Schema`] is a list of declared options; each has a name, a kind of
//! value, a default, and lines of help. From a schema come
//!
//! - the record of defaults ([`Schema::defaults`]),
//! - the sparse [`Overlay`] that a TOML document gives
//!   ([`Schema::parse_overlay`]): one slot per option, filled where the
//!   document names the option,
//! - the full [`Record`] of an overlay merged onto the defaults ([`merge`],
//!   [`Schema::load`]),
//! - and the documentation of every option
//!   ([`Schema::render_documentation`]).
//!
//! [`Config`] is the typed record of the tool's own nine options.
//!
//! Everything here is verified against the contracts it states, except the
//! calls into the `toml` crate, which parses the document (see
//! [`document`]), and the `{:?}` formatting of strings (see
//! [`text::push_debug`]).

pub mod config;
pub mod docs;
pub mod document;
pub mod error;
pub mod kind;
pub mod load;
pub mod record;
pub mod schema;
pub mod text;
pub mod value;

pub use config::Config;
pub use document::{Document, RawValue};
pub use error::{DecodeError, ParseError};
pub use kind::{decode_enum_value, describe_kind, ConfigType, Enumeration, ValueKind};
pub use load::convert_value;
pub use record::{merge, Overlay, Record};
pub use schema::{OptionDecl, Schema};
pub use value::OptionValue;
