//! Verified UUID handle library.
//!
//! A `Uuid` is an owned 128-bit identifier. Constructors produce an owned
//! value (nil, random version 4, name-derived version 5 against the fixed
//! SIP namespace, or parsed from text); rendering operations copy one of the
//! four canonical textual encodings (simple, hyphenated, braced, URN) into a
//! caller-supplied buffer without ever writing past its declared capacity;
//! `ruuid_destroy` releases the value. All text handling is verified against
//! the UUID text grammar, including round trips between rendering and parsing.

pub mod generate;
pub mod hex;
pub mod parse;
pub mod props;
pub mod render;
pub mod value;

pub use generate::{ruuid_generate_version_4, ruuid_generate_version_5_sip};
pub use parse::ruuid_parse;
pub use render::{ruuid_get_braced, ruuid_get_hyphenated, ruuid_get_simple, ruuid_get_urn};
pub use value::{ruuid_destroy, ruuid_generate_nil, ruuid_is_nil, Uuid};
