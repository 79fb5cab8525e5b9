//! Safety boundary for loading binary language-model files.
//!
//! Before a model file is handed to the native lookup engine, its fixed-size
//! header is checked byte for byte against a compile-time reference value;
//! the [`sanity`] module holds that header layout and its validator.  The
//! [`records`] module defines the value types for single entries of the
//! textual model interchange format, and [`expectation`] holds the fixture
//! sequences a textual-format reader is checked against.

pub mod expectation;
pub mod records;
pub mod sanity;
