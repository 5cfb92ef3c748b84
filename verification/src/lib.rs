//! A value type for TOML integer literals that remembers the notation
//! (decimal, hexadecimal, octal, binary) and, for hexadecimal literals,
//! the preferred letter case, so that an unmodified value can be rendered
//! back in its original notation.

pub mod integer;
pub mod render;
