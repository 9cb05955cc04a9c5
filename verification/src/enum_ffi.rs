//! The kinds of enums supported: `complex` is any enum that isn't `repr(C)` (which is wrapped like
//! a struct), and `reprc` is a `repr(C)` enum (which is exposed directly, with some helpers).

pub mod complex;
pub mod reprc;
