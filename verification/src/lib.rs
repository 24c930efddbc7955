//! Validate and extract information from national ID numbers.
//!
//! Each supported country has its own module, with its own closed error
//! type:
//!
//! | Country | Module      | Offers                            |
//! |---------|-------------|-----------------------------------|
//! | Albania | [`albania`] | `decode`, `validate`, `is_valid`  |
//! | Kosovo  | [`kosovo`]  | `validate`, `is_valid`            |
//!
//! Every function is total: it returns a result for any string and never
//! panics. What it returns is fixed by a specification function over the
//! bytes of the input ([`albania::decoded`], [`kosovo::validated`]), and
//! the `laws` module of each country states what follows from it.

pub mod ascii;
pub mod country;
pub mod date;
pub mod text;
pub mod types;

pub use country::albania;
pub use country::kosovo;
pub use types::{Date, Sex};
