//! Monomial terms `c * x^i * y^j` over two indeterminates, with
//! arbitrary-precision coefficient and exponents.

pub mod integer;
pub mod model;
pub mod unit;

pub use integer::Integer;
pub use model::Monomial;
pub use unit::{Unit, UnitError};
