//! Truthiness and equality of JSON-like values, as the expression evaluator
//! of a JSON templating language needs them.
//!
//! Falsy values are exactly the numbers equal to zero, `false`, null, the
//! empty string, the empty array and the empty object. Two numbers are equal
//! when their floating-point values are, whatever their representation; any
//! other pair of values is compared structurally.
pub mod double;
pub mod predicates;
pub mod value;

pub use predicates::{is_equal, is_truthy};
pub use value::{Number, Value};
