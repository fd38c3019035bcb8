//! Country identity for phone-number handling: a closed set of territory
//! identifiers with their canonical two-letter codes, and a calling-code
//! value tagged with the way it was derived during parsing.

pub mod country;
pub mod error;
