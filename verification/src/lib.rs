//! Random passwords and PIN numbers of a chosen length and complexity.
//!
//! The generators draw from a [`random_source::RandomSource`] and record every
//! draw they make, so their contracts say which values were asked of the source
//! and how the characters written follow from the answers.

pub mod generate_password;
pub mod password_analyzer;
pub mod random_source;
pub mod util;
