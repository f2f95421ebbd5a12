//! Chronological and prematurity-corrected age of an infant, in calendar
//! units and in day, week and month totals.

pub mod age;
pub mod date;
pub mod input;
pub mod laws;

pub use age::{compute_chronological_age, compute_corrected_age, ChronologicalAge, CorrectedAge};
pub use date::Date;
pub use input::{
    calculate, calculate_today, compute_ages, AgeReport, InputError, NumericField,
};
