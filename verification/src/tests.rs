//! The assessment subsystem: question bank, test catalog, and the
//! session workflow that registration, opening, and submission run
//! through.

pub mod question_categories;
pub mod tests;
