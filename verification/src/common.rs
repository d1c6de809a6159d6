//! Vocabulary shared by every component: formats, variants, errors, text helpers.

pub mod error;
pub mod format;
pub mod text;
pub mod variant;
