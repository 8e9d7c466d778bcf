//! Request handling: what each endpoint decides and answers.

pub mod settings;
pub mod analyze;
pub mod health;
