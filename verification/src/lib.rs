//! Core logic of the Easy Lang language-learning service: text handling,
//! database query construction, schema migrations, prompt construction and
//! the decisions that the web handlers make.

pub mod text;
pub mod migrations;
pub mod globals;
pub mod models;
pub mod prompts;
pub mod translate_module;
pub mod base;
pub mod controllers;
