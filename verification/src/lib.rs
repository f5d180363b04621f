//! Deep-link capture for the Heliodesk desktop shell.
//!
//! A launch of the application may carry a custom-scheme URL among its
//! arguments. This crate decides, for a given argument list, whether such a
//! URL is present, which one is taken, and what is to be published on the
//! application's event bus as a result.

pub mod detect;
pub mod event;
pub mod scheme;
pub mod startup;
