//! Validation of user input with messages in the user's language.
//!
//! A caller picks a language ([`locale`]), loads the message catalogs of that
//! language ([`messages`]), and puts the fields of a request to their rule
//! sets ([`fields`], [`rules`], [`validations`]). Every rule of a set is run,
//! and every broken rule adds its message, so that one round trip tells a
//! client all that is wrong. A message comes from the catalog where the
//! catalog has one, and is the rule's own English text where it has none: a
//! missing or broken catalog never makes a validation fail.
//!
//! The functions are verified with Verus against contracts over the
//! characters of the strings, the shape of the catalogs, and what the errors
//! hold. [`laws`] states what holds of the engine as a whole.

pub mod text;
pub mod locale;
pub mod messages;
pub mod errors;
pub mod rules;
pub mod validations;
pub mod requests;
pub mod fields;
pub mod service;
pub mod laws;
