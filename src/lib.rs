//! A redirect service's configuration store: a document that maps app keys to
//! target URLs, loaded from and persisted to a JSON backing file, with the
//! lookups that the HTTP routes make and the checks that the console applies.

pub mod app_config;
pub mod console_input;
pub mod document;
pub mod error;
pub mod json;
pub mod lookup;
pub mod validate;
