//! Access tokens: obtaining them and keeping them encrypted.

pub mod oauth;
pub mod token_store;
