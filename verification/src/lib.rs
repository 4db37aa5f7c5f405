//! Core of a link shortener: the link record, the protocol spoken with the
//! link store, the classification of store replies into outcomes, and the
//! mapping of outcomes to HTTP responses.

pub mod link;
pub mod table;
pub mod store;
pub mod memory;
pub mod resolver;
pub mod mutator;
pub mod response;
pub mod laws;
