//! A wishlist service: records, their store encoding, the error taxonomy,
//! request routing and the request handlers, with an in-memory store.
pub mod codec;
pub mod deployment;
pub mod error;
pub mod handlers;
pub mod lifecycle;
pub mod response;
pub mod router;
pub mod store;
pub mod wishlist;
