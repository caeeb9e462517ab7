//! A small collaboration backend: users with a creator or executor role,
//! single-use invite codes that bind an executor to a creator, and tasks
//! tracked under such a binding. The whole domain state lives in a [`store::Store`]
//! value; every handler is a function from the store and a request to the new
//! store and a response, with its behaviour stated in its contract.

pub mod auth;
pub mod clock;
pub mod config;
pub mod crypto;
pub mod domain;
pub mod errors;
pub mod invite;
pub mod store;
pub mod task;
pub mod token;
