//! Rules for how the server starts and what stands before its handlers.

pub mod encrypt_old_messages;
pub mod express;
pub mod routes;
pub mod startup;
