//! Request rules of the Klovy Chat server.
//!
//! Every handler is written as a decision over what has been learnt so far: it
//! names the next thing to do, or the reply. The server around the library does
//! the work that was named and hands the outcome back.

pub mod controllers;
pub mod ids;
pub mod json;
pub mod lists;
pub mod loaders;
pub mod middlewares;
pub mod model;
pub mod order;
pub mod paging;
pub mod patterns;
pub mod percent;
pub mod query;
pub mod reply;
pub mod stamps;
pub mod text;
