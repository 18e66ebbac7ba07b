//! The core of a small todo web server: the store of todo items, the
//! decisions of the request handlers, and the diagnostic branch that logs
//! at a severity chosen by a random draw. Transport, template rendering and
//! the log sink are the caller's.

pub mod diagnostic;
pub mod handlers;
pub mod response;
pub mod shared;
pub mod store;
