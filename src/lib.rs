//! A persistent store of "sticky" environment variables and the shell code
//! that re-applies them in every new shell session.

pub mod nu;
pub mod sh;
pub mod shells;
pub mod codec;
pub mod output;
pub mod store;
pub mod location;
