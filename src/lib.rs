//! A small chat bot core: the commands it registers, and how an invocation of
//! one of them turns into a reply.

pub mod config;
pub mod dispatch;
pub mod registry;
