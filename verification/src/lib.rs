//! The decisions of a class review site: who may sign up and sign in, what a
//! signed-in user sees of their own account, which reviews they are shown, and
//! how profile changes are applied. Database access, HTTP and templates live
//! in the application around this library; they hand it plain values.

pub mod text;
pub mod records;
pub mod crypto;
pub mod session;
pub mod accounts;
pub mod clock;
pub mod reviews;
pub mod pages;
pub mod laws;
pub mod config;
pub mod sql;
