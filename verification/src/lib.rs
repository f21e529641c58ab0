//! A store of attachments that keeps each content once: uploads with the
//! same bytes share one blob, each under a record of its own.
//!
//! The library decides and holds no file or database itself. [`upload`] and
//! [`fetch`] say step by step what is to be written, read and searched;
//! [`store`] is a store in memory that carries those steps out, and
//! [`models::files`] runs uploads and retrievals against it.

pub mod auth;
pub mod classify;
pub mod conf;
pub mod error;
pub mod fetch;
pub mod hash;
pub mod id;
pub mod layout;
pub mod models;
pub mod names;
pub mod static_files;
pub mod store;
pub mod theorems;
pub mod upload;
