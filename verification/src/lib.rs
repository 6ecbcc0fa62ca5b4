//! Verified core of an AT Protocol app dashboard: NSID grouping, the OAuth
//! flow's decisions and stores, and the view logic of the user interface.

pub mod callback;
pub mod clock;
pub mod encoding;
pub mod identity;
pub mod jose;
pub mod keys;
pub mod nsid;
pub mod oauth;
pub mod repo;
pub mod session;
pub mod store;
pub mod text;
pub mod types;
pub mod views;
