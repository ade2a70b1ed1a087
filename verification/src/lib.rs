//! Client-side logic for certificate-authenticated calls to the Azure
//! management plane and for waiting on its long-running operations.

pub mod authentication;
pub mod client;
pub mod encoding;
pub mod error;
pub mod http;
pub mod ident;
pub mod json;
pub mod management;
pub mod permission;
pub mod scope;
pub mod text;
pub mod time;
pub mod worker;
pub mod workflow;
