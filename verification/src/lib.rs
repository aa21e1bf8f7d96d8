//! Content-addressed naming and upload planning for pasted media assets.
//!
//! Every item in this crate is verified: the contracts say what each function
//! returns, and the few calls into other crates are confined to small trusted
//! wrappers whose documentation says what is assumed of them.

pub mod context;
pub mod driver;
pub mod error;
pub mod ident;
pub mod loader;
pub mod mime;
pub mod naming;
pub mod provision;
pub mod source;
pub mod text;
pub mod upload;
pub mod weburl;
