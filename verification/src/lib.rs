//! Verified core of a small plugin host: HTTP framing of plugin replies,
//! the cache of loaded plugin libraries, the upload and invocation
//! decisions of the daemon and the mesh, and the context handed to
//! plugins.

pub mod text;
pub mod decimal;
pub mod json;
pub mod http;
pub mod cache;
pub mod context;
pub mod example;
pub mod plugin_attr;
pub mod upload;
pub mod auth;
pub mod daemon;
pub mod rpc;
pub mod mesh;
pub mod ctl;
pub mod laws;
