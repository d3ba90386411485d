//! A self-hosted poster generator: serves raster images rendered from
//! vector templates over HTTP.
//!
//! The library holds the verified core: the allowlist guard deciding which
//! outbound fetch targets are permitted, the template registry mapping routes
//! to compiled templates, the rendering pipeline turning a request path and
//! query into response bytes, the helper functions callable from templates,
//! and the in-flight accounting used for graceful drain. The binary around it
//! does the I/O: directory walking, the HTTP listener, signal handling and
//! thread dispatch.

pub mod cli;
pub mod executor;
pub mod filters;
pub mod generator;
pub mod state;
pub mod text;
