//! Build-time generation logic for bridging RPC service definitions to
//! plain HTTP/JSON endpoints: identifier casing and type-path resolution,
//! enum-field discovery across nested message trees, per-field
//! conflict-free enum string codecs, omission annotations, and HTTP route
//! synthesis with RPC-status translation and a uniform JSON error envelope.

pub mod attributes;
pub mod codec;
pub mod codegen;
pub mod config;
pub mod demo;
pub mod descriptor;
pub mod extract;
pub mod naming;
pub mod router;
pub mod strutil;
pub mod vercheck;
