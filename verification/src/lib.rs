//! Chunk output generation for the CommonJS chunk format of a module bundler.
//!
//! The work has two phases. In the resolution pass the registered extensions
//! contribute to the runtime requirement set of every chunk
//! ([`pipeline::HookPipeline::resolve_all`]). When that pass is complete and
//! the sets are frozen, each chunk is assembled on its own
//! ([`common_js_chunk_format::CommonJsChunkFormatPlugin::render_chunk`]).
//!
//! Both phases read a [`graph::Snapshot`] and never change it. What only the
//! bundler can do (rendering modules, resolving a filename template,
//! generating entry code) is asked for as a [`render::Request`] and taken
//! back as a value in [`render::Replies`].

pub mod common_js_chunk_format;
pub mod error;
pub mod filename;
pub mod graph;
pub mod pipeline;
pub mod render;
pub mod requirements;
pub mod source;
