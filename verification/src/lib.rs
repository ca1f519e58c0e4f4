//! Turns a declarative layer-graph model description — the backbone/head
//! layer lists of a YOLO-style network, with their compact signed source
//! notation — into an explicit directed acyclic graph over absolutely
//! numbered nodes.
//!
//! The pipeline has three verified stages: [`Model::normalize`] decodes and
//! validates the wire document, [`resolve_model`] assigns every layer its
//! absolute index in the combined `backbone ++ head` space and rewrites each
//! source into absolute predecessor indices, and [`Graph::new`] materializes
//! the node range and the ordered edge list that a DOT emitter walks.
pub mod error;
pub mod format;
pub mod graph;
pub mod resolve;

pub use error::ModelError;
pub use format::{
    AnchorList, Layer, LayerKind, LayerRef, Model, Param, SerializedAnchorList, SerializedLayer,
    SerializedModel, SerializedSrc, Src, WH,
};
pub use graph::{Graph, MarkedLayer};
pub use resolve::resolve_model;
