//! Per-function control-flow graphs, extracted from a lowered intermediate
//! representation and rendered as directed-graph (dot) descriptions.
//!
//! The pipeline has three stages: [`units::select_units`] picks the
//! function-like items out of a program's item list, [`cfg::successor_edges`]
//! classifies each basic block's terminator into its labelled successor
//! edges, and [`render::render_body`] serializes a whole body into a textual
//! graph description, one per function.

pub mod cfg;
pub mod render;
pub mod units;
