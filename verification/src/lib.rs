//! A walk over ontology documents, and the graph that a document stands for.
//!
//! `model` holds the grammar of a document. `Walk` drives a visitor over a
//! document, depth first, and hands to the hook of every node what the hook of
//! its parent returned; `Visit` is what a visitor has to be, `order` says in
//! which order the nodes are met. `HornedVOWLExtract` is the visitor that turns
//! a document into vertices, edges and a dense numbering of its identifiers;
//! `laws` holds what is true of it whatever the document.

pub mod extract;
pub mod graph;
pub mod laws;
pub mod model;
pub mod observe;
pub mod order;
mod quiet;
pub mod visitor;
pub mod walk;

pub use extract::{ExtractError, Graph, HornedVOWLExtract};
pub use graph::{Edge, ForVisit, Kind, Node, Thing};
pub use visitor::{Element, Visit};
pub use walk::Walk;
