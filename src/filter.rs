//! Filter graphs and their textual-spec parsers.

pub mod graph;

pub use graph::{Binding, Context, Filter, Graph, Link, Node, Parser};
