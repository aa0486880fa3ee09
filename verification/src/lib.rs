//! Directed-graph viewing core: force-directed node placement, orthogonal
//! edge routing with stroked arrow polygons, and a pannable viewport.
//!
//! Coordinates are integers. Positions and sizes are measured in canvas
//! units; fractions (the routing `mid` hint, color channels) are measured in
//! thousandths.

pub mod geometry;
pub mod graph;
pub mod layout;
pub mod route;
pub mod viewer;

pub use geometry::Bounds;
pub use geometry::Point;
pub use geometry::Size;
pub use route::Color;
pub use route::Edge;
pub use route::EdgeKind;
pub use route::cream;
pub use viewer::GraphViewer;
pub use viewer::Message;
