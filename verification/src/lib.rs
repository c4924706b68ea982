//! Display logic of a motorcycle dashboard: two round gauges and a status
//! screen between them, planned as integer geometry and drawn elsewhere.
pub mod color;
pub mod dashboard;
pub mod draw;
pub mod gauge;
pub mod geometry;
pub mod numeric;
pub mod status_screen;
pub mod text;
