//! Preparation of a basketball team statistics table for a win-percentage
//! regression: schema and row-count validation, zero-filling of missing
//! cells, the feature layout, and the description of the two charts.
pub mod columns;
pub mod table;
pub mod features;
pub mod pipeline;
pub mod charts;
pub mod laws;
