//! Navigation core of a terminal browser for a catalogue of geographic
//! locations: the screen state machine, the map viewport and the polygon
//! edge rasterizer.

pub mod fixed;
pub mod db;
pub mod event_handling;
pub mod model;
pub mod view;
