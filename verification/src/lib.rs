//! Navigation, editing and configuration logic of a terminal grade dashboard.

pub mod editor;
pub mod text;
pub mod model;
pub mod app;
pub mod theme;
pub mod display;
pub mod protocol;
pub mod laws;
