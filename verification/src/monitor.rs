pub mod math;
pub mod ui;
pub mod config;
pub mod layout;
pub mod plan;
pub mod state;
pub mod model;
pub mod controls;
pub mod codes;
pub mod touch;
pub mod view_model;
pub mod render;
pub mod bootstrap;
