pub mod geometry;
pub mod buttons;
pub mod axis;
pub mod hat;
pub mod frame;
