pub mod numbers;
pub mod text;
pub mod popup;
pub mod widgets;
