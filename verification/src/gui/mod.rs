//! State of the views that show the content of a disc.

pub mod browse_view;
pub mod hex_view;
pub mod text_view;
