pub mod date;
pub mod feed;
pub mod laws;
pub mod render;
pub mod status;
pub mod text;
