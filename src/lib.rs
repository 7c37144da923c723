pub mod error;
pub mod window;
pub mod laws;
