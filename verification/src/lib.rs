pub mod greeting;
pub mod laws;
pub mod lifecycle;
