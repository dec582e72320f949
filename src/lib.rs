pub mod index;
pub mod json;
pub mod server;
pub mod skeleton;
pub mod text;
