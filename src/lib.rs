pub mod collision;
pub mod engine;
pub mod rigid_body;
pub mod scenes;
