pub mod error;
pub mod frame;
pub mod delay;
pub mod stream;
pub mod lifecycle;
pub mod config;
pub mod worker;
pub mod text;
pub mod devices;
pub mod command;
