pub mod codec;
pub mod commands;
pub mod domain;
pub mod errors;
pub mod frame;
pub mod message;
pub mod utils;
