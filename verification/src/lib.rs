pub mod error;
mod foreign;
pub mod text;
