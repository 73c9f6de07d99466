//! What each operation gives, said of what goes in and what comes out.

pub mod config;
pub mod contract;
pub mod load;
pub mod slots;
pub mod text;
