pub mod analyzer;
pub mod blocks;
pub mod packets;
pub mod parser;
pub mod properties;
pub mod time;
pub mod types;
pub mod statistics_properties;
