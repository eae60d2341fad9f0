pub mod errors;
pub mod text;
