pub mod admin;
pub mod results;
