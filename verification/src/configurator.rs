pub mod build;
pub mod parser;
pub mod run;
