pub mod attributes;
pub mod instructions;
pub mod parser;
pub mod parsers;
pub mod typechecker;
pub mod types;
