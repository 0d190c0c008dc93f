pub mod emit;
pub mod expand;
pub mod laws;
pub mod model;
pub mod parser;
pub mod receiver;
pub mod registry;
pub mod token;
pub mod types;
