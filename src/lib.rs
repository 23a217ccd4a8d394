pub mod network;
pub mod parse;
pub mod argument;
pub mod expressions;
pub mod laws;
