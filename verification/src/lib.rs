pub mod analysis;
pub mod grammar;
pub mod laws;
pub mod lexer;
pub mod lower;
pub mod lowering_shape;
pub mod messages;
pub mod names;
pub mod parser;
pub mod promises;
pub mod ppv;
pub mod text;
pub mod typed_lowering;
pub mod vir;
pub mod verify;
pub mod wellformed;
