pub mod address;
pub mod instruction;
pub mod parse_token;
