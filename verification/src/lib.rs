pub mod errors;
pub mod layout;
pub mod path;
