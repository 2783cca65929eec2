pub mod command_line;
pub mod general;
pub mod text;
