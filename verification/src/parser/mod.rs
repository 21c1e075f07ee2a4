pub mod any_value;
pub mod arg;
pub mod arg_cursor;
pub mod args_parser;
pub mod matches;
pub mod parse_error;
pub mod table;
pub mod value_parser;
