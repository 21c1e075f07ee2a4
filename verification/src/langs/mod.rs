pub mod definitions;
pub mod lang_def;
pub mod lang_type;
pub mod pattern;
pub mod registry;
