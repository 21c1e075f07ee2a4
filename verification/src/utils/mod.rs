pub mod chart;
pub mod format;
pub mod path;
pub mod save;
pub mod strings;
