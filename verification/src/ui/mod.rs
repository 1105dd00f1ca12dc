pub mod format;
pub mod table;
