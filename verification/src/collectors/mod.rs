pub mod sql;
pub mod sql_string;
pub use sql::Sql;
