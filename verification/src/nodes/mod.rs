pub mod source;
pub mod sql_literal;
