pub mod to_sql;
