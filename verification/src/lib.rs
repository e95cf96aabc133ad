//! Builds SQL statements from JSON descriptions of what to select, insert, update or
//! delete, and renders them, with or without their prepared values, as SQL text.
use vstd::prelude::*;

pub mod error;
pub mod text;
pub mod results;
pub mod json;
pub mod collectors;
pub mod statements;
pub mod methods;
pub mod table;
pub mod visitors;
pub mod nodes;
pub mod laws;
pub mod generators;
pub mod associations;
pub mod records;

verus! {

pub assume_specification[ std::string::String::push ](s: &mut std::string::String, ch: char)
    ensures
        final(s)@ == old(s)@.push(ch),
;

} // verus!
