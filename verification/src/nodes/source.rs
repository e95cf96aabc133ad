use vstd::prelude::*;
use crate::methods::Model;

verus! {

/// The source of a statement: the model whose table it reads.
#[derive(Debug)]
pub struct Source {
    pub model: Model,
}

impl Source {
    pub fn new(model: Model) -> (r: Self)
        ensures
            r == (Self { model }),
    {
        Self { model }
    }
}

} // verus!
