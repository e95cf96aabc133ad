use vstd::prelude::*;

verus! {

/// A growing piece of SQL text.
#[derive(Debug)]
pub struct SqlString {
    pub value: String,
}

impl Default for SqlString {
    fn default() -> (r: Self)
        ensures
            r.value@ == Seq::<char>::empty(),
    {
        SqlString { value: String::new() }
    }
}

impl SqlString {
    /// Appends `ch`.
    pub fn push(&mut self, ch: char) -> (r: &mut Self)
        ensures
            r.value@ == old(self).value@.push(ch),
            *final(self) == *final(r),
    {
        self.value.push(ch);
        self
    }

    /// Appends `sub_str`.
    pub fn push_str(&mut self, sub_str: &str) -> (r: &mut Self)
        ensures
            r.value@ == old(self).value@ + sub_str@,
            *final(self) == *final(r),
    {
        self.value.append(sub_str);
        self
    }
}

} // verus!
