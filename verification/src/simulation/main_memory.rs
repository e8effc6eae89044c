//! Main memory: a fixed-size word store indexed from zero, sized from the
//! loaded data image.  Out-of-range access is a caller contract violation.

use vstd::prelude::*;

use crate::word::Word;

verus! {

pub struct MainMemory {
    pub words: Vec<Word>,
}

impl MainMemory {
    pub fn new(data: Vec<Word>) -> (r: MainMemory)
        ensures
            r.words == data,
    {
        MainMemory { words: data }
    }

    pub fn len(&self) -> (n: usize)
        ensures
            n == self.words@.len(),
    {
        self.words.len()
    }

    pub fn read(&self, index: usize) -> (w: Word)
        requires
            index < self.words@.len(),
        ensures
            w == self.words@[index as int],
    {
        self.words[index]
    }

    pub fn write(&mut self, index: usize, value: Word)
        requires
            index < old(self).words@.len(),
        ensures
            final(self).words@ == old(self).words@.update(index as int, value),
    {
        self.words.set(index, value);
    }
}

} // verus!
