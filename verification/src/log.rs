//! The diagnostic log stream, modelled as data: the reporter appends an
//! entry here, and a caller decides how to emit the entries.

use vstd::prelude::*;

verus! {

/// An ordered record of diagnostic entries. Viewed as the sequence of the
/// entries' character sequences, oldest first.
pub struct Log {
    entries: Vec<String>,
}

impl View for Log {
    type V = Seq<Seq<char>>;

    closed spec fn view(&self) -> Seq<Seq<char>> {
        self.entries@.map_values(|s: String| s@)
    }
}

impl Log {
    /// An empty log: no entry has been recorded yet.
    pub fn new() -> (r: Log)
        ensures
            r@ == Seq::<Seq<char>>::empty(),
    {
        Log { entries: Vec::new() }
    }

    /// How many entries the log holds.
    pub fn len(&self) -> (n: usize)
        ensures
            n == self@.len(),
    {
        self.entries.len()
    }

    /// The entry at position `i`, oldest first.
    pub fn entry(&self, i: usize) -> (r: &String)
        requires
            i < self@.len(),
        ensures
            r@ == self@[i as int],
    {
        &self.entries[i]
    }

    /// Record one entry at the end of the log.
    pub fn push(&mut self, entry: String)
        ensures
            final(self)@ == old(self)@.push(entry@),
    {
        self.entries.push(entry);
    }
}

} // verus!
