use vstd::prelude::*;

verus! {

/// A source position: a file name and a line, or unknown.  Locations are
/// metadata: the value model's equality never looks at them.
#[derive(Debug, PartialEq)]
pub enum Loc {
    File { filename: String, line: u32 },
    Unknown,
}

impl Clone for Loc {
    fn clone(&self) -> (r: Self)
        ensures
            r == *self,
    {
        match self {
            Loc::File { filename, line } => Loc::File { filename: filename.clone(), line: *line },
            Loc::Unknown => Loc::Unknown,
        }
    }
}

} // verus!
