use vstd::prelude::*;

verus! {

/// The files the application was asked to open, if it was asked at all.
/// The application holds it behind a lock; this is its content.
#[derive(Debug)]
pub struct OpenedFiles(pub Option<Vec<String>>);

impl OpenedFiles {
    pub open spec fn listed(&self) -> Seq<Seq<char>> {
        match self.0 {
            Some(v) => v@.map_values(|s: String| s@),
            None => Seq::empty(),
        }
    }

    /// The opened files in order; none when nothing was recorded.
    pub fn opened_files(&self) -> (r: Vec<String>)
        ensures
            r@.map_values(|s: String| s@) == self.listed(),
    {
        let mut r: Vec<String> = Vec::new();
        match &self.0 {
            Some(files) => {
                let mut i: usize = 0;
                while i < files.len()
                    invariant
                        i <= files@.len(),
                        self.0 == Some(*files),
                        r@.len() == i,
                        forall|j: int| 0 <= j < i ==> #[trigger] r@[j]@ == files@[j]@,
                    decreases files@.len() - i,
                {
                    r.push(files[i].clone());
                    i = i + 1;
                }
                assert(r@.map_values(|s: String| s@) =~= self.listed());
            },
            None => {
                assert(r@.map_values(|s: String| s@) =~= self.listed());
            },
        }
        r
    }
}

} // verus!
