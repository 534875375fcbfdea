use vstd::prelude::*;

verus! {

/// What the player shows of the track under the cursor.
pub struct TermiMusic {
    pub title: String,
}

impl Default for TermiMusic {
    fn default() -> (r: Self)
        ensures
            r.title@ == Seq::<char>::empty(),
    {
        TermiMusic { title: String::new() }
    }
}

} // verus!
