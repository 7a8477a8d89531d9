//! Named runs of model frames.
use vstd::prelude::*;

verus! {

/// A consecutive run of model frames.
#[derive(Clone, Copy, PartialEq, Eq, Debug, Structural)]
pub struct Anim {
    pub first: i32,
    pub len: i32,
}

/// The run `first..=last`; its length follows from the endpoints.
pub fn seq(first: i32, last: i32) -> (a: Anim)
    requires
        i32::MIN <= last - first + 1 <= i32::MAX,
        i32::MIN <= last - first <= i32::MAX,
    ensures
        a.first == first,
        a.len == last - first + 1,
{
    Anim { first, len: last - first + 1 }
}

impl Anim {
    /// The model frame at the 0-based `cursor`.
    pub fn frame(self, cursor: i32) -> (f: i32)
        requires
            i32::MIN <= self.first + cursor <= i32::MAX,
        ensures
            f == self.first + cursor,
    {
        self.first + cursor
    }

    /// The final frame of the run.
    pub fn last(self) -> (f: i32)
        requires
            i32::MIN <= self.first + self.len - 1 <= i32::MAX,
            i32::MIN <= self.first + self.len <= i32::MAX,
        ensures
            f == self.first + self.len - 1,
    {
        self.first + self.len - 1
    }
}

/// The run built from two endpoints starts at the one and ends at the other.
pub proof fn seq_spans_its_endpoints(first: i32, last: i32, a: Anim)
    requires
        a.first == first,
        a.len == last - first + 1,
    ensures
        a.first + a.len - 1 == last,
        forall|cursor: int| 0 <= cursor < a.len ==> first <= #[trigger] (a.first + cursor) <= last,
{
}

} // verus!
