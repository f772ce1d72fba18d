//! What the declarations ask of the rest of the header: the standard headers
//! to pull in and the slice wrappers to define.

use vstd::prelude::*;
use crate::c_types::{map_type, type_c, type_include, type_slice_elem};
use crate::model::BridgedType;
use crate::ordering::SortedStrings;

verus! {

pub open spec fn opt_set(o: Option<Seq<char>>) -> Set<Seq<char>> {
    match o {
        Some(x) => set![x],
        None => Set::empty(),
    }
}

/// The standard headers that the types `ts` need.
pub open spec fn header_set(ts: Seq<BridgedType>) -> Set<Seq<char>>
    decreases ts.len(),
{
    if ts.len() == 0 {
        Set::empty()
    } else {
        header_set(ts.drop_last()).union(opt_set(type_include(ts.last())))
    }
}

/// The slice elements (as written in C) whose wrappers the types `ts` need.
pub open spec fn slice_set(ts: Seq<BridgedType>) -> Set<Seq<char>>
    decreases ts.len(),
{
    if ts.len() == 0 {
        Set::empty()
    } else {
        slice_set(ts.drop_last()).union(opt_set(type_slice_elem(ts.last())))
    }
}

/// Accumulates, over one generation pass, what the mapped types require.
pub struct Bookkeeping {
    pub headers: SortedStrings,
    pub slice_types: SortedStrings,
    /// Every type mapped so far, in order.
    pub seen: Ghost<Seq<BridgedType>>,
}

impl Bookkeeping {
    pub open spec fn wf(&self) -> bool {
        &&& self.headers.wf()
        &&& self.slice_types.wf()
        &&& self.headers.view() == header_set(self.seen@)
        &&& self.slice_types.view() == slice_set(self.seen@)
    }

    pub fn new() -> (r: Bookkeeping)
        ensures
            r.wf(),
            r.seen@ == Seq::<BridgedType>::empty(),
    {
        Bookkeeping {
            headers: SortedStrings::new(),
            slice_types: SortedStrings::new(),
            seen: Ghost(Seq::empty()),
        }
    }

    /// Writes `t` in C and notes what it requires.
    pub fn map(&mut self, t: &BridgedType) -> (r: String)
        requires
            old(self).wf(),
        ensures
            final(self).wf(),
            final(self).seen@ == old(self).seen@.push(*t),
            r@ == type_c(*t),
    {
        let m = map_type(t);
        let ghost seen = self.seen@.push(*t);
        assert(seen.drop_last() =~= self.seen@);
        match m.std_header {
            Some(h) => self.headers.insert(h),
            None => {},
        }
        match m.slice_elem {
            Some(e) => self.slice_types.insert(e),
            None => {},
        }
        self.seen = Ghost(seen);
        assert(self.headers.view() =~= header_set(seen));
        assert(self.slice_types.view() =~= slice_set(seen));
        m.c_repr
    }
}

} // verus!

verus! {

pub proof fn lemma_sets_finite(ts: Seq<BridgedType>)
    ensures
        header_set(ts).finite(),
        slice_set(ts).finite(),
    decreases ts.len(),
{
    if ts.len() > 0 {
        lemma_sets_finite(ts.drop_last());
        assert(opt_set(type_include(ts.last())).finite()) by {
            if type_include(ts.last()) is Some {
                assert(opt_set(type_include(ts.last())) =~= Set::empty().insert(type_include(ts.last())->0));
            }
        }
        assert(opt_set(type_slice_elem(ts.last())).finite()) by {
            if type_slice_elem(ts.last()) is Some {
                assert(opt_set(type_slice_elem(ts.last())) =~= Set::empty().insert(type_slice_elem(ts.last())->0));
            }
        }
    }
}

/// What any one mapped type requires is among the requirements.
pub proof fn lemma_sets_have(ts: Seq<BridgedType>, i: int)
    requires
        0 <= i < ts.len(),
    ensures
        type_include(ts[i]) matches Some(h) ==> header_set(ts).contains(h),
        type_slice_elem(ts[i]) matches Some(e) ==> slice_set(ts).contains(e),
    decreases ts.len(),
{
    if i < ts.len() - 1 {
        lemma_sets_have(ts.drop_last(), i);
    }
}

} // verus!
