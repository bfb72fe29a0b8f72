//! The monitor registry: the current enumeration snapshot, replaced
//! wholesale on refresh.

use vstd::prelude::*;
use vstd::std_specs::iter::IteratorSpec;

use crate::monitors::Monitor;

verus! {

/// The monitors of the latest enumeration, in enumeration order.
pub struct Db(Vec<Monitor>);

impl View for Db {
    type V = Seq<Monitor>;

    closed spec fn view(&self) -> Seq<Monitor> {
        self.0@
    }
}

/// The first monitor in `ms` whose ordinal is `id`.
pub open spec fn monitor_with_id(ms: Seq<Monitor>, id: i32) -> Option<Monitor>
    decreases ms.len(),
{
    if ms.len() == 0 {
        None
    } else if ms[0].id_spec() == id {
        Some(ms[0])
    } else {
        monitor_with_id(ms.drop_first(), id)
    }
}

impl Db {
    /// A registry holding the monitors of one enumeration.
    pub fn new(monitors: Vec<Monitor>) -> (db: Db)
        ensures
            db@ == monitors@,
    {
        Db(monitors)
    }

    /// The monitors, in enumeration order.
    pub fn iter(&self) -> (r: std::slice::Iter<'_, Monitor>)
        ensures
            IteratorSpec::remaining(&r) == self@.as_ref(),
            IteratorSpec::initial_value_relation(&r, &r),
    {
        self.0.iter()
    }

    pub fn len(&self) -> (r: usize)
        ensures
            r == self@.len(),
    {
        self.0.len()
    }

    /// The monitor at position `i` of the enumeration.
    pub fn monitor(&self, i: usize) -> (r: &Monitor)
        requires
            i < self@.len(),
        ensures
            *r == self@[i as int],
    {
        &self.0[i]
    }

    /// The first monitor whose ordinal is `id`, found by a linear scan.
    pub fn get(&self, id: i32) -> (r: Option<&Monitor>)
        ensures
            r is None <==> monitor_with_id(self@, id) is None,
            r matches Some(m) ==> monitor_with_id(self@, id) == Some(*m),
    {
        let mut i: usize = 0;
        proof {
            assert(self@.skip(0) =~= self@);
        }
        while i < self.0.len()
            invariant
                i <= self@.len(),
                monitor_with_id(self@, id) == monitor_with_id(self@.skip(i as int), id),
            decreases self@.len() - i,
        {
            proof {
                assert(self@.skip(i as int).drop_first() =~= self@.skip(i + 1));
            }
            if self.0[i].id() == id {
                return Some(&self.0[i]);
            }
            i = i + 1;
        }
        None
    }

    /// Replaces the stored monitors wholesale with those of a new
    /// enumeration; the previous ones are dropped.
    pub fn refresh(&mut self, monitors: Vec<Monitor>)
        ensures
            final(self)@ == monitors@,
    {
        self.0 = monitors;
    }
}

} // verus!
