//! A helper for checking recorded traces against expected locations.
//!
//! A `Fixture` keeps a table of tagged locations. A test tags the locations
//! it expects a failure to pass, and then asks whether a trace holds
//! exactly the locations of a given list of tags, in order. The fixture
//! consumes only the public contract of the trace types.

use vstd::prelude::*;

use crate::result::Result;
use crate::trace::CodeLocation;
use crate::trace::CodeLocationStack;
use crate::trace::Traced;

verus! {

/// The location a table of tagged entries associates with `tag`: that of
/// the most recently recorded entry whose tag has the same characters.
pub open spec fn lookup(
    entries: Seq<(&'static str, CodeLocation)>,
    tag: Seq<char>,
) -> Option<CodeLocation>
    decreases entries.len(),
{
    if entries.len() == 0 {
        None
    } else if entries.last().0@ == tag {
        Some(entries.last().1)
    } else {
        lookup(entries.drop_last(), tag)
    }
}

/// Whether `locs` holds exactly the locations tagged by `tags`, in order:
/// same length, and the location under each tag is at the tag's position.
pub open spec fn tags_match(
    entries: Seq<(&'static str, CodeLocation)>,
    locs: Seq<CodeLocation>,
    tags: Seq<&'static str>,
) -> bool {
    &&& locs.len() == tags.len()
    &&& forall|i: int|
        0 <= i < tags.len() ==> {
            &&& #[trigger] lookup(entries, tags[i]@) is Some
            &&& lookup(entries, tags[i]@)->0.same_as(&locs[i])
        }
}

fn str_eq(a: &str, b: &str) -> (r: bool)
    ensures
        r == (a@ == b@),
{
    a.to_owned() == b.to_owned()
}

/// A table of expected code locations, each under a tag.
pub struct Fixture {
    pub code_locations: Vec<(&'static str, CodeLocation)>,
}

impl Default for Fixture {
    /// An empty table: no tag is associated with any location.
    fn default() -> (r: Self)
        ensures
            r.code_locations@ == Seq::<(&'static str, CodeLocation)>::empty(),
    {
        Fixture { code_locations: Vec::new() }
    }
}

impl Fixture {
    /// Records `loc` as the location expected under `tag`. A tag recorded
    /// again shadows its earlier entry.
    pub fn tag_location(&mut self, tag: &'static str, loc: CodeLocation)
        ensures
            final(self).code_locations@ == old(self).code_locations@.push((tag, loc)),
    {
        self.code_locations.push((tag, loc));
    }

    /// Returns the location recorded under `tag`.
    pub fn get_location(&self, tag: &'static str) -> (r: &CodeLocation)
        requires
            lookup(self.code_locations@, tag@) is Some,
        ensures
            Some(*r) == lookup(self.code_locations@, tag@),
    {
        let entries = &self.code_locations;
        let mut i: usize = entries.len();
        proof {
            assert(entries@.take(entries@.len() as int) =~= entries@);
        }
        while i > 0
            invariant
                entries@ == self.code_locations@,
                i <= entries@.len(),
                lookup(entries@, tag@) == lookup(entries@.take(i as int), tag@),
                lookup(entries@.take(i as int), tag@) is Some,
            decreases i,
        {
            proof {
                assert(entries@.take(i as int).last() == entries@[i - 1]);
                assert(entries@.take(i as int).drop_last() =~= entries@.take(i - 1));
            }
            let entry = &entries[i - 1];
            if str_eq(entry.0, tag) {
                proof {
                    assert(lookup(entries@.take(i as int), tag@) == Some(entries@[i - 1].1));
                }
                return &entries[i - 1].1;
            }
            i -= 1;
        }
        proof {
            assert(entries@.take(0) =~= Seq::<(&'static str, CodeLocation)>::empty());
        }
        unreached()
    }

    /// Decides whether `stack` holds exactly the locations recorded under
    /// `tags`, in order.
    pub fn stack_matches_tags(&self, stack: &CodeLocationStack, tags: &Vec<&'static str>) -> (r:
        bool)
        ensures
            r == tags_match(self.code_locations@, stack.locations(), tags@),
    {
        if stack.0.len() != tags.len() {
            return false;
        }
        let mut i: usize = 0;
        while i < tags.len()
            invariant
                i <= tags@.len(),
                stack.locations().len() == tags@.len(),
                forall|j: int|
                    0 <= j < i ==> {
                        &&& #[trigger] lookup(self.code_locations@, tags@[j]@) is Some
                        &&& lookup(self.code_locations@, tags@[j]@)->0.same_as(
                            &stack.locations()[j],
                        )
                    },
            decreases tags@.len() - i,
        {
            if !self.has_tag(tags[i]) {
                return false;
            }
            let expected = self.get_location(tags[i]);
            let actual = &stack.0[i];
            if !(*expected == *actual) {
                return false;
            }
            i += 1;
        }
        true
    }

    /// Decides whether `tag` has a recorded location.
    pub fn has_tag(&self, tag: &'static str) -> (r: bool)
        ensures
            r == (lookup(self.code_locations@, tag@) is Some),
    {
        let entries = &self.code_locations;
        let mut i: usize = entries.len();
        proof {
            assert(entries@.take(entries@.len() as int) =~= entries@);
        }
        while i > 0
            invariant
                entries@ == self.code_locations@,
                i <= entries@.len(),
                lookup(entries@, tag@) == lookup(entries@.take(i as int), tag@),
            decreases i,
        {
            proof {
                assert(entries@.take(i as int).last() == entries@[i - 1]);
                assert(entries@.take(i as int).drop_last() =~= entries@.take(i - 1));
            }
            let entry = &entries[i - 1];
            if str_eq(entry.0, tag) {
                proof {
                    assert(lookup(entries@.take(i as int), tag@) is Some);
                }
                return true;
            }
            i -= 1;
        }
        proof {
            assert(entries@.take(0) =~= Seq::<(&'static str, CodeLocation)>::empty());
        }
        false
    }

    /// Decides whether `result` is a failure whose trace holds exactly the
    /// locations recorded under `tags`, in order.
    pub fn result_has_stack<T, E>(&self, result: &Result<T, E>, tags: &Vec<&'static str>) -> (r:
        bool)
        ensures
            r == (result is Failure && tags_match(
                self.code_locations@,
                result->Failure_0.stack.locations(),
                tags@,
            )),
    {
        match result {
            Result::Success(_) => false,
            Result::Failure(e) => self.stack_matches_tags(e.stack(), tags),
        }
    }
}

} // verus!
