//! Code locations and the trace stores that record them.

use vstd::prelude::*;
use vstd::string::StringExecFns;

use crate::display::location_text;
use crate::display::trace_text;
use crate::display::u64_to_dec;

verus! {

/// A location (origin file, line number) in program text.
///
/// A `CodeLocation` is an immutable value: it is created at the call site
/// where a failure is constructed or forwarded and never changed afterwards.
#[derive(Debug, Copy, Clone, Eq)]
pub struct CodeLocation {
    pub file: &'static str,
    pub line: u32,
}

impl CodeLocation {
    /// Two locations are the same when they name the same file and line.
    pub open spec fn same_as(&self, other: &CodeLocation) -> bool {
        self.file@ == other.file@ && self.line == other.line
    }

    /// Builds the location for the given origin file and line number.
    pub fn new(file: &'static str, line: u32) -> (loc: Self)
        ensures
            loc.file == file,
            loc.line == line,
    {
        Self { file, line }
    }

    /// Returns the `CodeLocation` that is `lines` lines below `self`,
    /// consuming `self`.
    pub fn down_by(self, lines: u32) -> (loc: Self)
        requires
            self.line + lines <= u32::MAX,
        ensures
            loc.file == self.file,
            loc.line == self.line + lines,
    {
        Self { file: self.file, line: self.line + lines }
    }

    /// Renders this location as `origin:line`.
    pub fn display_string(&self) -> (r: String)
        ensures
            r@ == location_text(*self),
    {
        let mut s = self.file.to_owned();
        s.append(":");
        let line_str = u64_to_dec(self.line as u64);
        s.append(line_str.as_str());
        proof {
            reveal_strlit(":");
            assert(s@ =~= location_text(*self));
        }
        s
    }
}

impl PartialEq for CodeLocation {
    fn eq(&self, other: &CodeLocation) -> (r: bool) {
        self.file.to_owned() == other.file.to_owned() && self.line == other.line
    }
}

impl vstd::std_specs::cmp::PartialEqSpecImpl for CodeLocation {
    open spec fn obeys_eq_spec() -> bool {
        true
    }

    open spec fn eq_spec(&self, other: &CodeLocation) -> bool {
        self.same_as(other)
    }
}

/// The capability of recording an ordered trace of code locations.
///
/// A trace store exposes exactly one mutating operation, `trace`, which
/// appends a location to the end of the store: the stored sequence can only
/// grow, never shrink or reorder. `empty` is the no-argument construction
/// that the store-building operations require of any store type.
pub trait Traced: Sized {
    /// The ordered sequence of locations recorded so far.
    spec fn locations(&self) -> Seq<CodeLocation>;

    /// Constructs a store that has recorded nothing.
    fn empty() -> (s: Self)
        ensures
            s.locations() == Seq::<CodeLocation>::empty(),
    ;

    /// Appends `location` to the end of the store.
    fn trace(&mut self, location: CodeLocation)
        ensures
            final(self).locations() == old(self).locations().push(location),
    ;
}

/// A stack of code locations: the default trace store.
#[derive(Debug, PartialEq, Eq)]
pub struct CodeLocationStack(pub Vec<CodeLocation>);

impl Traced for CodeLocationStack {
    open spec fn locations(&self) -> Seq<CodeLocation> {
        self.0@
    }

    fn empty() -> (s: Self)
        ensures
            s.locations() == Seq::<CodeLocation>::empty(),
    {
        CodeLocationStack(Vec::new())
    }

    fn trace(&mut self, location: CodeLocation)
        ensures
            final(self).locations() == old(self).locations().push(location),
    {
        self.0.push(location);
    }
}

impl CodeLocationStack {
    /// Constructs a new code location stack with `loc` as its only entry.
    pub fn new(loc: CodeLocation) -> (s: Self)
        ensures
            s.locations() == seq![loc],
    {
        let mut s = Self::empty();
        s.trace(loc);
        proof {
            assert(s.locations() =~= seq![loc]);
        }
        s
    }

    /// Renders each recorded location as `origin:line`, in recorded order.
    pub fn to_strings(&self) -> (r: Vec<String>)
        ensures
            r@.len() == self.0@.len(),
            forall|i: int| 0 <= i < r@.len() ==> r@[i]@ == location_text(self.0@[i]),
    {
        let mut r: Vec<String> = Vec::new();
        let mut i: usize = 0;
        while i < self.0.len()
            invariant
                i <= self.0@.len(),
                r@.len() == i,
                forall|j: int| 0 <= j < i ==> r@[j]@ == location_text(self.0@[j]),
            decreases self.0@.len() - i,
        {
            let loc = self.0[i];
            r.push(loc.display_string());
            i += 1;
        }
        r
    }

    /// Renders the whole stack as one indexed line per location, in
    /// recorded order.
    pub fn display_string(&self) -> (r: String)
        ensures
            r@ == trace_text(self.0@),
    {
        let mut s = String::new();
        let mut i: usize = 0;
        while i < self.0.len()
            invariant
                i <= self.0@.len(),
                s@ == trace_text(self.0@.take(i as int)),
            decreases self.0@.len() - i,
        {
            s.append("\n   ");
            let idx = u64_to_dec(i as u64);
            s.append(idx.as_str());
            s.append(": ");
            let loc_s = self.0[i].display_string();
            s.append(loc_s.as_str());
            proof {
                reveal_strlit("\n   ");
                reveal_strlit(": ");
                assert(self.0@.take(i + 1).drop_last() =~= self.0@.take(i as int));
                assert(s@ =~= trace_text(self.0@.take(i + 1)));
            }
            i += 1;
        }
        proof {
            assert(self.0@.take(self.0@.len() as int) =~= self.0@);
        }
        s
    }
}

/// The contents of a trace store after a series of recordings: starting
/// from `locs`, each location of `added` is recorded in turn.
pub open spec fn recorded_after(locs: Seq<CodeLocation>, added: Seq<CodeLocation>) -> Seq<
    CodeLocation,
>
    decreases added.len(),
{
    if added.len() == 0 {
        locs
    } else {
        recorded_after(locs, added.drop_last()).push(added.last())
    }
}

/// Append-only law: no series of recordings can shrink a trace store or
/// move an entry already recorded. Recording is the only operation that
/// changes a store, and after any series of recordings every old entry
/// keeps its place, in order, with the new entries following in the order
/// they were recorded.
pub proof fn lemma_recording_is_append_only(locs: Seq<CodeLocation>, added: Seq<CodeLocation>)
    ensures
        recorded_after(locs, added) =~= locs + added,
        recorded_after(locs, added).len() == locs.len() + added.len(),
        forall|i: int| 0 <= i < locs.len() ==> recorded_after(locs, added)[i] == locs[i],
        forall|i: int|
            0 <= i < added.len() ==> recorded_after(locs, added)[locs.len() + i] == added[i],
    decreases added.len(),
{
    if added.len() == 0 {
        assert(recorded_after(locs, added) =~= locs + added);
    } else {
        lemma_recording_is_append_only(locs, added.drop_last());
        assert(recorded_after(locs, added) =~= locs + added);
    }
}

} // verus!
