//! The source lines at which execution is to stop.
use vstd::prelude::*;
use crate::text_entry::{parse_line_number, parse_line_number_text};
use crate::unique_seq::{lemma_push_fresh, lemma_remove_unique};

verus! {

/// The set of lines after toggling `line`: taken out if present, else put in.
pub open spec fn toggled(lines: Set<usize>, line: usize) -> Set<usize> {
    if lines.contains(line) {
        lines.remove(line)
    } else {
        lines.insert(line)
    }
}

/// The set of lines after a text entry: the line it names put in, or the
/// same set when the entry names no line.
pub open spec fn after_entry(lines: Set<usize>, entry: Seq<char>) -> Set<usize> {
    match parse_line_number(entry) {
        Some(n) => lines.insert(n as usize),
        None => lines,
    }
}

/// Toggling the same line twice gives back the set one started with.
pub proof fn toggle_twice_restores(lines: Set<usize>, line: usize)
    ensures
        toggled(toggled(lines, line), line) == lines,
{
    if lines.contains(line) {
        assert(lines.remove(line).insert(line) =~= lines);
    } else {
        assert(lines.insert(line).remove(line) =~= lines);
    }
}

/// 1-based source line numbers, each at most once, listed in the order in
/// which they were set (the order means nothing but to a listing).
pub struct BreakpointSet {
    lines: Vec<usize>,
}

impl View for BreakpointSet {
    type V = Seq<usize>;

    closed spec fn view(&self) -> Seq<usize> {
        self.lines@
    }
}

impl BreakpointSet {
    /// No line is listed twice.
    pub open spec fn wf(&self) -> bool {
        self@.no_duplicates()
    }

    /// The lines as a set.
    pub open spec fn members(&self) -> Set<usize> {
        self@.to_set()
    }

    pub fn new() -> (r: BreakpointSet)
        ensures
            r.wf(),
            r@ == Seq::<usize>::empty(),
            r.members() == Set::<usize>::empty(),
    {
        let r = BreakpointSet { lines: Vec::new() };
        assert(r.members() =~= Set::<usize>::empty());
        r
    }

    /// The lines in the order in which they were set.
    pub fn lines(&self) -> (r: &Vec<usize>)
        ensures
            r@ == self@,
    {
        &self.lines
    }

    /// Takes every entry out.
    pub fn clear(&mut self)
        ensures
            final(self).wf(),
            final(self)@ == Seq::<usize>::empty(),
            final(self).members() == Set::<usize>::empty(),
    {
        self.lines = Vec::new();
        assert(self.members() =~= Set::<usize>::empty());
    }

    pub fn len(&self) -> (r: usize)
        ensures
            r == self@.len(),
    {
        self.lines.len()
    }

    fn index_of(&self, line: usize) -> (r: Option<usize>)
        ensures
            r.is_some() ==> r.unwrap() < self@.len() && self@[r.unwrap() as int] == line,
            r.is_none() ==> !self@.contains(line),
    {
        let mut i: usize = 0;
        while i < self.lines.len()
            invariant
                i <= self@.len(),
                forall|j: int| 0 <= j < i ==> self@[j] != line,
            decreases self@.len() - i,
        {
            if self.lines[i] == line {
                return Some(i);
            }
            i = i + 1;
        }
        None
    }

    pub fn contains(&self, line: usize) -> (r: bool)
        ensures
            r == self@.contains(line),
            r == self.members().contains(line),
    {
        match self.index_of(line) {
            Some(i) => {
                assert(self@[i as int] == line);
                true
            },
            None => false,
        }
    }

    /// Sets a breakpoint on `line`; one already set stays listed once.
    pub fn add(&mut self, line: usize)
        requires
            old(self).wf(),
        ensures
            final(self).wf(),
            final(self).members() == old(self).members().insert(line),
            old(self)@.contains(line) ==> final(self)@ == old(self)@,
            !old(self)@.contains(line) ==> final(self)@ == old(self)@.push(line),
    {
        if !self.contains(line) {
            proof {
                lemma_push_fresh(self@, line);
            }
            self.lines.push(line);
        } else {
            assert(self@.to_set().insert(line) =~= self@.to_set());
        }
    }

    /// Clears the breakpoint on `line`; a line without one is left as it is.
    pub fn remove(&mut self, line: usize)
        requires
            old(self).wf(),
        ensures
            final(self).wf(),
            final(self).members() == old(self).members().remove(line),
            !old(self)@.contains(line) ==> final(self)@ == old(self)@,
            old(self)@.contains(line) ==> final(self)@.len() == old(self)@.len() - 1,
    {
        match self.index_of(line) {
            Some(i) => {
                proof {
                    lemma_remove_unique(self@, i as int);
                }
                self.lines.remove(i);
            },
            None => {
                assert(self@.to_set().remove(line) =~= self@.to_set());
            },
        }
    }

    /// Clears the breakpoint on `line` if one is set, else sets one.
    pub fn toggle(&mut self, line: usize)
        requires
            old(self).wf(),
        ensures
            final(self).wf(),
            final(self).members() == toggled(old(self).members(), line),
            !old(self)@.contains(line) ==> final(self)@ == old(self)@.push(line),
    {
        if self.contains(line) {
            self.remove(line);
        } else {
            self.add(line);
        }
    }

    /// Sets a breakpoint on the line that `raw` names in decimal, and empties
    /// `raw` whether or not it named one; text that names no line is dropped
    /// without a word.
    pub fn add_from_text(&mut self, raw: &mut String)
        requires
            old(self).wf(),
        ensures
            final(self).wf(),
            final(raw)@ == Seq::<char>::empty(),
            final(self).members() == after_entry(old(self).members(), old(raw)@),
            parse_line_number(old(raw)@).is_none() ==> final(self)@ == old(self)@,
    {
        match parse_line_number_text(raw.as_str()) {
            Some(line) => self.add(line),
            None => {},
        }
        *raw = String::new();
    }
}

} // verus!
