use vstd::prelude::*;

verus! {

/// The titles of the control surface's tabs and the index of the selected one.
#[derive(Debug, Default)]
pub struct TabsState<'a> {
    pub titles: Vec<&'a str>,
    pub index: usize,
}

impl<'a> TabsState<'a> {
    /// The selected index names an existing tab.
    pub open spec fn wf(&self) -> bool {
        self.index < self.titles@.len()
    }

    /// A tab bar over `titles` with the first tab selected.
    pub fn new(titles: Vec<&'a str>) -> (r: Self)
        ensures
            r.titles@ == titles@,
            r.index == 0,
    {
        TabsState { titles, index: 0 }
    }

    /// Selects the following tab, wrapping from the last to the first.
    pub fn next(&mut self)
        requires
            old(self).titles@.len() > 0,
        ensures
            final(self).titles@ == old(self).titles@,
            final(self).index == (old(self).index as int + 1) % (old(self).titles@.len() as int),
    {
        let n = self.titles.len();
        if self.index < n {
            self.index = (self.index + 1) % n;
        } else {
            // an index past the end may be the largest usize; reduce it first
            let i: usize = self.index % n;
            assert((self.index as int + 1) % (n as int) == (i as int + 1) % (n as int)) by (nonlinear_arith)
                requires
                    i == self.index % n,
                    n > 0,
            {
                vstd::arithmetic::div_mod::lemma_add_mod_noop(self.index as int, 1, n as int);
                vstd::arithmetic::div_mod::lemma_add_mod_noop(i as int, 1, n as int);
            }
            self.index = (i + 1) % n;
        }
    }

    /// Selects the preceding tab, wrapping from the first to the last.
    pub fn previous(&mut self)
        requires
            old(self).titles@.len() > 0,
        ensures
            final(self).titles@ == old(self).titles@,
            final(self).index == if old(self).index > 0 {
                old(self).index - 1
            } else {
                old(self).titles@.len() - 1
            },
    {
        if self.index > 0 {
            self.index -= 1;
        } else {
            self.index = self.titles.len() - 1;
        }
    }
}

} // verus!
