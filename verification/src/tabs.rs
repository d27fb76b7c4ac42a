use vstd::prelude::*;

verus! {

/// The tab strip: a fixed ordered set of tab titles and the index of the
/// active tab.  Navigation is cyclic over the title count.
#[derive(Debug)]
pub struct TabsState {
    pub titles: Vec<String>,
    pub index: usize,
}

/// The index reached from `i` by one step forward in a cycle of `len` tabs.
pub open spec fn next_tab_index(i: int, len: int) -> int {
    (i + 1) % len
}

/// The index reached from `i` by one step backward in a cycle of `len` tabs.
pub open spec fn prev_tab_index(i: int, len: int) -> int {
    if i > 0 {
        i - 1
    } else {
        len - 1
    }
}

impl TabsState {
    /// The strip is well formed when it has at least one title and the active
    /// index points at one of them.
    pub open spec fn wf(self) -> bool {
        self.titles.len() > 0 && self.index < self.titles.len()
    }

    pub fn new(titles: Vec<String>, index: usize) -> (r: TabsState)
        ensures
            r.titles == titles,
            r.index == index,
    {
        TabsState { titles, index }
    }

    pub fn next(&mut self)
        requires
            old(self).wf(),
        ensures
            final(self).wf(),
            final(self).titles == old(self).titles,
            final(self).index == next_tab_index(old(self).index as int, old(self).titles.len() as int),
    {
        self.index = (self.index + 1) % self.titles.len();
    }

    pub fn previouse(&mut self)
        requires
            old(self).wf(),
        ensures
            final(self).wf(),
            final(self).titles == old(self).titles,
            final(self).index == prev_tab_index(old(self).index as int, old(self).titles.len() as int),
    {
        if self.index > 0 {
            self.index -= 1;
        } else {
            self.index = self.titles.len() - 1;
        }
    }
}

impl Default for TabsState {
    /// The dashboard's strip: All, Expenses, Incomes, Savings, with All active.
    fn default() -> (r: TabsState)
        ensures
            r.wf(),
            r.index == 0,
            r.titles@.len() == 4,
            r.titles@[0]@ == "All"@,
            r.titles@[1]@ == "Expenses"@,
            r.titles@[2]@ == "Incomes"@,
            r.titles@[3]@ == "Savings"@,
    {
        let mut titles: Vec<String> = Vec::new();
        titles.push("All".to_owned());
        titles.push("Expenses".to_owned());
        titles.push("Incomes".to_owned());
        titles.push("Savings".to_owned());
        TabsState { titles, index: 0 }
    }
}

/// One forward step lands on `i + 1`, or back on 0 from the last tab.
proof fn lemma_tab_next_unfolded(i: int, len: int)
    requires
        0 <= i < len,
    ensures
        next_tab_index(i, len) == if i + 1 == len {
            0int
        } else {
            i + 1
        },
{
    if i + 1 == len {
        assert((i + 1) % len == 0) by (nonlinear_arith)
            requires
                len > 0,
                i + 1 == len,
        ;
    } else {
        assert((i + 1) % len == i + 1) by (nonlinear_arith)
            requires
                0 <= i + 1 < len,
        ;
    }
}

/// Stepping forward four times around a strip of four tabs returns to the
/// starting index, whatever that index is.
pub proof fn lemma_tab_next_cycles(i: int)
    requires
        0 <= i < 4,
    ensures
        next_tab_index(next_tab_index(next_tab_index(next_tab_index(i, 4), 4), 4), 4) == i,
{
    lemma_tab_next_unfolded(i, 4);
    lemma_tab_next_unfolded(next_tab_index(i, 4), 4);
    lemma_tab_next_unfolded(next_tab_index(next_tab_index(i, 4), 4), 4);
    lemma_tab_next_unfolded(next_tab_index(next_tab_index(next_tab_index(i, 4), 4), 4), 4);
}

/// One step backward undoes one step forward, and the other way round, for
/// every valid index in a strip of any size.
pub proof fn lemma_tab_prev_inverts_next(i: int, len: int)
    requires
        0 <= i < len,
    ensures
        prev_tab_index(next_tab_index(i, len), len) == i,
        next_tab_index(prev_tab_index(i, len), len) == i,
{
    lemma_tab_next_unfolded(i, len);
    lemma_tab_next_unfolded(prev_tab_index(i, len), len);
}

} // verus!
