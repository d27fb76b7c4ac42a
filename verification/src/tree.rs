use vstd::prelude::*;
use vstd::pervasive::VecAdditionalExecFns;

use crate::clock::local_month_and_year;
use crate::enums::MonthEnum;
use crate::text::{parse_i32, spec_parse_i32};
use crate::types::MonthByYear;

verus! {

/// The fallback year when a year label does not parse.
pub const FALLBACK_YEAR: i32 = 2023;

/// The year/month picker: an ordered arena of years each owning its month
/// labels, per-node expansion flags, a highlight path, and the derived
/// current month and year every data fetch is keyed by.
///
/// The highlight path is empty, `[year]`, or `[year, month]`; a path into a
/// month is only ever held while that year is expanded.  A month's own
/// expansion flag has no visible effect (months have no children), but it is
/// kept, since collapsing swallows one key press while it is set.
#[derive(Debug)]
pub struct StatefulTree {
    pub items: Vec<MonthByYear>,
    pub opened_years: Vec<bool>,
    pub opened_months: Vec<Vec<bool>>,
    pub selected: Vec<usize>,
    pub current_month: MonthEnum,
    pub current_year: i32,
}

impl StatefulTree {
    /// The flags run parallel to the arena, and the highlight path points at
    /// an existing node, into an expanded year when it names a month.
    pub open spec fn wf(self) -> bool {
        &&& self.opened_years@.len() == self.items@.len()
        &&& self.opened_months@.len() == self.items@.len()
        &&& forall|i: int|
            0 <= i < self.items@.len() ==> #[trigger] self.opened_months@[i]@.len()
                == self.items@[i].months@.len()
        &&& self.selected@.len() <= 2
        &&& self.selected@.len() >= 1 ==> (self.selected@[0] as int) < self.items@.len()
        &&& self.selected@.len() == 2 ==> (self.selected@[1] as int)
            < self.items@[self.selected@[0] as int].months@.len() && self.opened_years@[self.selected@[0] as int]
    }

    /// The month expansion flags, year by year, as plain sequences.
    pub open spec fn month_flags(self) -> Seq<Seq<bool>> {
        Seq::new(self.opened_months@.len(), |i: int| self.opened_months@[i]@)
    }

    /// A picker with no years yet; the current month and year come from the
    /// local clock.
    pub fn new() -> (r: StatefulTree)
        ensures
            r.wf(),
            r.items@.len() == 0,
            r.selected@.len() == 0,
    {
        let (m, y) = local_month_and_year();
        let current_month = match MonthEnum::from_u32(m) {
            Some(x) => x,
            None => MonthEnum::JANUARY,
        };
        StatefulTree {
            items: Vec::new(),
            opened_years: Vec::new(),
            opened_months: Vec::new(),
            selected: Vec::new(),
            current_month,
            current_year: y,
        }
    }

    /// A picker over the given years, every node collapsed and nothing
    /// highlighted; the current month and year come from the local clock.
    pub fn with_items(items: Vec<MonthByYear>) -> (r: StatefulTree)
        ensures
            r.wf(),
            r.items == items,
            r.selected@.len() == 0,
            forall|i: int| 0 <= i < items@.len() ==> !(#[trigger] r.opened_years@[i]),
            forall|i: int, j: int|
                0 <= i < items@.len() && 0 <= j < items@[i].months@.len() ==> !(
                #[trigger] r.opened_months@[i]@[j]),
    {
        let (m, y) = local_month_and_year();
        let current_month = match MonthEnum::from_u32(m) {
            Some(x) => x,
            None => MonthEnum::JANUARY,
        };
        let mut opened_years: Vec<bool> = Vec::new();
        let mut opened_months: Vec<Vec<bool>> = Vec::new();
        let mut i: usize = 0;
        while i < items.len()
            invariant
                i <= items@.len(),
                opened_years@.len() == i as int,
                opened_months@.len() == i as int,
                forall|k: int| 0 <= k < i ==> !(#[trigger] opened_years@[k]),
                forall|k: int|
                    0 <= k < i ==> #[trigger] opened_months@[k]@.len()
                        == items@[k].months@.len(),
                forall|k: int, j: int|
                    0 <= k < i && 0 <= j < items@[k].months@.len() ==> !(
                    #[trigger] opened_months@[k]@[j]),
            decreases items@.len() - i,
        {
            opened_years.push(false);
            let month_count = items[i].months.len();
            let mut flags: Vec<bool> = Vec::new();
            let mut j: usize = 0;
            while j < month_count
                invariant
                    j <= month_count,
                    flags@.len() == j as int,
                    forall|k: int| 0 <= k < j ==> !(#[trigger] flags@[k]),
                decreases month_count - j,
            {
                flags.push(false);
                j += 1;
            }
            opened_months.push(flags);
            i += 1;
        }
        StatefulTree {
            items,
            opened_years,
            opened_months,
            selected: Vec::new(),
            current_month,
            current_year: y,
        }
    }

    /// Highlights the first node, when there is one.
    pub fn first(&mut self)
        requires
            old(self).wf(),
        ensures
            final(self).wf(),
            final(self).items == old(self).items,
            final(self).opened_years == old(self).opened_years,
            final(self).opened_months == old(self).opened_months,
            final(self).current_month == old(self).current_month,
            final(self).current_year == old(self).current_year,
            old(self).items@.len() > 0 ==> final(self).selected@ == seq![0usize],
            old(self).items@.len() == 0 ==> final(self).selected@.len() == 0,
    {
        let mut s: Vec<usize> = Vec::new();
        if self.items.len() > 0 {
            s.push(0);
        }
        proof {
            if self.items@.len() > 0 {
                assert(s@ =~= seq![0usize]);
            }
        }
        self.selected = s;
    }

    /// Highlights the last visible node: the last month of the last year when
    /// that year is expanded, else the last year itself.
    pub fn last(&mut self)
        requires
            old(self).wf(),
        ensures
            final(self).wf(),
            final(self).items == old(self).items,
            final(self).opened_years == old(self).opened_years,
            final(self).opened_months == old(self).opened_months,
            final(self).current_month == old(self).current_month,
            final(self).current_year == old(self).current_year,
            final(self).selected@ == spec_last_path(
                old(self).items@,
                old(self).opened_years@,
            ),
    {
        let mut s: Vec<usize> = Vec::new();
        if self.items.len() > 0 {
            let i = self.items.len() - 1;
            let months = self.items[i].months.len();
            if self.opened_years[i] && months > 0 {
                s.push(i);
                s.push(months - 1);
                proof {
                    assert(s@ =~= seq![i, (months - 1) as usize]);
                }
            } else {
                s.push(i);
                proof {
                    assert(s@ =~= seq![i]);
                }
            }
        }
        self.selected = s;
    }

    /// Moves the highlight one visible node down: from a year into its first
    /// shown month or to the next year, from a month to the next month or the
    /// next year, onto the first node from no highlight, and not past the
    /// last visible node.
    pub fn down(&mut self)
        requires
            old(self).wf(),
        ensures
            final(self).wf(),
            final(self).items == old(self).items,
            final(self).opened_years == old(self).opened_years,
            final(self).opened_months == old(self).opened_months,
            final(self).current_month == old(self).current_month,
            final(self).current_year == old(self).current_year,
            final(self).selected@ == spec_down_path(
                old(self).items@,
                old(self).opened_years@,
                old(self).selected@,
            ),
    {
        if self.items.len() == 0 {
            return ;
        }
        let mut s: Vec<usize> = Vec::new();
        if self.selected.len() == 0 {
            s.push(0);
            proof {
                assert(s@ =~= seq![0usize]);
            }
        } else if self.selected.len() == 1 {
            let i = self.selected[0];
            if self.opened_years[i] && self.items[i].months.len() > 0 {
                s.push(i);
                s.push(0);
                proof {
                    assert(s@ =~= seq![i, 0usize]);
                }
            } else if i + 1 < self.items.len() {
                s.push(i + 1);
                proof {
                    assert(s@ =~= seq![(i + 1) as usize]);
                }
            } else {
                s.push(i);
                proof {
                    assert(s@ =~= seq![i]);
                    assert(s@ =~= old(self).selected@);
                }
            }
        } else {
            let i = self.selected[0];
            let j = self.selected[1];
            let month_count = self.items[i].months.len();
            if j + 1 < month_count {
                s.push(i);
                s.push(j + 1);
                proof {
                    assert(s@ =~= seq![i, (j + 1) as usize]);
                }
            } else if i + 1 < self.items.len() {
                s.push(i + 1);
                proof {
                    assert(s@ =~= seq![(i + 1) as usize]);
                }
            } else {
                s.push(i);
                s.push(j);
                proof {
                    assert(s@ =~= seq![i, j]);
                    assert(s@ =~= old(self).selected@);
                }
            }
        }
        self.selected = s;
    }

    /// Moves the highlight one visible node up: from a month to the previous
    /// month or its year, from a year to the last shown month of the previous
    /// year or that year itself, onto the first node from no highlight, and
    /// not above the first node.
    pub fn up(&mut self)
        requires
            old(self).wf(),
        ensures
            final(self).wf(),
            final(self).items == old(self).items,
            final(self).opened_years == old(self).opened_years,
            final(self).opened_months == old(self).opened_months,
            final(self).current_month == old(self).current_month,
            final(self).current_year == old(self).current_year,
            final(self).selected@ == spec_up_path(
                old(self).items@,
                old(self).opened_years@,
                old(self).selected@,
            ),
    {
        if self.items.len() == 0 {
            return ;
        }
        let mut s: Vec<usize> = Vec::new();
        if self.selected.len() == 0 {
            s.push(0);
            proof {
                assert(s@ =~= seq![0usize]);
            }
        } else if self.selected.len() == 1 {
            let i = self.selected[0];
            if i == 0 {
                s.push(0);
                proof {
                    assert(s@ =~= seq![0usize]);
                    assert(s@ =~= old(self).selected@);
                }
            } else {
                let months = self.items[i - 1].months.len();
                if self.opened_years[i - 1] && months > 0 {
                    s.push(i - 1);
                    s.push(months - 1);
                    proof {
                        assert(s@ =~= seq![(i - 1) as usize, (months - 1) as usize]);
                    }
                } else {
                    s.push(i - 1);
                    proof {
                        assert(s@ =~= seq![(i - 1) as usize]);
                    }
                }
            }
        } else {
            let i = self.selected[0];
            let j = self.selected[1];
            if j == 0 {
                s.push(i);
                proof {
                    assert(s@ =~= seq![i]);
                }
            } else {
                s.push(i);
                s.push(j - 1);
                proof {
                    assert(s@ =~= seq![i, (j - 1) as usize]);
                }
            }
        }
        self.selected = s;
    }

    /// Collapses the highlighted node when it is expanded; otherwise moves
    /// the highlight to its parent, or clears it at the top level.
    pub fn left(&mut self)
        requires
            old(self).wf(),
        ensures
            final(self).wf(),
            left_transition(*old(self), *final(self)),
    {
        if self.selected.len() == 0 {
            return ;
        }
        if self.selected.len() == 1 {
            let i = self.selected[0];
            if self.opened_years[i] {
                self.opened_years.set(i, false);
            } else {
                self.selected = Vec::new();
            }
        } else {
            let i = self.selected[0];
            let j = self.selected[1];
            if self.opened_months[i][j] {
                let mut flags = self.opened_months[i].clone();
                proof {
                    assert(flags@ =~= old(self).opened_months@[i as int]@);
                }
                flags.set(j, false);
                self.opened_months.set(i, flags);
                proof {
                    assert(self.opened_months@[i as int]@ =~= old(self).opened_months@[
                        i as int]@.update(j as int, false));
                    assert(self.month_flags() =~= old(self).month_flags().update(
                        i as int,
                        old(self).month_flags()[i as int].update(j as int, false),
                    ));
                }
            } else {
                let mut s: Vec<usize> = Vec::new();
                s.push(i);
                proof {
                    assert(s@ =~= seq![i]);
                }
                self.selected = s;
            }
        }
    }

    /// Marks the highlighted node expanded; expanding a month has no visible
    /// effect, and no highlight means no change.
    pub fn right(&mut self)
        requires
            old(self).wf(),
        ensures
            final(self).wf(),
            right_transition(*old(self), *final(self)),
    {
        if self.selected.len() == 0 {
            return ;
        }
        if self.selected.len() == 1 {
            let i = self.selected[0];
            self.opened_years.set(i, true);
        } else {
            let i = self.selected[0];
            let j = self.selected[1];
            let mut flags = self.opened_months[i].clone();
            proof {
                assert(flags@ =~= old(self).opened_months@[i as int]@);
            }
            flags.set(j, true);
            self.opened_months.set(i, flags);
            proof {
                assert(self.opened_months@[i as int]@ =~= old(self).opened_months@[
                    i as int]@.update(j as int, true));
                assert(self.month_flags() =~= old(self).month_flags().update(
                    i as int,
                    old(self).month_flags()[i as int].update(j as int, true),
                ));
            }
        }
    }

    /// Flips the expansion of the highlighted node, then recomputes the
    /// current month and year from the labels at the highlight path: the
    /// month by name lookup falling back to January, the year by numeric
    /// parsing falling back to the fixed fallback year.  An empty highlight
    /// changes nothing.
    pub fn toggle(&mut self, months_by_year: &Vec<MonthByYear>)
        requires
            old(self).wf(),
            old(self).selected@.len() >= 1 ==> (old(self).selected@[0] as int)
                < months_by_year@.len(),
            old(self).selected@.len() == 2 ==> (old(self).selected@[1] as int)
                < months_by_year@[old(self).selected@[0] as int].months@.len(),
        ensures
            final(self).wf(),
            toggle_transition(*old(self), *final(self), months_by_year@),
    {
        if self.selected.len() == 0 {
            return ;
        }
        let i = self.selected[0];
        if self.selected.len() == 1 {
            let cur = self.opened_years[i];
            self.opened_years.set(i, !cur);
        } else {
            let j = self.selected[1];
            let cur = self.opened_months[i][j];
            let mut flags = self.opened_months[i].clone();
            proof {
                assert(flags@ =~= old(self).opened_months@[i as int]@);
            }
            flags.set(j, !cur);
            self.opened_months.set(i, flags);
            proof {
                assert(self.opened_months@[i as int]@ =~= old(self).opened_months@[
                    i as int]@.update(j as int, !cur));
                assert(self.month_flags() =~= old(self).month_flags().update(
                    i as int,
                    old(self).month_flags()[i as int].update(j as int, !cur),
                ));
            }
            let month_label = months_by_year[i].months[j].clone();
            self.current_month = match MonthEnum::from_string(month_label) {
                Some(m) => m,
                None => MonthEnum::JANUARY,
            };
        }
        let year_label = months_by_year[i].year.clone();
        self.current_year = match parse_i32(year_label.as_str()) {
            Some(y) => y,
            None => FALLBACK_YEAR,
        };
    }
}

/// The path of the last visible node: the last month of the last year when
/// that year is expanded and has months, else the last year, else nothing.
pub open spec fn spec_last_path(items: Seq<MonthByYear>, opened: Seq<bool>) -> Seq<usize> {
    if items.len() == 0 {
        Seq::empty()
    } else {
        let i = items.len() - 1;
        if opened[i] && items[i].months@.len() > 0 {
            seq![i as usize, (items[i].months@.len() - 1) as usize]
        } else {
            seq![i as usize]
        }
    }
}

/// The highlight path one visible node below the given one.
pub open spec fn spec_down_path(
    items: Seq<MonthByYear>,
    opened: Seq<bool>,
    sel: Seq<usize>,
) -> Seq<usize> {
    if items.len() == 0 {
        sel
    } else if sel.len() == 0 {
        seq![0usize]
    } else if sel.len() == 1 {
        let i = sel[0] as int;
        if opened[i] && items[i].months@.len() > 0 {
            seq![sel[0], 0usize]
        } else if i + 1 < items.len() {
            seq![(i + 1) as usize]
        } else {
            sel
        }
    } else {
        let i = sel[0] as int;
        let j = sel[1] as int;
        if j + 1 < items[i].months@.len() {
            seq![sel[0], (j + 1) as usize]
        } else if i + 1 < items.len() {
            seq![(i + 1) as usize]
        } else {
            sel
        }
    }
}

/// The highlight path one visible node above the given one.
pub open spec fn spec_up_path(
    items: Seq<MonthByYear>,
    opened: Seq<bool>,
    sel: Seq<usize>,
) -> Seq<usize> {
    if items.len() == 0 {
        sel
    } else if sel.len() == 0 {
        seq![0usize]
    } else if sel.len() == 1 {
        let i = sel[0] as int;
        if i == 0 {
            sel
        } else if opened[i - 1] && items[i - 1].months@.len() > 0 {
            seq![(i - 1) as usize, (items[i - 1].months@.len() - 1) as usize]
        } else {
            seq![(i - 1) as usize]
        }
    } else {
        let j = sel[1] as int;
        if j == 0 {
            seq![sel[0]]
        } else {
            seq![sel[0], (j - 1) as usize]
        }
    }
}


/// What one press of the collapse key does: it collapses an expanded
/// highlighted node, and otherwise moves the highlight to the parent, or
/// clears it at the top level.
pub open spec fn left_transition(pre: StatefulTree, post: StatefulTree) -> bool {
    &&& post.items == pre.items
    &&& post.current_month == pre.current_month
    &&& post.current_year == pre.current_year
    &&& pre.selected@.len() == 0 ==> post == pre
    &&& pre.selected@.len() == 1 ==> {
                let i = pre.selected@[0] as int;
                if pre.opened_years@[i] {
                    post.opened_years@ == pre.opened_years@.update(i, false)
                        && post.opened_months == pre.opened_months && post.selected == pre.selected
                } else {
                    post.opened_years == pre.opened_years && post.opened_months
                        == pre.opened_months && post.selected@.len() == 0
                }
            }
    &&& pre.selected@.len() == 2 ==> {
                let i = pre.selected@[0] as int;
                let j = pre.selected@[1] as int;
                if pre.opened_months@[i]@[j] {
                    post.opened_years == pre.opened_years && post.month_flags() == pre.month_flags().update(
                        i,
                        pre.month_flags()[i].update(j, false),
                    ) && post.selected == pre.selected
                } else {
                    post.opened_years == pre.opened_years && post.opened_months
                        == pre.opened_months && post.selected@ == seq![
                        pre.selected@[0],
                    ]
                }
            }
}

/// What one press of the expand key does: it marks the highlighted node
/// expanded; no highlight means no change.
pub open spec fn right_transition(pre: StatefulTree, post: StatefulTree) -> bool {
    &&& post.items == pre.items
    &&& post.selected == pre.selected
    &&& post.current_month == pre.current_month
    &&& post.current_year == pre.current_year
    &&& pre.selected@.len() == 0 ==> post == pre
    &&& pre.selected@.len() == 1 ==> post.opened_years@ == pre.opened_years@.update(pre.selected@[0] as int, true) && post.opened_months == pre.opened_months
    &&& pre.selected@.len() == 2 ==> post.opened_years == pre.opened_years
                && post.month_flags() == pre.month_flags().update(
                pre.selected@[0] as int,
                pre.month_flags()[pre.selected@[0] as int].update(
                    pre.selected@[1] as int,
                    true,
                ),
            )
}

/// What toggling the highlighted node does: its expansion flips, and the
/// current month and year are recomputed from the labels at the highlight
/// path, with their fallbacks; an empty highlight changes nothing.
pub open spec fn toggle_transition(pre: StatefulTree, post: StatefulTree, months: Seq<MonthByYear>) -> bool {
    &&& post.items == pre.items
    &&& post.selected == pre.selected
    &&& pre.selected@.len() == 0 ==> post == pre
    &&& pre.selected@.len() == 1 ==> post.opened_years@ == pre.opened_years@.update(
                pre.selected@[0] as int,
                !pre.opened_years@[pre.selected@[0] as int],
            ) && post.opened_months == pre.opened_months && post.current_month
                == pre.current_month
    &&& pre.selected@.len() == 2 ==> post.opened_years == pre.opened_years
                && post.month_flags() == pre.month_flags().update(
                pre.selected@[0] as int,
                pre.month_flags()[pre.selected@[0] as int].update(
                    pre.selected@[1] as int,
                    !pre.opened_months@[pre.selected@[0] as int]@[pre.selected@[1] as int],
                ),
            ) && post.current_month == (match MonthEnum::spec_from_label(
                months[pre.selected@[0] as int].months@[pre.selected@[1] as int]@,
            ) {
                Some(m) => m,
                None => MonthEnum::JANUARY,
            })
    &&& pre.selected@.len() >= 1 ==> post.current_year == (
            match spec_parse_i32(months[pre.selected@[0] as int].year@) {
                Some(y) => y,
                None => FALLBACK_YEAR,
            })
    &&& pre.selected@.len() == 0 ==> post.current_year == pre.current_year
}

impl Default for StatefulTree {
    fn default() -> (r: StatefulTree)
        ensures
            r.wf(),
            r.items@.len() == 0,
            r.selected@.len() == 0,
    {
        StatefulTree::new()
    }
}

} // verus!
