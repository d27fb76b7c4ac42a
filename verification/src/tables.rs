use vstd::prelude::*;

use crate::enums::SelectedBlock;
use crate::models::TransactionModel;
use crate::text::{decimal_of, u8_to_string};

verus! {

/// The cursor of one table: the highlighted row, when there is one.
#[derive(Debug, PartialEq, Clone, Copy)]
pub struct TableState {
    pub selected: Option<usize>,
}

impl Default for TableState {
    /// A fresh cursor highlights nothing.
    fn default() -> (r: TableState)
        ensures
            r.selected is None,
    {
        TableState { selected: None }
    }
}

/// One category table as it is drawn: its cursor and its rendered rows, one
/// row of cells per record.
#[derive(Debug, PartialEq)]
pub struct CustomTableState {
    pub state: TableState,
    pub items: Vec<Vec<String>>,
}

/// The day cell of a rendered row: the day in decimal, or empty for a record
/// without a day.
pub open spec fn day_cell(day: Option<u8>) -> Seq<char> {
    match day {
        Some(d) => decimal_of(d as int),
        None => Seq::empty(),
    }
}

/// The amount cell of a rendered row: a dollar mark, the amount text, a
/// space, and the currency.
pub open spec fn amount_cell(t: TransactionModel) -> Seq<char> {
    "$"@ + t.amount_label@ + " "@ + t.currency.spec_label()
}

/// The note cell of a rendered row: the note, or empty for a record without
/// one.
pub open spec fn note_cell(note: Option<String>) -> Seq<char> {
    match note {
        Some(n) => n@,
        None => Seq::empty(),
    }
}

/// The three cells a record is rendered to: day, amount, note.
pub open spec fn render_row(t: TransactionModel) -> Seq<Seq<char>> {
    seq![day_cell(t.day), amount_cell(t), note_cell(t.note)]
}

/// Renders the rows of one category table from its records, one row per
/// record, in the given order.
pub fn get_transactions_row(transactions: &Vec<TransactionModel>) -> (r: Vec<Vec<String>>)
    ensures
        r@.len() == transactions@.len(),
        forall|i: int|
            0 <= i < transactions@.len() ==> #[trigger] r@[i].deep_view() == render_row(
                transactions@[i],
            ),
{
    let mut r: Vec<Vec<String>> = Vec::new();
    let mut i: usize = 0;
    while i < transactions.len()
        invariant
            i <= transactions@.len(),
            r@.len() == i as int,
            forall|j: int|
                0 <= j < i ==> #[trigger] r@[j].deep_view() == render_row(transactions@[j]),
        decreases transactions@.len() - i,
    {
        let t = &transactions[i];
        let day = match t.day {
            Some(d) => u8_to_string(d),
            None => String::new(),
        };
        let currency_label = t.currency.label();
        let amount = "$".to_owned().concat(t.amount_label.as_str()).concat(" ").concat(
            currency_label.as_str(),
        );
        let note = match &t.note {
            Some(n) => n.clone(),
            None => String::new(),
        };
        let mut row: Vec<String> = Vec::new();
        row.push(day);
        row.push(amount);
        row.push(note);
        proof {
            assert(row.deep_view() =~= render_row(transactions@[i as int]));
        }
        r.push(row);
        i += 1;
    }
    r
}

/// The row the highlight moves to on a step down: the next row, the first
/// row from the last one or from no highlight, and the first row of an empty
/// table.
pub open spec fn next_row_index(sel: Option<usize>, len: nat) -> int {
    if len == 0 {
        0
    } else {
        match sel {
            Some(i) => if i + 1 >= len {
                0
            } else {
                i + 1
            },
            None => 0,
        }
    }
}

/// The row the highlight moves to on a step up: the previous row, the last
/// row from the first one or from no highlight at the first row, and the
/// first row of an empty table.
pub open spec fn prev_row_index(sel: Option<usize>, len: nat) -> int {
    if len == 0 {
        0
    } else {
        match sel {
            Some(i) => if i == 0 {
                len - 1
            } else {
                i - 1
            },
            None => 0,
        }
    }
}

/// On a table with rows, stepping keeps the highlight on a row, and a step
/// down followed by a step up, or the other way round, restores any
/// highlighted row.  (the cyclic inverse law)
pub proof fn lemma_row_steps_invert(i: usize, len: usize)
    requires
        0 < len,
        i < len,
    ensures
        0 <= next_row_index(Some(i), len as nat) < len,
        0 <= prev_row_index(Some(i), len as nat) < len,
        prev_row_index(Some(next_row_index(Some(i), len as nat) as usize), len as nat) == i as int,
        next_row_index(Some(prev_row_index(Some(i), len as nat) as usize), len as nat) == i as int,
{
}

/// On a table without rows, a step in either direction always yields the
/// first row's index, never an error.
pub proof fn lemma_row_steps_empty(sel: Option<usize>)
    ensures
        next_row_index(sel, 0) == 0,
        prev_row_index(sel, 0) == 0,
{
}

/// The three category tables, their raw records, and the optional snapshot
/// shown in the details overlay.
#[derive(Debug)]
pub struct TransactionsTableState {
    pub incomes: CustomTableState,
    pub expenses: CustomTableState,
    pub savings: CustomTableState,
    pub row_expenses: Vec<TransactionModel>,
    pub row_incomes: Vec<TransactionModel>,
    pub row_savings: Vec<TransactionModel>,
    pub transactions_details: Option<TransactionModel>,
}

/// How one step down changes the three tables: only the named panel's
/// cursor moves, cyclically over its rows; rows, records and the overlay
/// stay; any other panel leaves everything unchanged.
pub open spec fn table_next_transition(
    pre: TransactionsTableState,
    post: TransactionsTableState,
    block: SelectedBlock,
) -> bool {
    &&& post.row_expenses == pre.row_expenses
    &&& post.row_incomes == pre.row_incomes
    &&& post.row_savings == pre.row_savings
    &&& post.transactions_details == pre.transactions_details
    &&& post.incomes.items == pre.incomes.items
    &&& post.expenses.items == pre.expenses.items
    &&& post.savings.items == pre.savings.items
    &&& (block == SelectedBlock::Incomes ==> post.incomes.state.selected == Some(
        next_row_index(pre.incomes.state.selected, pre.incomes.items@.len()) as usize,
    ) && post.expenses == pre.expenses && post.savings == pre.savings)
    &&& (block == SelectedBlock::Expenses ==> post.expenses.state.selected == Some(
        next_row_index(pre.expenses.state.selected, pre.expenses.items@.len()) as usize,
    ) && post.incomes == pre.incomes && post.savings == pre.savings)
    &&& (block == SelectedBlock::Savings ==> post.savings.state.selected == Some(
        next_row_index(pre.savings.state.selected, pre.savings.items@.len()) as usize,
    ) && post.incomes == pre.incomes && post.expenses == pre.expenses)
    &&& (!(block == SelectedBlock::Incomes || block == SelectedBlock::Expenses || block
        == SelectedBlock::Savings) ==> post == pre)
}

/// How one step up changes the three tables, as `table_next_transition` but
/// with the cursor moving the other way.
pub open spec fn table_prev_transition(
    pre: TransactionsTableState,
    post: TransactionsTableState,
    block: SelectedBlock,
) -> bool {
    &&& post.row_expenses == pre.row_expenses
    &&& post.row_incomes == pre.row_incomes
    &&& post.row_savings == pre.row_savings
    &&& post.transactions_details == pre.transactions_details
    &&& post.incomes.items == pre.incomes.items
    &&& post.expenses.items == pre.expenses.items
    &&& post.savings.items == pre.savings.items
    &&& (block == SelectedBlock::Incomes ==> post.incomes.state.selected == Some(
        prev_row_index(pre.incomes.state.selected, pre.incomes.items@.len()) as usize,
    ) && post.expenses == pre.expenses && post.savings == pre.savings)
    &&& (block == SelectedBlock::Expenses ==> post.expenses.state.selected == Some(
        prev_row_index(pre.expenses.state.selected, pre.expenses.items@.len()) as usize,
    ) && post.incomes == pre.incomes && post.savings == pre.savings)
    &&& (block == SelectedBlock::Savings ==> post.savings.state.selected == Some(
        prev_row_index(pre.savings.state.selected, pre.savings.items@.len()) as usize,
    ) && post.incomes == pre.incomes && post.expenses == pre.expenses)
    &&& (!(block == SelectedBlock::Incomes || block == SelectedBlock::Expenses || block
        == SelectedBlock::Savings) ==> post == pre)
}

impl TransactionsTableState {
    /// Each table shows exactly its records: one rendered row per record, in
    /// order.
    pub open spec fn rows_consistent(self) -> bool {
        &&& self.incomes.items@.len() == self.row_incomes@.len()
        &&& self.expenses.items@.len() == self.row_expenses@.len()
        &&& self.savings.items@.len() == self.row_savings@.len()
        &&& forall|i: int|
            0 <= i < self.row_incomes@.len() ==> #[trigger] self.incomes.items@[i].deep_view()
                == render_row(self.row_incomes@[i])
        &&& forall|i: int|
            0 <= i < self.row_expenses@.len() ==> #[trigger] self.expenses.items@[i].deep_view()
                == render_row(self.row_expenses@[i])
        &&& forall|i: int|
            0 <= i < self.row_savings@.len() ==> #[trigger] self.savings.items@[i].deep_view()
                == render_row(self.row_savings@[i])
    }

    pub fn new(
        incomes: CustomTableState,
        expenses: CustomTableState,
        savings: CustomTableState,
        row_expenses: Vec<TransactionModel>,
        row_incomes: Vec<TransactionModel>,
        row_savings: Vec<TransactionModel>,
    ) -> (r: TransactionsTableState)
        ensures
            r.incomes == incomes,
            r.expenses == expenses,
            r.savings == savings,
            r.row_expenses == row_expenses,
            r.row_incomes == row_incomes,
            r.row_savings == row_savings,
            r.transactions_details is None,
    {
        TransactionsTableState {
            incomes,
            expenses,
            savings,
            row_expenses,
            row_incomes,
            row_savings,
            transactions_details: None,
        }
    }

    /// Moves the highlight of the table the given panel names one row down,
    /// cyclically; the other tables and all records stay as they are.
    pub fn next(&mut self, selected_block: &SelectedBlock)
        ensures
            table_next_transition(*old(self), *final(self), *selected_block),
    {
        match selected_block {
            SelectedBlock::Incomes => {
                self.incomes.state.selected = Some(
                    Self::step_down(self.incomes.state.selected, self.incomes.items.len()),
                );
            },
            SelectedBlock::Savings => {
                self.savings.state.selected = Some(
                    Self::step_down(self.savings.state.selected, self.savings.items.len()),
                );
            },
            SelectedBlock::Expenses => {
                self.expenses.state.selected = Some(
                    Self::step_down(self.expenses.state.selected, self.expenses.items.len()),
                );
            },
            _ => {},
        }
    }

    /// Moves the highlight of the table the given panel names one row up,
    /// cyclically; the other tables and all records stay as they are.
    pub fn previous(&mut self, selected_block: &SelectedBlock)
        ensures
            table_prev_transition(*old(self), *final(self), *selected_block),
    {
        match selected_block {
            SelectedBlock::Incomes => {
                self.incomes.state.selected = Some(
                    Self::step_up(self.incomes.state.selected, self.incomes.items.len()),
                );
            },
            SelectedBlock::Savings => {
                self.savings.state.selected = Some(
                    Self::step_up(self.savings.state.selected, self.savings.items.len()),
                );
            },
            SelectedBlock::Expenses => {
                self.expenses.state.selected = Some(
                    Self::step_up(self.expenses.state.selected, self.expenses.items.len()),
                );
            },
            _ => {},
        }
    }

    fn step_down(sel: Option<usize>, len: usize) -> (r: usize)
        ensures
            r as int == next_row_index(sel, len as nat),
    {
        if len == 0 {
            0
        } else {
            match sel {
                Some(i) => if i >= len - 1 {
                    0
                } else {
                    i + 1
                },
                None => 0,
            }
        }
    }

    fn step_up(sel: Option<usize>, len: usize) -> (r: usize)
        ensures
            r as int == prev_row_index(sel, len as nat),
    {
        if len == 0 {
            0
        } else {
            match sel {
                Some(i) => if i == 0 {
                    len - 1
                } else {
                    i - 1
                },
                None => 0,
            }
        }
    }
}

} // verus!
