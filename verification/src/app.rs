use vstd::prelude::*;

use crate::enums::SelectedBlock;
use crate::models::{CustomError, TransactionModel};
use crate::sorting::{sort, sort_by_day};
use crate::tables::{
    get_transactions_row, table_next_transition, table_prev_transition, CustomTableState,
    TableState, TransactionsTableState,
};
use crate::tabs::{next_tab_index, prev_tab_index, TabsState};
use crate::tree::{left_transition, right_transition, spec_down_path, spec_up_path,
    toggle_transition, StatefulTree};
use crate::types::{MonthByYear, TransactionBalances};

verus! {

/// A key press, as the dispatcher distinguishes them; anything it does not
/// react to is `Other`.
#[derive(Clone, Copy, Debug, PartialEq, Eq)]
pub enum KeyCode {
    Char(char),
    Enter,
    Left,
    Right,
    Up,
    Down,
    Other,
}

/// What the event loop must do after a key was handled: nothing, refetch the
/// category tables and the summary, or refetch those and the total savings
/// too.
#[derive(Clone, Copy, Debug, PartialEq, Eq, Structural)]
pub enum Action {
    Nothing,
    RefreshTables,
    ReloadAll,
}

/// The focus transition table, forward direction: which panel owns input
/// next, given the owning panel and the active tab.  With the All tab the
/// five panels form one cycle; with a single-category tab the cycle
/// collapses to Months, Tabs and that category, and the other two category
/// panels stand still.
pub open spec fn next_focus(block: SelectedBlock, tab: int) -> SelectedBlock {
    if tab == 0 {
        match block {
            SelectedBlock::Months => SelectedBlock::Tabs,
            SelectedBlock::Tabs => SelectedBlock::Incomes,
            SelectedBlock::Incomes => SelectedBlock::Expenses,
            SelectedBlock::Expenses => SelectedBlock::Savings,
            SelectedBlock::Savings => SelectedBlock::Months,
            _ => block,
        }
    } else if tab == 1 {
        match block {
            SelectedBlock::Months => SelectedBlock::Tabs,
            SelectedBlock::Tabs => SelectedBlock::Expenses,
            SelectedBlock::Expenses => SelectedBlock::Months,
            _ => block,
        }
    } else if tab == 2 {
        match block {
            SelectedBlock::Months => SelectedBlock::Tabs,
            SelectedBlock::Tabs => SelectedBlock::Incomes,
            SelectedBlock::Incomes => SelectedBlock::Months,
            _ => block,
        }
    } else if tab == 3 {
        match block {
            SelectedBlock::Months => SelectedBlock::Tabs,
            SelectedBlock::Tabs => SelectedBlock::Savings,
            SelectedBlock::Savings => SelectedBlock::Months,
            _ => block,
        }
    } else {
        block
    }
}

/// The focus transition table, backward direction: the exact reverse of
/// `next_focus` on each tab's cycle.
pub open spec fn prev_focus(block: SelectedBlock, tab: int) -> SelectedBlock {
    if tab == 0 {
        match block {
            SelectedBlock::Months => SelectedBlock::Savings,
            SelectedBlock::Tabs => SelectedBlock::Months,
            SelectedBlock::Incomes => SelectedBlock::Tabs,
            SelectedBlock::Expenses => SelectedBlock::Incomes,
            SelectedBlock::Savings => SelectedBlock::Expenses,
            _ => block,
        }
    } else if tab == 1 {
        match block {
            SelectedBlock::Months => SelectedBlock::Expenses,
            SelectedBlock::Tabs => SelectedBlock::Months,
            SelectedBlock::Expenses => SelectedBlock::Tabs,
            _ => block,
        }
    } else if tab == 2 {
        match block {
            SelectedBlock::Months => SelectedBlock::Incomes,
            SelectedBlock::Tabs => SelectedBlock::Months,
            SelectedBlock::Incomes => SelectedBlock::Tabs,
            _ => block,
        }
    } else if tab == 3 {
        match block {
            SelectedBlock::Months => SelectedBlock::Savings,
            SelectedBlock::Tabs => SelectedBlock::Months,
            SelectedBlock::Savings => SelectedBlock::Tabs,
            _ => block,
        }
    } else {
        block
    }
}

/// On every tab and from every panel, one backward step undoes one forward
/// step and one forward step undoes one backward step.
pub proof fn lemma_focus_prev_inverts_next(block: SelectedBlock, tab: int)
    ensures
        prev_focus(next_focus(block, tab), tab) == block,
        next_focus(prev_focus(block, tab), tab) == block,
{
}

/// On a single-category tab the focus cycle collapses to length three:
/// three forward steps from Months, from Tabs or from that category's own
/// panel return to the start.
pub proof fn lemma_focus_cycle_collapses(block: SelectedBlock, tab: int)
    requires
        1 <= tab <= 3,
        block == SelectedBlock::Months || block == SelectedBlock::Tabs || (tab == 1 && block
            == SelectedBlock::Expenses) || (tab == 2 && block == SelectedBlock::Incomes) || (tab
            == 3 && block == SelectedBlock::Savings),
    ensures
        next_focus(next_focus(next_focus(block, tab), tab), tab) == block,
{
}

/// On a single-category tab the two category panels that are not that tab's
/// own stand still under cyclic navigation, in both directions: they are
/// reachable only by the direct-jump keys.
pub proof fn lemma_focus_off_tab_categories_fixed(block: SelectedBlock, tab: int)
    requires
        1 <= tab <= 3,
        block == SelectedBlock::Incomes || block == SelectedBlock::Expenses || block
            == SelectedBlock::Savings,
        !(tab == 1 && block == SelectedBlock::Expenses),
        !(tab == 2 && block == SelectedBlock::Incomes),
        !(tab == 3 && block == SelectedBlock::Savings),
    ensures
        next_focus(block, tab) == block,
        prev_focus(block, tab) == block,
{
}

/// Everything the dashboard draws and mutates: the picker, the focus,
/// the tables, the tab strip, the summary, the overlay flag, and the session
/// token the fetches carry.
pub struct App {
    pub tree: StatefulTree,
    pub selected_block: SelectedBlock,
    pub user_token: String,
    pub is_navigation: bool,
    pub transactions_header: Vec<String>,
    pub table_state: TransactionsTableState,
    pub summary: TransactionBalances,
    pub months_by_year: Vec<MonthByYear>,
    pub tabs: TabsState,
    pub details_shown: bool,
    pub total_saving: i64,
}

/// What one refresh brings back from the service before it is sorted in:
/// the expense records with the installment records already appended, and
/// the income and saving records.
pub struct FetchedTransactions {
    pub expenses: Vec<TransactionModel>,
    pub incomes: Vec<TransactionModel>,
    pub savings: Vec<TransactionModel>,
}

/// Appends the installment records after the expense records, keeping each
/// fetched order, and bundles the three category sequences of one refresh.
pub fn combine_transactions(
    expenses: Vec<TransactionModel>,
    installments: Vec<TransactionModel>,
    incomes: Vec<TransactionModel>,
    savings: Vec<TransactionModel>,
) -> (r: FetchedTransactions)
    ensures
        r.expenses@ == expenses@ + installments@,
        r.incomes == incomes,
        r.savings == savings,
{
    let mut expenses = expenses;
    let mut installments = installments;
    expenses.append(&mut installments);
    FetchedTransactions { expenses, incomes, savings }
}

/// The data the dashboard starts from: one fetched set of everything it
/// shows, plus the picker built over the same years.
pub struct DataTable {
    pub months_by_year: Vec<MonthByYear>,
    pub expenses: Vec<TransactionModel>,
    pub incomes: Vec<TransactionModel>,
    pub savings: Vec<TransactionModel>,
    pub summary: TransactionBalances,
    pub tree: StatefulTree,
    pub total_saving: i64,
}

/// Whether the picker's arena and the month listing describe the same
/// hierarchy shape: as many years, and month for month as many months.
pub fn months_aligned_check(tree: &StatefulTree, months_by_year: &Vec<MonthByYear>) -> (b: bool)
    ensures
        b == (tree.items@.len() == months_by_year@.len() && (forall|i: int|
            0 <= i < months_by_year@.len() ==> #[trigger] tree.items@[i].months@.len()
                == months_by_year@[i].months@.len())),
{
    if tree.items.len() != months_by_year.len() {
        return false;
    }
    let mut i: usize = 0;
    while i < months_by_year.len()
        invariant
            i <= months_by_year@.len(),
            tree.items@.len() == months_by_year@.len(),
            forall|k: int|
                0 <= k < i ==> #[trigger] tree.items@[k].months@.len()
                    == months_by_year@[k].months@.len(),
        decreases months_by_year@.len() - i,
    {
        if tree.items[i].months.len() != months_by_year[i].months.len() {
            proof {
                assert(tree.items@[i as int].months@.len()
                    != months_by_year@[i as int].months@.len());
            }
            return false;
        }
        i += 1;
    }
    true
}

/// What happens to the overlay when a row is activated on a category panel
/// while a single-category tab is active: with a highlighted row that
/// exists, the overlay takes a snapshot of that row's full record and is
/// shown; with no highlight, or a stale highlight past the rows, nothing
/// changes.  The dispatcher never applies this under the All tab: the
/// overlay is never populated while that tab is active.
pub open spec fn details_opened(
    pre: App,
    post: App,
    sel: Option<usize>,
    rows: Seq<TransactionModel>,
) -> bool {
    match sel {
        Some(i) => if (i as int) < rows.len() {
            post == (App { details_shown: true, table_state: post.table_state, ..pre })
                && post.table_state == (TransactionsTableState {
                transactions_details: Some(rows[i as int]),
                ..pre.table_state
            })
        } else {
            post == pre
        },
        None => post == pre,
    }
}

/// The whole keyboard transition relation: what one key press does to the
/// dashboard state, for every key and every focus.
pub open spec fn key_transition(pre: App, post: App, key: KeyCode) -> bool {
    match key {
        KeyCode::Char(c) => if c == 'j' {
            if pre.is_navigation {
                post == (App {
                    selected_block: next_focus(pre.selected_block, pre.tabs.index as int),
                    ..pre
                })
            } else {
                post == pre
            }
        } else if c == 'k' {
            if pre.is_navigation {
                post == (App {
                    selected_block: prev_focus(pre.selected_block, pre.tabs.index as int),
                    ..pre
                })
            } else {
                post == pre
            }
        } else if c == 'm' {
            post == (App { selected_block: SelectedBlock::Months, ..pre })
        } else if c == 'e' {
            post == (App { selected_block: SelectedBlock::Expenses, ..pre })
        } else if c == 'i' {
            post == (App { selected_block: SelectedBlock::Incomes, ..pre })
        } else if c == 's' {
            post == (App { selected_block: SelectedBlock::Savings, ..pre })
        } else {
            post == pre
        },
        KeyCode::Enter => match pre.selected_block {
            SelectedBlock::Savings => if pre.tabs.index == 0 {
                post == pre
            } else {
                details_opened(
                    pre,
                    post,
                    pre.table_state.savings.state.selected,
                    pre.table_state.row_savings@,
                )
            },
            SelectedBlock::Incomes => if pre.tabs.index == 0 {
                post == pre
            } else {
                details_opened(
                    pre,
                    post,
                    pre.table_state.incomes.state.selected,
                    pre.table_state.row_incomes@,
                )
            },
            SelectedBlock::Expenses => if pre.tabs.index == 0 {
                post == pre
            } else {
                details_opened(
                    pre,
                    post,
                    pre.table_state.expenses.state.selected,
                    pre.table_state.row_expenses@,
                )
            },
            SelectedBlock::Months => toggle_transition(pre.tree, post.tree, pre.months_by_year@)
                && post == (App { tree: post.tree, ..pre }),
            _ => post == pre,
        },
        KeyCode::Left => if pre.selected_block == SelectedBlock::Months {
            left_transition(pre.tree, post.tree) && post == (App { tree: post.tree, ..pre })
        } else if pre.selected_block == SelectedBlock::Tabs {
            post.tabs.titles == pre.tabs.titles && post.tabs.index as int == prev_tab_index(
                pre.tabs.index as int,
                pre.tabs.titles@.len() as int,
            ) && post.table_state == (TransactionsTableState {
                transactions_details: None,
                ..pre.table_state
            }) && post == (App {
                details_shown: false,
                table_state: post.table_state,
                tabs: post.tabs,
                ..pre
            })
        } else {
            post == pre
        },
        KeyCode::Right => if pre.selected_block == SelectedBlock::Months {
            right_transition(pre.tree, post.tree) && post == (App { tree: post.tree, ..pre })
        } else if pre.selected_block == SelectedBlock::Tabs {
            post.tabs.titles == pre.tabs.titles && post.tabs.index as int == next_tab_index(
                pre.tabs.index as int,
                pre.tabs.titles@.len() as int,
            ) && post.table_state == (TransactionsTableState {
                transactions_details: None,
                ..pre.table_state
            }) && post == (App {
                details_shown: false,
                table_state: post.table_state,
                tabs: post.tabs,
                ..pre
            })
        } else {
            post == pre
        },
        KeyCode::Down => match pre.selected_block {
            SelectedBlock::Months => post.tree == (StatefulTree {
                selected: post.tree.selected,
                ..pre.tree
            }) && post.tree.selected@ == spec_down_path(
                pre.tree.items@,
                pre.tree.opened_years@,
                pre.tree.selected@,
            ) && post == (App { tree: post.tree, ..pre }),
            SelectedBlock::Incomes | SelectedBlock::Expenses | SelectedBlock::Savings =>
                table_next_transition(pre.table_state, post.table_state, pre.selected_block)
                && post == (App { table_state: post.table_state, ..pre }),
            _ => post == pre,
        },
        KeyCode::Up => match pre.selected_block {
            SelectedBlock::Months => post.tree == (StatefulTree {
                selected: post.tree.selected,
                ..pre.tree
            }) && post.tree.selected@ == spec_up_path(
                pre.tree.items@,
                pre.tree.opened_years@,
                pre.tree.selected@,
            ) && post == (App { tree: post.tree, ..pre }),
            SelectedBlock::Incomes | SelectedBlock::Expenses | SelectedBlock::Savings =>
                table_prev_transition(pre.table_state, post.table_state, pre.selected_block)
                && post == (App { table_state: post.table_state, ..pre }),
            _ => post == pre,
        },
        KeyCode::Other => post == pre,
    }
}

/// The action one key press asks of the event loop: activating the months
/// panel starts a refresh, the reload key a full reload, everything else
/// nothing.
pub open spec fn action_for(pre: App, key: KeyCode) -> Action {
    match key {
        KeyCode::Enter => if pre.selected_block == SelectedBlock::Months {
            Action::RefreshTables
        } else {
            Action::Nothing
        },
        KeyCode::Char(c) => if c == 'r' {
            Action::ReloadAll
        } else {
            Action::Nothing
        },
        _ => Action::Nothing,
    }
}

impl App {
    /// The picker's shape and the month listing agree, so a highlight path
    /// into the picker always names a listed month.
    pub open spec fn months_aligned(self) -> bool {
        &&& self.tree.items@.len() == self.months_by_year@.len()
        &&& forall|i: int|
            0 <= i < self.months_by_year@.len() ==> #[trigger] self.tree.items@[i].months@.len()
                == self.months_by_year@[i].months@.len()
    }

    pub open spec fn wf(self) -> bool {
        &&& self.tree.wf()
        &&& self.tabs.wf()
        &&& self.months_aligned()
        &&& self.table_state.rows_consistent()
    }

    /// Builds the dashboard over one fetched data set: focus on the months
    /// panel, the All tab active, fresh cursors, no overlay, and each table
    /// rendered from its records.
    pub fn new(data_table: DataTable, user_token: String) -> (r: App)
        requires
            data_table.tree.wf(),
            data_table.tree.items@.len() == data_table.months_by_year@.len(),
            forall|i: int|
                0 <= i < data_table.months_by_year@.len()
                    ==> #[trigger] data_table.tree.items@[i].months@.len()
                    == data_table.months_by_year@[i].months@.len(),
        ensures
            r.wf(),
            r.tree == data_table.tree,
            r.selected_block == SelectedBlock::Months,
            r.user_token == user_token,
            r.is_navigation == true,
            r.months_by_year == data_table.months_by_year,
            r.summary == data_table.summary,
            r.total_saving == data_table.total_saving,
            r.details_shown == false,
            r.tabs.index == 0,
            r.tabs.titles@.len() == 4,
            r.tabs.titles@[0]@ == "All"@,
            r.tabs.titles@[1]@ == "Expenses"@,
            r.tabs.titles@[2]@ == "Incomes"@,
            r.tabs.titles@[3]@ == "Savings"@,
            r.table_state.row_expenses == data_table.expenses,
            r.table_state.row_incomes == data_table.incomes,
            r.table_state.row_savings == data_table.savings,
            r.table_state.incomes.state.selected is None,
            r.table_state.expenses.state.selected is None,
            r.table_state.savings.state.selected is None,
            r.table_state.transactions_details is None,
            r.transactions_header@.len() == 3,
            r.transactions_header@[0]@ == "Day"@,
            r.transactions_header@[1]@ == "Amount"@,
            r.transactions_header@[2]@ == "Note"@,
    {
        let expenses_table = CustomTableState {
            state: TableState::default(),
            items: get_transactions_row(&data_table.expenses),
        };
        let incomes_table = CustomTableState {
            state: TableState::default(),
            items: get_transactions_row(&data_table.incomes),
        };
        let savings_table = CustomTableState {
            state: TableState::default(),
            items: get_transactions_row(&data_table.savings),
        };
        let mut transactions_header: Vec<String> = Vec::new();
        transactions_header.push("Day".to_owned());
        transactions_header.push("Amount".to_owned());
        transactions_header.push("Note".to_owned());
        App {
            months_by_year: data_table.months_by_year,
            tree: data_table.tree,
            selected_block: SelectedBlock::Months,
            user_token,
            is_navigation: true,
            table_state: TransactionsTableState::new(
                incomes_table,
                expenses_table,
                savings_table,
                data_table.expenses,
                data_table.incomes,
                data_table.savings,
            ),
            transactions_header,
            summary: data_table.summary,
            tabs: Default::default(),
            details_shown: false,
            total_saving: data_table.total_saving,
        }
    }

    /// Dispatches one key press: navigation keys move focus, cursors or the
    /// highlight; activating the months panel toggles the picker node and
    /// asks for a refresh; the reload key asks for a full reload; activating
    /// a category row opens the overlay, though never while the All tab is
    /// active; tab changes clear it.
    pub fn process_key_event(&mut self, key_code: KeyCode) -> (action: Action)
        requires
            old(self).wf(),
        ensures
            final(self).wf(),
            key_transition(*old(self), *final(self), key_code),
            action == action_for(*old(self), key_code),
    {
        match key_code {
            KeyCode::Char(c) => {
                if c == 'j' {
                    if self.is_navigation {
                        self.select_next_block();
                    }
                    Action::Nothing
                } else if c == 'k' {
                    if self.is_navigation {
                        self.select_previous_block();
                    }
                    Action::Nothing
                } else if c == 'm' {
                    self.selected_block = SelectedBlock::Months;
                    Action::Nothing
                } else if c == 'e' {
                    self.selected_block = SelectedBlock::Expenses;
                    Action::Nothing
                } else if c == 'i' {
                    self.selected_block = SelectedBlock::Incomes;
                    Action::Nothing
                } else if c == 's' {
                    self.selected_block = SelectedBlock::Savings;
                    Action::Nothing
                } else if c == 'r' {
                    Action::ReloadAll
                } else {
                    Action::Nothing
                }
            },
            KeyCode::Enter => {
                match self.selected_block {
                    SelectedBlock::Savings => {
                        if self.tabs.index != 0 {
                            if let Some(i) = self.table_state.savings.state.selected {
                                if i < self.table_state.row_savings.len() {
                                    let snapshot = self.table_state.row_savings[i].clone();
                                    self.details_shown = true;
                                    self.table_state.transactions_details = Some(snapshot);
                                }
                            }
                        }
                        Action::Nothing
                    },
                    SelectedBlock::Incomes => {
                        if self.tabs.index != 0 {
                            if let Some(i) = self.table_state.incomes.state.selected {
                                if i < self.table_state.row_incomes.len() {
                                    let snapshot = self.table_state.row_incomes[i].clone();
                                    self.details_shown = true;
                                    self.table_state.transactions_details = Some(snapshot);
                                }
                            }
                        }
                        Action::Nothing
                    },
                    SelectedBlock::Expenses => {
                        if self.tabs.index != 0 {
                            if let Some(i) = self.table_state.expenses.state.selected {
                                if i < self.table_state.row_expenses.len() {
                                    let snapshot = self.table_state.row_expenses[i].clone();
                                    self.details_shown = true;
                                    self.table_state.transactions_details = Some(snapshot);
                                }
                            }
                        }
                        Action::Nothing
                    },
                    SelectedBlock::Months => {
                        proof {
                            if self.tree.selected@.len() >= 1 {
                                assert(self.tree.items@[self.tree.selected@[0] as int].months@.len()
                                    == self.months_by_year@[self.tree.selected@[0] as int].months@.len());
                            }
                        }
                        self.tree.toggle(&self.months_by_year);
                        Action::RefreshTables
                    },
                    _ => Action::Nothing,
                }
            },
            KeyCode::Left => {
                if self.selected_block == SelectedBlock::Months {
                    self.tree.left();
                }
                if self.selected_block == SelectedBlock::Tabs {
                    self.details_shown = false;
                    self.table_state.transactions_details = None;
                    self.tabs.previouse();
                }
                Action::Nothing
            },
            KeyCode::Right => {
                if self.selected_block == SelectedBlock::Months {
                    self.tree.right();
                }
                if self.selected_block == SelectedBlock::Tabs {
                    self.details_shown = false;
                    self.table_state.transactions_details = None;
                    self.tabs.next();
                }
                Action::Nothing
            },
            KeyCode::Down => {
                match self.selected_block {
                    SelectedBlock::Months => self.tree.down(),
                    SelectedBlock::Incomes | SelectedBlock::Expenses | SelectedBlock::Savings => {
                        let block = self.selected_block;
                        self.table_state.next(&block);
                    },
                    _ => {},
                }
                Action::Nothing
            },
            KeyCode::Up => {
                match self.selected_block {
                    SelectedBlock::Months => self.tree.up(),
                    SelectedBlock::Incomes | SelectedBlock::Expenses | SelectedBlock::Savings => {
                        let block = self.selected_block;
                        self.table_state.previous(&block);
                    },
                    _ => {},
                }
                Action::Nothing
            },
            KeyCode::Other => Action::Nothing,
        }
    }

    fn select_next_block(&mut self)
        ensures
            *final(self) == (App {
                selected_block: next_focus(old(self).selected_block, old(self).tabs.index as int),
                ..*old(self)
            }),
    {
        let tab = self.tabs.index;
        if tab == 0 {
            self.selected_block = match self.selected_block {
                SelectedBlock::Months => SelectedBlock::Tabs,
                SelectedBlock::Tabs => SelectedBlock::Incomes,
                SelectedBlock::Incomes => SelectedBlock::Expenses,
                SelectedBlock::Expenses => SelectedBlock::Savings,
                SelectedBlock::Savings => SelectedBlock::Months,
                other => other,
            };
        } else if tab == 1 {
            self.selected_block = match self.selected_block {
                SelectedBlock::Months => SelectedBlock::Tabs,
                SelectedBlock::Tabs => SelectedBlock::Expenses,
                SelectedBlock::Expenses => SelectedBlock::Months,
                other => other,
            };
        } else if tab == 2 {
            self.selected_block = match self.selected_block {
                SelectedBlock::Months => SelectedBlock::Tabs,
                SelectedBlock::Tabs => SelectedBlock::Incomes,
                SelectedBlock::Incomes => SelectedBlock::Months,
                other => other,
            };
        } else if tab == 3 {
            self.selected_block = match self.selected_block {
                SelectedBlock::Months => SelectedBlock::Tabs,
                SelectedBlock::Tabs => SelectedBlock::Savings,
                SelectedBlock::Savings => SelectedBlock::Months,
                other => other,
            };
        }
    }

    fn select_previous_block(&mut self)
        ensures
            *final(self) == (App {
                selected_block: prev_focus(old(self).selected_block, old(self).tabs.index as int),
                ..*old(self)
            }),
    {
        let tab = self.tabs.index;
        if tab == 0 {
            self.selected_block = match self.selected_block {
                SelectedBlock::Months => SelectedBlock::Savings,
                SelectedBlock::Tabs => SelectedBlock::Months,
                SelectedBlock::Incomes => SelectedBlock::Tabs,
                SelectedBlock::Expenses => SelectedBlock::Incomes,
                SelectedBlock::Savings => SelectedBlock::Expenses,
                other => other,
            };
        } else if tab == 1 {
            self.selected_block = match self.selected_block {
                SelectedBlock::Months => SelectedBlock::Expenses,
                SelectedBlock::Tabs => SelectedBlock::Months,
                SelectedBlock::Expenses => SelectedBlock::Tabs,
                other => other,
            };
        } else if tab == 2 {
            self.selected_block = match self.selected_block {
                SelectedBlock::Months => SelectedBlock::Incomes,
                SelectedBlock::Tabs => SelectedBlock::Months,
                SelectedBlock::Incomes => SelectedBlock::Tabs,
                other => other,
            };
        } else if tab == 3 {
            self.selected_block = match self.selected_block {
                SelectedBlock::Months => SelectedBlock::Savings,
                SelectedBlock::Tabs => SelectedBlock::Months,
                SelectedBlock::Savings => SelectedBlock::Tabs,
                other => other,
            };
        }
    }

    /// Applies one refresh's outcome.  When the tables came, each category
    /// is day sorted, re-rendered and swapped in, with every highlight
    /// cursor and the overlay kept; the summary is then replaced when its
    /// own fetch succeeded.  When the table fetch failed, nothing changes at
    /// all: the stale tables and summary stay visible.
    pub fn commit_refresh(
        &mut self,
        transactions: Result<FetchedTransactions, CustomError<String>>,
        summary: Result<TransactionBalances, CustomError<String>>,
    )
        requires
            old(self).wf(),
        ensures
            final(self).wf(),
            final(self).tree == old(self).tree,
            final(self).selected_block == old(self).selected_block,
            final(self).user_token == old(self).user_token,
            final(self).is_navigation == old(self).is_navigation,
            final(self).transactions_header == old(self).transactions_header,
            final(self).months_by_year == old(self).months_by_year,
            final(self).tabs == old(self).tabs,
            final(self).details_shown == old(self).details_shown,
            final(self).total_saving == old(self).total_saving,
            match transactions {
                Ok(batch) => {
                    &&& final(self).table_state.row_expenses@ == sort_by_day(batch.expenses@)
                    &&& final(self).table_state.row_incomes@ == sort_by_day(batch.incomes@)
                    &&& final(self).table_state.row_savings@ == sort_by_day(batch.savings@)
                    &&& final(self).table_state.incomes.state == old(
                        self,
                    ).table_state.incomes.state
                    &&& final(self).table_state.expenses.state == old(
                        self,
                    ).table_state.expenses.state
                    &&& final(self).table_state.savings.state == old(
                        self,
                    ).table_state.savings.state
                    &&& final(self).table_state.transactions_details == old(
                        self,
                    ).table_state.transactions_details
                    &&& final(self).summary == (match summary {
                        Ok(s) => s,
                        Err(_) => old(self).summary,
                    })
                },
                Err(_) => final(self).table_state == old(self).table_state && final(self).summary
                    == old(self).summary,
            },
    {
        match transactions {
            Ok(batch) => {
                let FetchedTransactions { expenses, incomes, savings } = batch;
                let mut expenses = expenses;
                let mut incomes = incomes;
                let mut savings = savings;
                sort(&mut expenses);
                sort(&mut incomes);
                sort(&mut savings);
                let expense_state = self.table_state.expenses.state;
                self.table_state.expenses = CustomTableState {
                    state: expense_state,
                    items: get_transactions_row(&expenses),
                };
                let income_state = self.table_state.incomes.state;
                self.table_state.incomes = CustomTableState {
                    state: income_state,
                    items: get_transactions_row(&incomes),
                };
                let saving_state = self.table_state.savings.state;
                self.table_state.savings = CustomTableState {
                    state: saving_state,
                    items: get_transactions_row(&savings),
                };
                self.table_state.row_expenses = expenses;
                self.table_state.row_incomes = incomes;
                self.table_state.row_savings = savings;
                match summary {
                    Ok(s) => {
                        self.summary = s;
                    },
                    Err(_) => {},
                }
            },
            Err(_) => {},
        }
    }

    /// Replaces the all-time savings total when its fetch succeeded; a
    /// failed fetch leaves the shown total as it was.  Nothing else changes.
    pub fn commit_total_saving(&mut self, total: Result<i64, CustomError<String>>)
        requires
            old(self).wf(),
        ensures
            final(self).wf(),
            final(self).total_saving == (match total {
                Ok(v) => v,
                Err(_) => old(self).total_saving,
            }),
            *final(self) == (App { total_saving: final(self).total_saving, ..*old(self) }),
    {
        match total {
            Ok(v) => {
                self.total_saving = v;
            },
            Err(_) => {},
        }
    }
}

/// Whether a key press asks the event loop to stop.
pub fn is_quit(key_code: &KeyCode) -> (b: bool)
    ensures
        b == (match *key_code {
            KeyCode::Char(c) => c == 'q',
            _ => false,
        }),
{
    match key_code {
        KeyCode::Char(c) => *c == 'q',
        _ => false,
    }
}

} // verus!
