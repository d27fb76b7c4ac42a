use expenses_dash::app::{
    combine_transactions, months_aligned_check, Action, App, DataTable, FetchedTransactions,
    KeyCode,
};
use expenses_dash::enums::{CurrencyEnum, MonthEnum, SelectedBlock, TransactionType};
use expenses_dash::models::{CustomError, TransactionModel};
use expenses_dash::tree::StatefulTree;
use expenses_dash::types::{MonthByYear, TransactionBalances, TransactionTotal};

fn tx(day: Option<u8>, note: &str) -> TransactionModel {
    TransactionModel {
        transaction_id: format!("id-{}", note),
        kind: TransactionType::EXPENSE,
        amount_label: "5.5".to_string(),
        currency: CurrencyEnum::UYU,
        note: Some(note.to_string()),
        day,
        month: MonthEnum::MARCH,
        year: 2024,
        exchange_rate_label: None,
        user_id: "u1".to_string(),
        user: None,
        category_id: "c1".to_string(),
        category: None,
    }
}

fn total(v: i64) -> TransactionTotal {
    TransactionTotal { total: v, uyu: v, usd: 0, eur: 0 }
}

fn summary(v: i64) -> TransactionBalances {
    TransactionBalances { incomes: total(v), expenses: total(v), savings: total(v) }
}

fn listing() -> Vec<MonthByYear> {
    vec![
        MonthByYear {
            year: "2024".to_string(),
            months: vec!["FEBRUARY".to_string(), "MARCH".to_string()],
        },
        MonthByYear { year: "not-a-year".to_string(), months: vec!["NotAMonth".to_string()] },
    ]
}

fn fresh_app() -> App {
    let years = listing();
    let tree = StatefulTree::with_items(years.clone());
    let data = DataTable {
        months_by_year: years,
        expenses: vec![],
        incomes: vec![],
        savings: vec![tx(Some(1), "s0"), tx(Some(2), "s1"), tx(Some(3), "s2")],
        summary: summary(1),
        tree,
        total_saving: 50,
    };
    App::new(data, "token".to_string())
}

#[test]
fn tree_navigation_walks_visible_nodes() {
    let mut tree = StatefulTree::with_items(listing());
    assert!(tree.selected.is_empty());
    tree.down();
    assert_eq!(tree.selected, vec![0]);
    tree.down();
    assert_eq!(tree.selected, vec![1]);
    tree.down();
    // clamped at the last visible node
    assert_eq!(tree.selected, vec![1]);
    tree.up();
    assert_eq!(tree.selected, vec![0]);
    tree.up();
    assert_eq!(tree.selected, vec![0]);
}

#[test]
fn tree_expansion_reveals_months() {
    let mut tree = StatefulTree::with_items(listing());
    tree.down();
    tree.right();
    assert!(tree.opened_years[0]);
    tree.down();
    assert_eq!(tree.selected, vec![0, 0]);
    tree.down();
    assert_eq!(tree.selected, vec![0, 1]);
    tree.down();
    assert_eq!(tree.selected, vec![1]);
    tree.up();
    assert_eq!(tree.selected, vec![0, 1]);
}

#[test]
fn tree_left_collapses_then_climbs() {
    let mut tree = StatefulTree::with_items(listing());
    tree.down();
    tree.right();
    tree.down();
    assert_eq!(tree.selected, vec![0, 0]);
    tree.left();
    // the month was not marked expanded, so the highlight climbs to the year
    assert_eq!(tree.selected, vec![0]);
    tree.left();
    // the year was expanded, so it collapses and the highlight stays
    assert!(!tree.opened_years[0]);
    assert_eq!(tree.selected, vec![0]);
    tree.left();
    // a collapsed top-level node clears the highlight
    assert!(tree.selected.is_empty());
}

#[test]
fn tree_first_and_last_jump() {
    let mut tree = StatefulTree::with_items(listing());
    tree.first();
    assert_eq!(tree.selected, vec![0]);
    tree.last();
    assert_eq!(tree.selected, vec![1]);
    // expand the last year: its last month becomes the last visible node
    tree.right();
    tree.last();
    assert_eq!(tree.selected, vec![1, 0]);
}

#[test]
fn toggle_on_month_sets_current_month_and_year() {
    let mut tree = StatefulTree::with_items(listing());
    tree.opened_years[0] = true;
    tree.selected = vec![0, 1];
    let years = listing();
    tree.toggle(&years);
    assert_eq!(tree.current_month, MonthEnum::MARCH);
    assert_eq!(tree.current_year, 2024);
}

#[test]
fn toggle_with_bad_labels_falls_back() {
    let mut tree = StatefulTree::with_items(listing());
    tree.current_month = MonthEnum::JUNE;
    tree.opened_years[1] = true;
    tree.selected = vec![1, 0];
    let years = listing();
    tree.toggle(&years);
    // "NotAMonth" resolves to the default month, "not-a-year" to the
    // fallback year, and the toggle still completes
    assert_eq!(tree.current_month, MonthEnum::JANUARY);
    assert_eq!(tree.current_year, 2023);
}

#[test]
fn toggle_on_year_keeps_current_month() {
    let mut tree = StatefulTree::with_items(listing());
    tree.current_month = MonthEnum::JUNE;
    tree.selected = vec![0];
    let years = listing();
    tree.toggle(&years);
    assert!(tree.opened_years[0]);
    assert_eq!(tree.current_month, MonthEnum::JUNE);
    assert_eq!(tree.current_year, 2024);
    tree.toggle(&years);
    assert!(!tree.opened_years[0]);
}

#[test]
fn toggle_on_empty_selection_changes_nothing() {
    let mut tree = StatefulTree::with_items(listing());
    tree.current_month = MonthEnum::JUNE;
    let year_before = tree.current_year;
    let years = listing();
    tree.toggle(&years);
    assert_eq!(tree.current_month, MonthEnum::JUNE);
    assert_eq!(tree.current_year, year_before);
}

#[test]
fn combine_appends_installments_after_expenses() {
    let combined = combine_transactions(
        vec![tx(Some(1), "e0"), tx(Some(2), "e1")],
        vec![tx(Some(3), "inst")],
        vec![tx(Some(4), "inc")],
        vec![],
    );
    let notes: Vec<&str> =
        combined.expenses.iter().map(|t| t.note.as_deref().unwrap()).collect();
    assert_eq!(notes, vec!["e0", "e1", "inst"]);
    assert_eq!(combined.incomes.len(), 1);
    assert!(combined.savings.is_empty());
}

#[test]
fn alignment_check_spots_mismatches() {
    let years = listing();
    let tree = StatefulTree::with_items(years.clone());
    assert!(months_aligned_check(&tree, &years));
    let mut shorter = years.clone();
    shorter.pop();
    assert!(!months_aligned_check(&tree, &shorter));
    let mut reshaped = years;
    reshaped[0].months.pop();
    assert!(!months_aligned_check(&tree, &reshaped));
}

#[test]
fn month_expansion_refreshes_with_sorted_tables() {
    // the end-to-end path: Enter on 2024 / MARCH, then a successful refresh
    let mut app = fresh_app();
    app.tree.opened_years[0] = true;
    app.tree.selected = vec![0, 1];
    let action = app.process_key_event(KeyCode::Enter);
    assert_eq!(action, Action::RefreshTables);
    assert_eq!(app.tree.current_month, MonthEnum::MARCH);
    assert_eq!(app.tree.current_year, 2024);

    let batch = FetchedTransactions {
        expenses: vec![tx(None, "late"), tx(Some(20), "rent"), tx(Some(3), "bus")],
        incomes: vec![tx(Some(28), "salary"), tx(Some(1), "interest")],
        savings: vec![tx(Some(15), "fund")],
    };
    app.commit_refresh(Ok(batch), Ok(summary(7)));
    let expense_days: Vec<Option<u8>> =
        app.table_state.row_expenses.iter().map(|t| t.day).collect();
    assert_eq!(expense_days, vec![Some(3), Some(20), None]);
    let income_days: Vec<Option<u8>> =
        app.table_state.row_incomes.iter().map(|t| t.day).collect();
    assert_eq!(income_days, vec![Some(1), Some(28)]);
    assert_eq!(app.table_state.row_savings.len(), 1);
    assert_eq!(app.summary, summary(7));
    // rendered rows follow the records, one to one
    assert_eq!(app.table_state.expenses.items.len(), 3);
    assert_eq!(app.table_state.expenses.items[0][0], "3");

    // a failed fetch afterwards leaves the previous refresh untouched
    let failure: Result<FetchedTransactions, CustomError<String>> =
        Err(CustomError::new(None, Some("Error to get transactions".to_string()), None));
    app.commit_refresh(failure, Ok(summary(9)));
    let expense_days: Vec<Option<u8>> =
        app.table_state.row_expenses.iter().map(|t| t.day).collect();
    assert_eq!(expense_days, vec![Some(3), Some(20), None]);
    assert_eq!(app.summary, summary(7));
}

#[test]
fn refresh_keeps_cursors_and_failed_summary_keeps_old() {
    let mut app = fresh_app();
    app.selected_block = SelectedBlock::Savings;
    app.process_key_event(KeyCode::Down);
    assert_eq!(app.table_state.savings.state.selected, Some(0));
    let batch = FetchedTransactions {
        expenses: vec![],
        incomes: vec![],
        savings: vec![tx(Some(9), "new")],
    };
    let summary_failure: Result<TransactionBalances, CustomError<String>> =
        Err(CustomError::new(None, Some("errr".to_string()), None));
    app.commit_refresh(Ok(batch), summary_failure);
    // the highlight cursor survives the swap, the summary stays
    assert_eq!(app.table_state.savings.state.selected, Some(0));
    assert_eq!(app.summary, summary(1));
    assert_eq!(app.table_state.row_savings.len(), 1);
}

#[test]
fn total_saving_commits_only_on_success() {
    let mut app = fresh_app();
    app.commit_total_saving(Ok(123));
    assert_eq!(app.total_saving, 123);
    let failure: Result<i64, CustomError<String>> =
        Err(CustomError::new(None, Some("down".to_string()), None));
    app.commit_total_saving(failure);
    assert_eq!(app.total_saving, 123);
}

#[test]
fn details_overlay_opens_on_enter_and_clears_on_tab_change() {
    let mut app = fresh_app();
    app.tabs.index = 3;
    app.selected_block = SelectedBlock::Savings;
    app.table_state.savings.state.selected = Some(2);
    let action = app.process_key_event(KeyCode::Enter);
    assert_eq!(action, Action::Nothing);
    assert!(app.details_shown);
    // the overlay holds the full record at index 2 of the raw savings
    let shown = app.table_state.transactions_details.clone().unwrap();
    assert_eq!(shown, app.table_state.row_savings[2]);
    assert_eq!(shown.note.as_deref(), Some("s2"));

    app.selected_block = SelectedBlock::Tabs;
    app.process_key_event(KeyCode::Right);
    assert!(!app.details_shown);
    assert!(app.table_state.transactions_details.is_none());
    assert_eq!(app.tabs.index, 0);
}

#[test]
fn details_overlay_ignores_stale_or_missing_highlight() {
    let mut app = fresh_app();
    app.tabs.index = 3;
    app.selected_block = SelectedBlock::Savings;
    app.process_key_event(KeyCode::Enter);
    assert!(!app.details_shown);
    app.table_state.savings.state.selected = Some(99);
    app.process_key_event(KeyCode::Enter);
    assert!(!app.details_shown);
    assert!(app.table_state.transactions_details.is_none());
}

#[test]
fn details_overlay_never_fills_on_all_tab() {
    // even a valid highlighted row leaves the overlay empty while the All
    // tab is active
    let mut app = fresh_app();
    assert_eq!(app.tabs.index, 0);
    app.selected_block = SelectedBlock::Savings;
    app.table_state.savings.state.selected = Some(0);
    let action = app.process_key_event(KeyCode::Enter);
    assert_eq!(action, Action::Nothing);
    assert!(!app.details_shown);
    assert!(app.table_state.transactions_details.is_none());
}

#[test]
fn tab_arrows_only_act_while_tabs_focused() {
    let mut app = fresh_app();
    app.selected_block = SelectedBlock::Savings;
    app.process_key_event(KeyCode::Right);
    assert_eq!(app.tabs.index, 0);
    app.selected_block = SelectedBlock::Tabs;
    app.process_key_event(KeyCode::Right);
    assert_eq!(app.tabs.index, 1);
    app.process_key_event(KeyCode::Left);
    assert_eq!(app.tabs.index, 0);
    app.process_key_event(KeyCode::Left);
    assert_eq!(app.tabs.index, 3);
}

#[test]
fn fresh_tree_is_empty_and_clock_backed() {
    let tree = StatefulTree::new();
    assert!(tree.items.is_empty());
    assert!(tree.selected.is_empty());
    // the current year came from the local clock
    assert!(tree.current_year >= 1970);
    let by_default = StatefulTree::default();
    assert!(by_default.items.is_empty());
    assert!(by_default.selected.is_empty());
}

#[test]
fn expanded_month_swallows_one_collapse() {
    let mut tree = StatefulTree::with_items(listing());
    tree.down();
    tree.right();
    tree.down();
    assert_eq!(tree.selected, vec![0, 0]);
    // marking the month expanded has no visible effect, but the next
    // collapse clears the mark instead of climbing
    tree.right();
    assert!(tree.opened_months[0][0]);
    tree.left();
    assert_eq!(tree.selected, vec![0, 0]);
    assert!(!tree.opened_months[0][0]);
    tree.left();
    assert_eq!(tree.selected, vec![0]);
}
