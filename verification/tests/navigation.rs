use expenses_dash::app::{is_quit, Action, App, DataTable, KeyCode};
use expenses_dash::enums::{CurrencyEnum, MonthEnum, SelectedBlock, TransactionType};
use expenses_dash::models::TransactionModel;
use expenses_dash::tables::{CustomTableState, TableState, TransactionsTableState};
use expenses_dash::tabs::TabsState;
use expenses_dash::tree::StatefulTree;
use expenses_dash::types::{MonthByYear, TransactionBalances, TransactionTotal};

fn tx(day: Option<u8>, note: &str) -> TransactionModel {
    TransactionModel {
        transaction_id: format!("id-{}", note),
        kind: TransactionType::EXPENSE,
        amount_label: "10.0".to_string(),
        currency: CurrencyEnum::UYU,
        note: Some(note.to_string()),
        day,
        month: MonthEnum::JANUARY,
        year: 2024,
        exchange_rate_label: None,
        user_id: "u1".to_string(),
        user: None,
        category_id: "c1".to_string(),
        category: None,
    }
}

fn zero_total() -> TransactionTotal {
    TransactionTotal { total: 0, uyu: 0, usd: 0, eur: 0 }
}

fn empty_summary() -> TransactionBalances {
    TransactionBalances { incomes: zero_total(), expenses: zero_total(), savings: zero_total() }
}

fn months() -> Vec<MonthByYear> {
    vec![MonthByYear {
        year: "2024".to_string(),
        months: vec!["FEBRUARY".to_string(), "MARCH".to_string()],
    }]
}

fn sample_app() -> App {
    let listing = months();
    let tree = StatefulTree::with_items(listing.clone());
    let data = DataTable {
        months_by_year: listing,
        expenses: vec![tx(Some(3), "coffee")],
        incomes: vec![tx(Some(1), "salary")],
        savings: vec![tx(None, "stash"), tx(Some(9), "fund"), tx(Some(4), "box")],
        summary: empty_summary(),
        tree,
        total_saving: 100,
    };
    App::new(data, "token".to_string())
}

#[test]
fn focus_cycle_on_all_tab() {
    let mut app = sample_app();
    assert_eq!(app.tabs.index, 0);
    assert_eq!(app.selected_block, SelectedBlock::Months);
    for expected in [
        SelectedBlock::Tabs,
        SelectedBlock::Incomes,
        SelectedBlock::Expenses,
        SelectedBlock::Savings,
        SelectedBlock::Months,
    ] {
        let action = app.process_key_event(KeyCode::Char('j'));
        assert_eq!(action, Action::Nothing);
        assert_eq!(app.selected_block, expected);
    }
}

#[test]
fn focus_cycle_collapses_on_expenses_tab() {
    // starting at Months with the Expenses tab active, the cycle has length
    // three: Months, Tabs, Expenses
    let mut app = sample_app();
    app.tabs.index = 1;
    assert_eq!(app.selected_block, SelectedBlock::Months);
    app.process_key_event(KeyCode::Char('j'));
    assert_eq!(app.selected_block, SelectedBlock::Tabs);
    app.process_key_event(KeyCode::Char('j'));
    assert_eq!(app.selected_block, SelectedBlock::Expenses);
    app.process_key_event(KeyCode::Char('j'));
    assert_eq!(app.selected_block, SelectedBlock::Months);
}

#[test]
fn focus_backward_inverts_forward() {
    let mut app = sample_app();
    for tab in 0..4usize {
        app.tabs.index = tab;
        for start in [
            SelectedBlock::Months,
            SelectedBlock::Tabs,
            SelectedBlock::Incomes,
            SelectedBlock::Expenses,
            SelectedBlock::Savings,
        ] {
            app.selected_block = start;
            app.process_key_event(KeyCode::Char('j'));
            app.process_key_event(KeyCode::Char('k'));
            assert_eq!(app.selected_block, start);
        }
    }
}

#[test]
fn navigation_disabled_freezes_focus() {
    let mut app = sample_app();
    app.is_navigation = false;
    app.process_key_event(KeyCode::Char('j'));
    assert_eq!(app.selected_block, SelectedBlock::Months);
    app.process_key_event(KeyCode::Char('k'));
    assert_eq!(app.selected_block, SelectedBlock::Months);
}

#[test]
fn direct_jump_keys_set_focus() {
    let mut app = sample_app();
    app.process_key_event(KeyCode::Char('e'));
    assert_eq!(app.selected_block, SelectedBlock::Expenses);
    app.process_key_event(KeyCode::Char('i'));
    assert_eq!(app.selected_block, SelectedBlock::Incomes);
    app.process_key_event(KeyCode::Char('s'));
    assert_eq!(app.selected_block, SelectedBlock::Savings);
    app.process_key_event(KeyCode::Char('m'));
    assert_eq!(app.selected_block, SelectedBlock::Months);
}

#[test]
fn reload_key_asks_for_full_reload() {
    let mut app = sample_app();
    let action = app.process_key_event(KeyCode::Char('r'));
    assert_eq!(action, Action::ReloadAll);
}

#[test]
fn quit_key_is_recognized() {
    assert!(is_quit(&KeyCode::Char('q')));
    assert!(!is_quit(&KeyCode::Char('j')));
    assert!(!is_quit(&KeyCode::Enter));
}

#[test]
fn tab_next_wraps_after_four_steps() {
    for start in 0..4usize {
        let mut tabs = TabsState::new(
            vec![
                "All".to_string(),
                "Expenses".to_string(),
                "Incomes".to_string(),
                "Savings".to_string(),
            ],
            start,
        );
        tabs.next();
        tabs.next();
        tabs.next();
        tabs.next();
        assert_eq!(tabs.index, start);
    }
}

#[test]
fn tab_previouse_inverts_next() {
    for start in 0..4usize {
        let mut tabs = TabsState::default();
        tabs.index = start;
        tabs.next();
        tabs.previouse();
        assert_eq!(tabs.index, start);
        tabs.previouse();
        tabs.next();
        assert_eq!(tabs.index, start);
    }
}

#[test]
fn tab_default_titles() {
    let tabs = TabsState::default();
    assert_eq!(tabs.titles, vec!["All", "Expenses", "Incomes", "Savings"]);
    assert_eq!(tabs.index, 0);
}

fn bare_tables(rows: Vec<TransactionModel>) -> TransactionsTableState {
    let items = rows
        .iter()
        .map(|t| {
            vec![
                t.day.map(|d| d.to_string()).unwrap_or_default(),
                format!("${} {:?}", t.amount_label, t.currency),
                t.note.clone().unwrap_or_default(),
            ]
        })
        .collect::<Vec<_>>();
    TransactionsTableState::new(
        CustomTableState { state: TableState { selected: None }, items: vec![] },
        CustomTableState { state: TableState { selected: None }, items: vec![] },
        CustomTableState { state: TableState { selected: None }, items },
        vec![],
        vec![],
        rows,
    )
}

#[test]
fn table_cursor_cycles_and_inverts() {
    let mut ts = bare_tables(vec![tx(Some(1), "a"), tx(Some(2), "b"), tx(Some(3), "c")]);
    let block = SelectedBlock::Savings;
    ts.next(&block);
    assert_eq!(ts.savings.state.selected, Some(0));
    ts.next(&block);
    assert_eq!(ts.savings.state.selected, Some(1));
    ts.previous(&block);
    assert_eq!(ts.savings.state.selected, Some(0));
    ts.previous(&block);
    assert_eq!(ts.savings.state.selected, Some(2));
    ts.next(&block);
    assert_eq!(ts.savings.state.selected, Some(0));
}

#[test]
fn table_cursor_stays_in_range_over_many_steps() {
    let mut ts = bare_tables(vec![tx(Some(1), "a"), tx(Some(2), "b"), tx(Some(3), "c")]);
    let block = SelectedBlock::Savings;
    for step in 0..25usize {
        if step % 3 == 0 {
            ts.previous(&block);
        } else {
            ts.next(&block);
        }
        let idx = ts.savings.state.selected.unwrap();
        assert!(idx < 3);
    }
}

#[test]
fn empty_table_cursor_always_zero() {
    let mut ts = bare_tables(vec![]);
    let block = SelectedBlock::Savings;
    ts.next(&block);
    assert_eq!(ts.savings.state.selected, Some(0));
    ts.next(&block);
    assert_eq!(ts.savings.state.selected, Some(0));
    ts.previous(&block);
    assert_eq!(ts.savings.state.selected, Some(0));
}

#[test]
fn arrow_keys_move_table_cursor_of_focused_panel() {
    let mut app = sample_app();
    app.selected_block = SelectedBlock::Savings;
    app.process_key_event(KeyCode::Down);
    assert_eq!(app.table_state.savings.state.selected, Some(0));
    app.process_key_event(KeyCode::Down);
    assert_eq!(app.table_state.savings.state.selected, Some(1));
    app.process_key_event(KeyCode::Up);
    assert_eq!(app.table_state.savings.state.selected, Some(0));
    // the other panels' cursors did not move
    assert_eq!(app.table_state.incomes.state.selected, None);
    assert_eq!(app.table_state.expenses.state.selected, None);
}

#[test]
fn off_tab_categories_stand_still() {
    // with the Expenses tab active, Incomes and Savings are unreachable by
    // cyclic navigation and do not move when focused directly
    let mut app = sample_app();
    app.tabs.index = 1;
    app.selected_block = SelectedBlock::Incomes;
    app.process_key_event(KeyCode::Char('j'));
    assert_eq!(app.selected_block, SelectedBlock::Incomes);
    app.process_key_event(KeyCode::Char('k'));
    assert_eq!(app.selected_block, SelectedBlock::Incomes);
    app.selected_block = SelectedBlock::Savings;
    app.process_key_event(KeyCode::Char('j'));
    assert_eq!(app.selected_block, SelectedBlock::Savings);
}
