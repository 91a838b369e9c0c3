use tiny_business_simulator::lang::Lang;
use tiny_business_simulator::layout::build_help_lines;
use tiny_business_simulator::plan::{AppState, GlobalSettings, MonthOverrides, Period, Region, Tab, PCT_TOTAL};
use tiny_business_simulator::sidebar::{Key, KeyCode, KeyOutcome};
use tiny_business_simulator::slider::SliderKind;
use tiny_business_simulator::state_file::{load_state_text, save_state_text};

fn state_with(names: &[&str]) -> AppState {
    let n = names.len();
    let base = PCT_TOTAL / n.max(1) as i64;
    let extra = PCT_TOTAL - base * n.max(1) as i64;
    let mut state = AppState {
        names: names.iter().map(|s| s.to_string()).collect(),
        monthly_pct: (0..n).map(|i| [base + if (i as i64) < extra { 1 } else { 0 }; 12]).collect(),
        month_locked: vec![[false; 12]; n],
        yearly_locked: vec![false; n],
        period: Period::FullYear,
        sliders: Vec::new(),
        selected: 0,
        scroll: 0,
        status: None,
        tab: Tab::Products,
        product_scroll: 0,
        lang: Lang::En,
        active_region: Region::Main,
        show_help: false,
        help_scroll: 0,
        settings: GlobalSettings::defaults(),
        month_overrides: MonthOverrides::default(),
    };
    state.rebuild_sliders(0);
    state
}

fn files(names: &[&str]) -> Vec<String> {
    names.iter().map(|s| s.to_string()).collect()
}

fn key(code: KeyCode) -> Key {
    Key { code, ctrl: false, shift: false }
}

#[test]
fn save_then_load_state_roundtrip() {
    let mut state = state_with(&["Coffee", "Tea"]);
    state.period = Period::Month(3);
    state.monthly_pct[0][0] = 800;
    state.monthly_pct[1][0] = 200;
    state.month_locked[0][3] = true;
    state.yearly_locked[1] = true;
    state.settings.min_workday_hours = 6;
    state.settings.min_monthly_net_profit = 400;
    state.month_overrides.net_profit[0] = 750;
    state.month_overrides.workday[1] = 10;
    state.month_overrides.fix_costs[2] = 300;
    let fs = files(&["p0.txt", "p1.txt"]);
    let text = save_state_text(&state, &fs);
    let loaded = load_state_text(&text, &fs).expect("state should load");
    assert_eq!(loaded.monthly_pct[0][0], 800);
    assert_eq!(loaded.monthly_pct[1][0], 200);
    assert!(loaded.month_locked[0][3]);
    assert!(loaded.yearly_locked[1]);
    assert_eq!(loaded.period, Period::Month(3));
    assert_eq!(loaded.settings.min_workday_hours, 6);
    assert_eq!(loaded.settings.min_monthly_net_profit, 400);
    assert_eq!(loaded.month_overrides.net_profit[0], 750);
    assert_eq!(loaded.month_overrides.workday[1], 10);
    assert_eq!(loaded.month_overrides.fix_costs[2], 300);
}

#[test]
fn load_state_normalizes_when_product_added() {
    let content = "p0.txt 800 800 800 800 800 800 800 800 800 800 800 800 0 0 0 0 0 0 0 0 0 0 0 0 0\n\
                   p1.txt 200 200 200 200 200 200 200 200 200 200 200 200 0 0 0 0 0 0 0 0 0 0 0 0 1\n";
    let loaded = load_state_text(content, &files(&["p0.txt", "p1.txt", "p2.txt"])).expect("state should load");
    assert_eq!(loaded.monthly_pct[0][0], 800);
    assert_eq!(loaded.monthly_pct[1][0], 200);
    assert_eq!(loaded.monthly_pct[2][0], 0);
    let sum: i64 = loaded.monthly_pct.iter().map(|p| p[0]).sum();
    assert_eq!(sum, PCT_TOTAL);
}

#[test]
fn load_state_normalizes_when_product_removed() {
    let content = "p0.txt 340 340 340 340 340 340 340 340 340 340 340 340 0 0 0 0 0 0 0 0 0 0 0 0 0\n\
                   p1.txt 330 330 330 330 330 330 330 330 330 330 330 330 0 0 0 0 0 0 0 0 0 0 0 0 0\n\
                   p2.txt 330 330 330 330 330 330 330 330 330 330 330 330 0 0 0 0 0 0 0 0 0 0 0 0 0\n";
    let loaded = load_state_text(content, &files(&["p0.txt", "p1.txt"])).expect("state should load");
    let sum: i64 = loaded.monthly_pct.iter().map(|p| p[0]).sum();
    assert_eq!(sum, PCT_TOTAL, "month must sum to 1000 after product removal");
}

#[test]
fn load_state_normalizes_when_all_products_locked() {
    let content = "p0.txt 340 340 340 340 340 340 340 340 340 340 340 340 0 0 0 0 0 0 0 0 0 0 0 0 1\n\
                   p1.txt 330 330 330 330 330 330 330 330 330 330 330 330 0 0 0 0 0 0 0 0 0 0 0 0 1\n\
                   p2.txt 330 330 330 330 330 330 330 330 330 330 330 330 0 0 0 0 0 0 0 0 0 0 0 0 1\n";
    let loaded = load_state_text(content, &files(&["p0.txt", "p1.txt", "p2.txt"])).expect("state should load");
    for m in 0..12 {
        let sum: i64 = loaded.monthly_pct.iter().map(|p| p[m]).sum();
        assert_eq!(sum, PCT_TOTAL, "month {} must sum to 1000 even when all products are locked, got {}", m, sum);
    }
}

#[test]
fn fix_costs_persist_in_state_roundtrip() {
    let mut state = state_with(&["A"]);
    state.month_overrides.fix_costs[3] = 750;
    let fs = files(&["p0.txt"]);
    let loaded = load_state_text(&save_state_text(&state, &fs), &fs).expect("state should load");
    assert_eq!(loaded.month_overrides.fix_costs[3], 750);
}

// --- further state-file scenarios ---------------------------------------

#[test]
fn state_text_lists_products_then_settings() {
    let mut state = state_with(&["A"]);
    state.month_locked[0][1] = true;
    let text = save_state_text(&state, &files(&["a.txt"]));
    let lines: Vec<&str> = text.lines().collect();
    assert!(lines[0].starts_with('#'));
    assert!(lines[1].starts_with('#'));
    assert_eq!(
        lines[2],
        "a.txt 1000 1000 1000 1000 1000 1000 1000 1000 1000 1000 1000 1000 0 1 0 0 0 0 0 0 0 0 0 0 0"
    );
    assert_eq!(lines[3], "min_workday_hours 8");
    assert_eq!(lines[7], "month_workday 8 8 8 8 8 8 8 8 8 8 8 8");
    assert_eq!(lines[10], "month_fix_costs 0 0 0 0 0 0 0 0 0 0 0 0");
    assert_eq!(lines[11], "period FullYear");
    assert_eq!(lines.len(), 12);
}

#[test]
fn load_state_returns_none_without_usable_lines() {
    assert!(load_state_text("", &files(&["a.txt"])).is_none());
    assert!(load_state_text("# only a comment\n\nunknown.txt 1 2\n", &files(&["a.txt"])).is_none());
    assert!(load_state_text("month_workday 1 2 3\n", &files(&["a.txt"])).is_none());
}

#[test]
fn load_state_reads_older_keys_and_clamps_overrides() {
    let content = "workday_hours 9\nparallel 2\nmonthly_goal 700\nyearly_goal 9000\nselected_month 14\n\
                   month_workday 1 1 1 1 1 1 1 1 1 1 1 12\n";
    let loaded = load_state_text(content, &files(&["a.txt"])).expect("state should load");
    assert_eq!(loaded.settings.min_workday_hours, 9);
    assert_eq!(loaded.settings.min_parallel, 2);
    assert_eq!(loaded.settings.min_monthly_net_profit, 700);
    assert_eq!(loaded.settings.target_yearly_net_profit, 9000);
    assert_eq!(loaded.period, Period::Month(11));
    assert_eq!(loaded.month_overrides.workday[0], 9);
    assert_eq!(loaded.month_overrides.workday[11], 12);
    assert_eq!(loaded.month_overrides.parallel[5], 2);
    assert_eq!(loaded.month_overrides.net_profit[5], 700);
    // No product line: the single product gets the whole month.
    assert_eq!(loaded.monthly_pct[0][0], PCT_TOTAL);
}

#[test]
fn load_state_keeps_defaults_for_unreadable_numbers() {
    let content = "min_parallel lots\nperiod Month x\nmin_workday_hours +5\n";
    let loaded = load_state_text(content, &files(&["a.txt"])).expect("state should load");
    assert_eq!(loaded.settings.min_parallel, 1);
    assert_eq!(loaded.settings.min_workday_hours, 5);
    assert_eq!(loaded.period, Period::Month(0));
}

#[test]
fn load_state_scales_shares_and_gives_the_rest_to_the_first_unlocked() {
    // 1 + 1 + 1 = 3 -> 333.3 each -> 333 each, the missing tenth to the
    // first unlocked product (p1, since p0 is locked in every month).
    let content = "a.txt 1 1 1 1 1 1 1 1 1 1 1 1 0 0 0 0 0 0 0 0 0 0 0 0 1\n\
                   b.txt 1 1 1 1 1 1 1 1 1 1 1 1 0 0 0 0 0 0 0 0 0 0 0 0 0\n\
                   c.txt 1 1 1 1 1 1 1 1 1 1 1 1 0 0 0 0 0 0 0 0 0 0 0 0 0\n";
    let loaded = load_state_text(content, &files(&["a.txt", "b.txt", "c.txt"])).expect("state should load");
    assert_eq!(loaded.monthly_pct[0][4], 333);
    assert_eq!(loaded.monthly_pct[1][4], 334);
    assert_eq!(loaded.monthly_pct[2][4], 333);
}

// --- keys ------------------------------------------------------------------

#[test]
fn help_overlay_swallows_keys_and_scrolls() {
    let mut state = state_with(&["A", "B"]);
    let out = state.handle_key(Key { code: KeyCode::Char('h'), ctrl: true, shift: false }, 10);
    assert_eq!(out, KeyOutcome::Stay);
    assert!(state.show_help);
    state.handle_key(key(KeyCode::PageDown), 10);
    state.handle_key(key(KeyCode::Down), 10);
    assert_eq!(state.help_scroll, 11);
    state.handle_key(key(KeyCode::PageUp), 20);
    assert_eq!(state.help_scroll, 0);
    assert_eq!(state.handle_key(key(KeyCode::Char('q')), 10), KeyOutcome::Stay);
    assert!(!state.show_help);
    assert_eq!(state.handle_key(key(KeyCode::Char('q')), 10), KeyOutcome::Quit);
}

#[test]
fn keys_switch_region_tab_and_period() {
    let mut state = state_with(&["A"]);
    assert_eq!(state.handle_key(key(KeyCode::Tab), 10), KeyOutcome::Stay);
    assert_eq!(state.active_region, Region::Sidebar);
    assert_eq!(state.handle_key(key(KeyCode::BackTab), 10), KeyOutcome::Rebuild);
    assert_eq!(state.tab, Tab::Graph);
    assert_eq!(state.handle_key(key(KeyCode::Char(']')), 10), KeyOutcome::RebuildAndRange);
    assert_eq!(state.period, Period::Month(0));
    assert_eq!(state.handle_key(key(KeyCode::Char('[')), 10), KeyOutcome::RebuildAndRange);
    assert_eq!(state.period, Period::FullYear);
    assert_eq!(state.handle_key(Key { code: KeyCode::Char('e'), ctrl: true, shift: false }, 10), KeyOutcome::Export);
}

#[test]
fn up_down_scroll_products_or_move_the_selection() {
    let mut state = state_with(&["A", "B"]);
    state.handle_key(key(KeyCode::Down), 10);
    assert_eq!(state.product_scroll, 1);
    state.active_region = Region::Sidebar;
    assert_eq!(state.handle_key(key(KeyCode::Up), 10), KeyOutcome::Range);
    assert_eq!(state.selected, state.sliders.len() - 1);
    state.handle_key(key(KeyCode::Down), 10);
    assert_eq!(state.selected, 0);
}

#[test]
fn space_toggles_the_selected_share_lock() {
    let mut state = state_with(&["A", "B"]);
    state.active_region = Region::Sidebar;
    assert_eq!(state.handle_key(key(KeyCode::Char(' ')), 10), KeyOutcome::RebuildAndRange);
    assert!(state.yearly_locked[0]);
    state.yearly_locked[0] = false;
    state.period = Period::Month(2);
    state.rebuild_sliders(0);
    state.handle_key(key(KeyCode::Char(' ')), 10);
    assert!(state.month_locked[0][2]);
    assert!(!state.month_locked[0][3]);
}

#[test]
fn left_right_step_shares_and_settings() {
    let mut state = state_with(&["A", "B"]);
    state.active_region = Region::Sidebar;
    // Yearly share of A: 500 -> 501 in every month.
    assert_eq!(state.handle_key(key(KeyCode::Right), 10), KeyOutcome::RebuildAndRange);
    assert_eq!(state.monthly_pct[0][7], 501);
    assert_eq!(state.monthly_pct[1][7], 499);
    // The minimum workday hours slider follows the two share sliders.
    state.rebuild_sliders(0);
    state.selected = 2;
    assert_eq!(state.sliders[2].kind, SliderKind::MinWorkdayHours);
    state.handle_key(key(KeyCode::Left), 10);
    assert_eq!(state.settings.min_workday_hours, 7);
    assert_eq!(state.sliders[2].value, 7);
}

#[test]
fn parallel_range_clamps_the_month_override() {
    let mut state = state_with(&["A"]);
    state.period = Period::Month(0);
    state.month_overrides.parallel[0] = 999_999;
    state.rebuild_sliders(20000);
    state.update_parallel_range(20000);
    assert_eq!(state.month_overrides.parallel[0], 20000);
    let p = state.sliders.iter().find(|s| matches!(s.kind, SliderKind::MonthParallel(_))).unwrap();
    assert_eq!(p.value, 20000);
    assert_eq!(p.max, 20000);
    assert_eq!(p.min, 1);
    assert_eq!(p.label, "Parallel products [1..=20000]");
}

#[test]
fn syncing_sliders_raises_overrides_to_the_new_minimum() {
    let mut state = state_with(&["A"]);
    state.sliders[1].value = 12; // min workday hours
    assert_eq!(state.sliders[1].kind, SliderKind::MinWorkdayHours);
    state.sync_settings_from_sliders();
    assert_eq!(state.settings.min_workday_hours, 12);
    assert_eq!(state.month_overrides.workday[4], 12);
}

#[test]
fn can_adjust_checks_the_step() {
    let mut state = state_with(&["A"]);
    assert!(state.can_adjust(1));
    state.sliders[0].value = i64::MAX;
    assert!(!state.can_adjust(1));
}

#[test]
fn help_rows_mark_sections_and_space_them() {
    let state = state_with(&["a"]);
    let rows = build_help_lines(&state);
    assert_eq!(rows[0], (true, "Product definition (.txt files)".to_string()));
    assert!(rows[1].1.starts_with("Each product is a plain-text file"));
    assert!(!rows[1].0);
    let headers: Vec<usize> = (0..rows.len()).filter(|&i| rows[i].0).collect();
    assert_eq!(headers.len(), 8);
    for &i in &headers[1..] {
        assert_eq!(rows[i - 1], (false, String::new()));
        assert!(!rows[i].1.starts_with("## "));
    }
    assert_eq!(rows.last().unwrap(), &(false, "  q / Esc      quit (close help if it is open)".to_string()));
    let section = rows.iter().position(|r| r.1 == "Locks").unwrap();
    assert!(rows[section].0);
}

#[test]
fn yearly_reference_sums_the_monthly_goals_and_fix_costs() {
    let mut state = state_with(&["a", "b"]);
    assert_eq!(state.yearly_reference(), (6000, true));
    state.settings.target_yearly_net_profit = 6001;
    assert_eq!(state.yearly_reference(), (6000, false));
    state.month_overrides.net_profit[3] = 900;
    state.month_overrides.net_profit[4] = -50;
    assert_eq!(state.yearly_reference(), (6400, true));
    state.settings.min_monthly_net_profit = -100;
    assert_eq!(state.yearly_reference(), (5900, false));
    state.month_overrides.fix_costs[0] = 101;
    state.month_overrides.fix_costs[7] = 20;
    assert_eq!(state.yearly_reference(), (6021, true));
}
