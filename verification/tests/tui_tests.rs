use tiny_business_simulator::files::product_file_names;
use tiny_business_simulator::lang::Lang;
use tiny_business_simulator::layout::{braille_bit, fit_bar_width, months, slider_track, word_wrap};
use tiny_business_simulator::plan::{
    equal_split, AppState, GlobalSettings, MonthOverrides, Period, Region, Tab, DEFAULT_MIN_MONTHLY_NET_PROFIT,
    DEFAULT_MIN_PARALLEL, DEFAULT_MIN_WORKDAY_HOURS, DEFAULT_TARGET_YEARLY_NET_PROFIT, PCT_TOTAL,
};
use tiny_business_simulator::slider::{slider_readout, Slider, SliderKind};
use tiny_business_simulator::state_file::STATE_FILE_NAME;

fn make_state(n: usize) -> AppState {
    // Percentages are stored in tenths of a percent (PCT_TOTAL == 1000).
    let base = PCT_TOTAL / n.max(1) as i64;
    let extra = PCT_TOTAL - base * n.max(1) as i64;
    let monthly_pct: Vec<[i64; 12]> = (0..n)
        .map(|i| {
            let v = base + if (i as i64) < extra { 1 } else { 0 };
            [v; 12]
        })
        .collect();
    let mut state = AppState {
        names: (0..n).map(|i| format!("P{}", i)).collect(),
        monthly_pct,
        month_locked: vec![[false; 12]; n],
        yearly_locked: vec![false; n],
        period: Period::FullYear,
        sliders: Vec::new(),
        selected: 0,
        scroll: 0,
        status: None,
        tab: Tab::Products,
        product_scroll: 0,
        lang: Lang::En,
        active_region: Region::Main,
        show_help: false,
        help_scroll: 0,
        settings: GlobalSettings {
            min_workday_hours: DEFAULT_MIN_WORKDAY_HOURS,
            min_parallel: DEFAULT_MIN_PARALLEL,
            min_monthly_net_profit: DEFAULT_MIN_MONTHLY_NET_PROFIT,
            target_yearly_net_profit: DEFAULT_TARGET_YEARLY_NET_PROFIT,
        },
        month_overrides: MonthOverrides::default(),
    };
    state.rebuild_sliders(0);
    state
}

fn column_sum(state: &AppState, m: usize) -> i64 {
    state.monthly_pct.iter().map(|p| p[m]).sum()
}

#[test]
fn yearly_pct_is_mean_of_months() {
    let mut state = make_state(2);
    state.monthly_pct[0][0] = 800;
    state.monthly_pct[1][0] = 200;
    let expected: f64 = (800.0 + 11.0 * 500.0) / 12.0;
    assert!((state.yearly_pct(0) as f64 - expected.round()).abs() < 1e-9);
}

#[test]
fn slider_clamps_and_steps() {
    let mut s = Slider {
        kind: SliderKind::MinWorkdayHours,
        label: "x".into(),
        value: 8,
        min: 1,
        max: 24,
        step: 1,
        suffix: "",
        locked: false,
    };
    s.inc();
    assert_eq!(s.value, 9);
    for _ in 0..100 {
        s.inc();
    }
    assert_eq!(s.value, 24);
    for _ in 0..100 {
        s.dec();
    }
    assert_eq!(s.value, 1);
}

#[test]
fn fit_bar_width_fills_available_width() {
    assert_eq!(fit_bar_width(130, 1, 2), 4);
    assert_eq!(fit_bar_width(58, 1, 2), 1);
    assert_eq!(fit_bar_width(10, 1, 2), 1);
}

#[test]
fn slider_track_fills_proportionally() {
    let s = Slider {
        kind: SliderKind::MinWorkdayHours,
        label: "x".into(),
        value: 12,
        min: 0,
        max: 24,
        step: 1,
        suffix: "",
        locked: false,
    };
    let t = slider_track(&s, 10);
    assert_eq!(t.chars().count(), 10);
    let filled = t.chars().filter(|c| *c == '\u{2588}').count();
    assert_eq!(filled, 5);
}

#[test]
fn initial_monthly_percentages_sum_to_1000() {
    let state = make_state(3);
    for m in 0..12 {
        let sum = column_sum(&state, m);
        assert_eq!(sum, PCT_TOTAL, "month {} sums to {}", m, sum);
    }
}

#[test]
fn redistribute_month_keeps_total_at_1000() {
    let mut state = make_state(3);
    state.monthly_pct[0][0] = 500;
    state.monthly_pct[1][0] = 300;
    state.monthly_pct[2][0] = 200;
    state.redistribute_month(0, 0, 600);
    assert_eq!(state.monthly_pct[0][0], 600);
    assert_eq!(state.monthly_pct[1][0], 200);
    assert_eq!(state.monthly_pct[2][0], 200);
    assert_eq!(column_sum(&state, 0), PCT_TOTAL);
}

#[test]
fn redistribute_month_includes_zero_products() {
    let mut state = make_state(3);
    state.monthly_pct[0][0] = 500;
    state.monthly_pct[1][0] = 300;
    state.monthly_pct[2][0] = 0;
    state.redistribute_month(0, 0, 600);
    assert_eq!(state.monthly_pct[0][0], 600);
    assert_eq!(state.monthly_pct[1][0], 200);
    assert_eq!(state.monthly_pct[2][0], 200);
}

#[test]
fn redistribute_month_freezes_locked_product() {
    let mut state = make_state(3);
    state.monthly_pct[0][0] = 500;
    state.monthly_pct[1][0] = 300;
    state.monthly_pct[2][0] = 200;
    state.month_locked[1][0] = true;
    state.redistribute_month(0, 0, 600);
    assert_eq!(state.monthly_pct[0][0], 600);
    assert_eq!(state.monthly_pct[1][0], 300);
    assert_eq!(state.monthly_pct[2][0], 100);
}

#[test]
fn redistribute_month_clamped_by_locked_room() {
    let mut state = make_state(3);
    state.monthly_pct[0][0] = 200;
    state.monthly_pct[1][0] = 300;
    state.monthly_pct[2][0] = 500;
    state.month_locked[1][0] = true;
    state.month_locked[2][0] = true;
    state.redistribute_month(0, 0, 900);
    assert_eq!(state.monthly_pct[0][0], 200);
    assert_eq!(state.monthly_pct[1][0], 300);
    assert_eq!(state.monthly_pct[2][0], 500);
    assert_eq!(column_sum(&state, 0), PCT_TOTAL);
}

#[test]
fn redistribute_month_locked_changed_is_noop() {
    let mut state = make_state(2);
    state.month_locked[0][0] = true;
    let before = state.monthly_pct[0][0];
    state.redistribute_month(0, 0, 80);
    assert_eq!(state.monthly_pct[0][0], before);
}

#[test]
fn redistribute_month_yearly_locked_is_frozen() {
    let mut state = make_state(2);
    state.yearly_locked[1] = true;
    let before = state.monthly_pct[1][3];
    state.redistribute_month(3, 0, 600);
    assert_eq!(state.monthly_pct[1][3], before);
    assert_eq!(state.monthly_pct[0][3], 500);
    assert_eq!(state.monthly_pct[1][3], 500);
}

#[test]
fn edit_yearly_propagates_to_all_months() {
    let mut state = make_state(2);
    state.edit_yearly(0, 800);
    for m in 0..12 {
        assert_eq!(state.monthly_pct[0][m], 800, "month {}", m);
        assert_eq!(state.monthly_pct[1][m], 200, "month {}", m);
    }
    assert_eq!(state.yearly_pct(0), 800);
}

#[test]
fn edit_yearly_skips_month_locked_months() {
    let mut state = make_state(2);
    state.month_locked[0][3] = true;
    state.edit_yearly(0, 800);
    assert_eq!(state.monthly_pct[0][3], 500);
    for m in 0..12 {
        if m != 3 {
            assert_eq!(state.monthly_pct[0][m], 800, "month {}", m);
        }
    }
    let expected: f64 = (11.0 * 800.0 + 500.0) / 12.0;
    assert!((state.yearly_pct(0) as f64 - expected.round()).abs() < 1e-9);
    assert_ne!(state.yearly_pct(0), 800);
}

#[test]
fn edit_yearly_locked_product_is_noop() {
    let mut state = make_state(2);
    state.yearly_locked[0] = true;
    let before: Vec<[i64; 12]> = state.monthly_pct.clone();
    state.edit_yearly(0, 80);
    assert_eq!(state.monthly_pct, before);
}

#[test]
fn monthly_edit_recomputes_yearly_as_mean() {
    let mut state = make_state(2);
    state.period = Period::Month(0);
    state.redistribute_month(0, 0, 800);
    let expected: f64 = (800.0 + 11.0 * 500.0) / 12.0;
    assert!((state.yearly_pct(0) as f64 - expected.round()).abs() < 1e-9);
}

#[test]
fn yearly_lock_renders_month_checkbox_checked_and_greyed() {
    let mut state = make_state(2);
    state.yearly_locked[0] = true;
    state.period = Period::Month(3);
    state.rebuild_sliders(0);
    let a_month = state
        .sliders
        .iter()
        .find(|s| matches!(s.kind, SliderKind::MonthPercent(0)))
        .unwrap();
    assert!(a_month.locked, "monthly slider must be locked when yearly-locked");
}

#[test]
fn raising_min_clamps_overrides() {
    let mut state = make_state(1);
    state.settings.min_workday_hours = 10;
    state.settings.min_parallel = 3;
    state.settings.min_monthly_net_profit = 900;
    state.clamp_overrides_to_mins();
    for m in 0..12 {
        assert!(state.month_overrides.workday[m] >= 10, "month {}", m);
        assert!(state.month_overrides.parallel[m] >= 3, "month {}", m);
        assert!(state.month_overrides.net_profit[m] >= 900, "month {}", m);
    }
}

#[test]
fn period_next_prev_wraps() {
    assert_eq!(Period::FullYear.next(), Period::Month(0));
    assert_eq!(Period::Month(0).prev(), Period::FullYear);
    assert_eq!(Period::Month(11).next(), Period::FullYear);
    assert_eq!(Period::FullYear.prev(), Period::Month(11));
    assert_eq!(Period::Month(3).next(), Period::Month(4));
    assert_eq!(Period::Month(3).prev(), Period::Month(2));
}

#[test]
fn yearly_ref_check_matches_sum_of_monthly_goals() {
    let mut state = make_state(1);
    state.settings.target_yearly_net_profit = 6000;
    let year_sum: i64 = (0..12).map(|m| state.monthly_goal(m) + state.fix_costs(m)).sum();
    assert_eq!(year_sum, 6000);
    assert!(year_sum >= state.settings.target_yearly_net_profit);
    state.settings.target_yearly_net_profit = 7000;
    let year_sum: i64 = (0..12).map(|m| state.monthly_goal(m) + state.fix_costs(m)).sum();
    assert!(year_sum < state.settings.target_yearly_net_profit);
}

#[test]
fn yearly_ref_sum_includes_monthly_fix_costs() {
    let mut state = make_state(1);
    state.settings.target_yearly_net_profit = 6500;
    let year_sum: i64 = (0..12).map(|m| state.monthly_goal(m) + state.fix_costs(m)).sum();
    assert_eq!(year_sum, 6000);
    assert!(year_sum < state.settings.target_yearly_net_profit);
    assert_eq!(state.yearly_reference(), (6000, false));
    state.month_overrides.fix_costs[0] = 500;
    let year_sum: i64 = (0..12).map(|m| state.monthly_goal(m) + state.fix_costs(m)).sum();
    assert_eq!(year_sum, 6500);
    assert!(year_sum >= state.settings.target_yearly_net_profit);
    assert_eq!(state.yearly_reference(), (6500, true));
}

#[test]
fn redistribute_month_setting_zero_distributes_to_others() {
    let mut state = make_state(3);
    state.monthly_pct[0][0] = 400;
    state.monthly_pct[1][0] = 300;
    state.monthly_pct[2][0] = 300;
    state.redistribute_month(0, 0, 0);
    assert_eq!(state.monthly_pct[0][0], 0);
    assert_eq!(column_sum(&state, 0), PCT_TOTAL);
    assert_eq!(state.monthly_pct[1][0], 500);
    assert_eq!(state.monthly_pct[2][0], 500);
}

#[test]
fn word_wrap_breaks_at_spaces() {
    let lines = word_wrap("hello world foo bar", 10);
    assert_eq!(lines, vec!["hello", "world foo", "bar"]);
}

#[test]
fn word_wrap_hard_splits_long_words() {
    let lines = word_wrap("abcdefghij", 4);
    assert_eq!(lines, vec!["abcd", "efgh", "ij"]);
}

#[test]
fn word_wrap_empty_returns_empty_line() {
    let lines = word_wrap("", 10);
    assert_eq!(lines, vec![""]);
}

#[test]
fn percent_sliders_step_in_tenths_and_display_one_decimal() {
    let mut state = make_state(2);
    state.period = Period::Month(0);
    state.rebuild_sliders(0);
    let pct_slider = state
        .sliders
        .iter()
        .find(|s| matches!(s.kind, SliderKind::MonthPercent(0)))
        .unwrap();
    assert_eq!(pct_slider.value, 500);
    assert_eq!(pct_slider.max, PCT_TOTAL);
    assert_eq!(pct_slider.step, 1);
    let readout = slider_readout(pct_slider, &state.lang);
    assert!(readout.contains("50.0%"), "readout was: {}", readout);
}

#[test]
fn state_file_is_not_hidden_txt() {
    assert_eq!(STATE_FILE_NAME, "simulation_state.txt");
    assert!(!STATE_FILE_NAME.starts_with('.'));
    assert!(STATE_FILE_NAME.ends_with(".txt"));
}

#[test]
fn collect_txt_files_ignores_state_file() {
    let names: Vec<String> =
        ["beer.txt", "simulation_state.txt", "beer.simulation_results.txt"].iter().map(|s| s.to_string()).collect();
    assert_eq!(product_file_names(&names), vec!["beer.txt".to_string()]);
}

// --- further scenarios -------------------------------------------------

#[test]
fn equal_split_hands_the_remainder_to_the_first_products() {
    let v = equal_split(3);
    assert_eq!(v.len(), 3);
    assert_eq!(v[0], [334; 12]);
    assert_eq!(v[1], [333; 12]);
    assert_eq!(v[2], [333; 12]);
    assert!(equal_split(0).is_empty());
}

#[test]
fn redistribute_month_splits_remainder_with_extra_tenths_first() {
    let mut state = make_state(4);
    state.redistribute_month(5, 1, 0);
    assert_eq!(state.monthly_pct[1][5], 0);
    assert_eq!(state.monthly_pct[0][5], 334);
    assert_eq!(state.monthly_pct[2][5], 333);
    assert_eq!(state.monthly_pct[3][5], 333);
    assert_eq!(column_sum(&state, 5), PCT_TOTAL);
    // Other months are untouched.
    assert_eq!(state.monthly_pct[1][4], 250);
}

#[test]
fn redistribute_month_clamps_negative_and_oversized_values() {
    let mut state = make_state(2);
    state.redistribute_month(0, 0, -50);
    assert_eq!(state.monthly_pct[0][0], 0);
    assert_eq!(state.monthly_pct[1][0], 1000);
    state.redistribute_month(0, 0, 5000);
    assert_eq!(state.monthly_pct[0][0], 1000);
    assert_eq!(state.monthly_pct[1][0], 0);
}

#[test]
fn yearly_pct_rounds_halves_away_from_zero() {
    let mut state = make_state(1);
    state.monthly_pct[0] = [0; 12];
    state.monthly_pct[0][0] = 6; // 6 / 12 = 0.5 -> 1
    assert_eq!(state.yearly_pct(0), 1);
    state.monthly_pct[0][0] = -6; // -0.5 -> -1
    assert_eq!(state.yearly_pct(0), -1);
    state.monthly_pct[0][0] = 5; // 0.41.. -> 0
    assert_eq!(state.yearly_pct(0), 0);
}

#[test]
fn effective_settings_respect_minimums() {
    let mut state = make_state(1);
    state.month_overrides.workday[2] = 3;
    state.month_overrides.parallel[2] = 0;
    state.month_overrides.net_profit[2] = -10;
    state.settings.min_monthly_net_profit = -100;
    state.settings.min_parallel = 0;
    assert_eq!(state.workday_hours(2), 8);
    assert_eq!(state.parallel(2), 1);
    assert_eq!(state.monthly_goal(2), 0);
    assert_eq!(state.fix_costs(2), 0);
}

#[test]
fn slider_readout_formats_plain_and_share_values() {
    let s = Slider {
        kind: SliderKind::MinWorkdayHours,
        label: "x".into(),
        value: 8,
        min: 1,
        max: 24,
        step: 1,
        suffix: " h",
        locked: false,
    };
    assert_eq!(slider_readout(&s, &Lang::En), " 8 h");
    let p = Slider {
        kind: SliderKind::YearlyPercent(0),
        label: "% A".into(),
        value: -5,
        min: 0,
        max: 1000,
        step: 1,
        suffix: "%",
        locked: false,
    };
    assert_eq!(slider_readout(&p, &Lang::En), " -0.5%");
}

#[test]
fn slider_track_handles_ends_and_rounding() {
    let mut s = Slider {
        kind: SliderKind::MinParallel,
        label: "x".into(),
        value: 0,
        min: 0,
        max: 3,
        step: 1,
        suffix: "",
        locked: false,
    };
    assert_eq!(slider_track(&s, 4), "\u{2591}\u{2591}\u{2591}\u{2591}");
    s.value = 3;
    assert_eq!(slider_track(&s, 4), "\u{2588}\u{2588}\u{2588}\u{2588}");
    s.value = 1; // 1/3 of 4 cells = 1.33 -> 1
    assert_eq!(slider_track(&s, 4), "\u{2588}\u{2591}\u{2591}\u{2591}");
    s.value = 9; // past the max
    assert_eq!(slider_track(&s, 0), "\u{2588}");
}

#[test]
fn braille_bits_follow_the_dot_numbering() {
    assert_eq!(braille_bit(0, 0), 0x01);
    assert_eq!(braille_bit(1, 0), 0x08);
    assert_eq!(braille_bit(0, 1), 0x02);
    assert_eq!(braille_bit(1, 1), 0x10);
    assert_eq!(braille_bit(0, 2), 0x04);
    assert_eq!(braille_bit(1, 2), 0x20);
    assert_eq!(braille_bit(0, 3), 0x40);
    assert_eq!(braille_bit(1, 3), 0x80);
    assert_eq!(braille_bit(2, 0), 0);
    assert_eq!(braille_bit(0, 4), 0);
}

#[test]
fn months_are_localized() {
    assert_eq!(months(&Lang::De)[2], "Mär");
}

#[test]
fn word_wrap_keeps_width_zero_text_whole_and_cuts_after_a_full_line() {
    assert_eq!(word_wrap("a  b", 0), vec!["a  b"]);
    assert_eq!(word_wrap("ab abcdef", 3), vec!["ab", "abc", "def"]);
    assert_eq!(word_wrap("  ", 5), vec![""]);
}

#[test]
fn word_wrap_puts_each_over_wide_character_on_its_own_line() {
    assert_eq!(word_wrap("产品", 1), vec!["产".to_string(), "品".to_string()]);
    assert_eq!(word_wrap("a产b", 1), vec!["a".to_string(), "产".to_string(), "b".to_string()]);
    assert_eq!(word_wrap("产品 ab", 3), vec!["产".to_string(), "品".to_string(), "ab".to_string()]);
}

#[test]
fn product_file_names_keep_the_product_files_in_name_order() {
    let names: Vec<String> = [
        "simulation_state.txt",
        "beer.txt",
        "beer.simulation_results.txt",
        "ale.txt",
        "notes.md",
        "Zed.txt",
        "beer.txt.bak",
        "be.txt",
    ]
    .iter()
    .map(|s| s.to_string())
    .collect();
    let expected: Vec<String> = ["Zed.txt", "ale.txt", "be.txt", "beer.txt"].iter().map(|s| s.to_string()).collect();
    assert_eq!(product_file_names(&names), expected);
    assert_eq!(product_file_names(&Vec::new()), Vec::<String>::new());
}

#[test]
fn yearly_edit_equals_twelve_month_edits_in_turn() {
    let prepare = || {
        let mut s = make_state(3);
        s.month_locked[1][4] = true;
        s.month_locked[0][7] = true;
        s.monthly_pct[2][2] = 500;
        s.monthly_pct[1][2] = 167;
        s
    };
    let mut yearly = prepare();
    yearly.edit_yearly(0, 600);
    let mut monthly = prepare();
    for m in 0..12 {
        monthly.redistribute_month(m, 0, 600);
    }
    assert_eq!(yearly.monthly_pct, monthly.monthly_pct);
    assert_eq!(yearly.monthly_pct[0][7], prepare().monthly_pct[0][7]);
    assert_eq!(yearly.monthly_pct[0][0], 600);
}

#[test]
fn sidebar_follows_the_selected_share_slider() {
    let mut s = make_state(5);
    s.selected = 4;
    s.scroll = 0;
    s.scroll_to_selection(1, 6, 5, 2);
    assert_eq!(s.scroll, 2);
    s.selected = 1;
    s.scroll_to_selection(1, 6, 5, 2);
    assert_eq!(s.scroll, 0);
    s.selected = 5;
    s.scroll_to_selection(1, 6, 5, 2);
    assert_eq!(s.scroll, 3);
    s.selected = 0;
    s.scroll_to_selection(1, 6, 5, 2);
    assert_eq!(s.scroll, 3);
    s.selected = 3;
    s.scroll_to_selection(1, 6, 5, 10);
    assert_eq!(s.scroll, 0);
}
