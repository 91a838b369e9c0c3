//! The sidebar: which sliders each period shows, how a slider edit flows
//! back into the plan, and how a key press changes the screen state.
//!
//! The one figure the sidebar needs from the product economics is the cap of
//! the month's parallel-products slider: the whole hours of production the
//! month's goal requires. The caller computes it and passes it in.
use vstd::prelude::*;
use crate::lang::{fmt2, render, spec_dict};
use crate::plan::{
    max_int, round_div, valid_period, AppState, Period, Region, Tab, PCT_TOTAL,
};
use crate::slider::{clamped, Slider, SliderKind};
use crate::text;
use crate::text::{i64_text, push_str};

verus! {

broadcast use vstd::string::group_string_axioms;

/// A fresh `String` holding `t`.
fn owned(t: &str) -> (s: String)
    ensures
        s@ == t@,
{
    let mut s = String::new();
    push_str(&mut s, t);
    s
}

/// What a settings slider shows: label, value, min, max, step and suffix.
pub struct SettingsView {
    pub label: Seq<char>,
    pub value: int,
    pub min: int,
    pub max: int,
    pub step: int,
    pub suffix: Seq<char>,
}

/// The settings slider of `kind` for state `s`; `cap` is the whole hours of
/// production the month's goal requires (the parallel-products cap).
pub open spec fn settings_view(kind: SliderKind, s: AppState, cap: int) -> SettingsView {
    let d = spec_dict(s.lang);
    let g = s.settings;
    let o = s.month_overrides;
    match kind {
        SliderKind::MinWorkdayHours => SettingsView {
            label: d.tui_slider_workday@, value: g.min_workday_hours as int, min: 1, max: 24, step: 1, suffix: " h"@,
        },
        SliderKind::MinParallel => SettingsView {
            label: d.tui_slider_parallel@, value: g.min_parallel as int, min: 1, max: 200, step: 1, suffix: ""@,
        },
        SliderKind::MinMonthlyNetProfit => SettingsView {
            label: d.tui_slider_monthly_goal@, value: g.min_monthly_net_profit as int, min: 0, max: 1_000_000, step: 100,
            suffix: ""@,
        },
        SliderKind::TargetYearlyNetProfit => SettingsView {
            label: d.tui_slider_yearly_goal@, value: g.target_yearly_net_profit as int, min: 0, max: 10_000_000,
            step: 1000, suffix: ""@,
        },
        SliderKind::MonthWorkdayHours(m) => SettingsView {
            label: d.tui_slider_workday@,
            value: max_int(o.workday[m as int] as int, g.min_workday_hours as int),
            min: max_int(g.min_workday_hours as int, 1),
            max: 24,
            step: 1,
            suffix: " h"@,
        },
        SliderKind::MonthParallel(m) => {
            let lo = max_int(g.min_parallel as int, 1);
            let hi = max_int(cap, lo);
            let v = max_int(o.parallel[m as int] as int, lo);
            SettingsView {
                label: render(d.tui_parallel_label@, seq![text::int_text(lo), text::int_text(hi)]),
                value: if v < hi { v } else { hi },
                min: lo,
                max: hi,
                step: 1,
                suffix: ""@,
            }
        },
        SliderKind::MonthNetProfit(m) => SettingsView {
            label: d.tui_slider_monthly_goal@,
            value: max_int(o.net_profit[m as int] as int, g.min_monthly_net_profit as int),
            min: max_int(g.min_monthly_net_profit as int, 0),
            max: 1_000_000,
            step: 100,
            suffix: ""@,
        },
        _ => SettingsView { label: Seq::empty(), value: 0, min: 0, max: 1, step: 1, suffix: ""@ },
    }
}

/// `sl` is the settings slider of `kind` described by `v`.
pub open spec fn shows(sl: Slider, kind: SliderKind, v: SettingsView) -> bool {
    &&& sl.kind == kind
    &&& sl.label@ == v.label
    &&& sl.value == v.value
    &&& sl.min == v.min
    &&& sl.max == v.max
    &&& sl.step == v.step
    &&& sl.suffix@ == v.suffix
    &&& !sl.locked
}

/// Build the settings slider of `kind`; `parallel_cap` is the whole hours
/// of production the month's goal requires.
pub fn make_settings_slider(kind: SliderKind, state: &AppState, parallel_cap: i64) -> (sl: Slider)
    requires
        kind matches SliderKind::MonthWorkdayHours(m) ==> m < 12,
        kind matches SliderKind::MonthParallel(m) ==> m < 12,
        kind matches SliderKind::MonthNetProfit(m) ==> m < 12,
    ensures
        shows(sl, kind, settings_view(kind, *state, parallel_cap as int)),
{
    let d = state.lang.dict();
    let g = state.settings;
    match kind {
        SliderKind::MinWorkdayHours => Slider {
            kind,
            label: owned(d.tui_slider_workday),
            value: g.min_workday_hours,
            min: 1,
            max: 24,
            step: 1,
            suffix: " h",
            locked: false,
        },
        SliderKind::MinParallel => Slider {
            kind,
            label: owned(d.tui_slider_parallel),
            value: g.min_parallel,
            min: 1,
            max: 200,
            step: 1,
            suffix: "",
            locked: false,
        },
        SliderKind::MinMonthlyNetProfit => Slider {
            kind,
            label: owned(d.tui_slider_monthly_goal),
            value: g.min_monthly_net_profit,
            min: 0,
            max: 1_000_000,
            step: 100,
            suffix: "",
            locked: false,
        },
        SliderKind::TargetYearlyNetProfit => Slider {
            kind,
            label: owned(d.tui_slider_yearly_goal),
            value: g.target_yearly_net_profit,
            min: 0,
            max: 10_000_000,
            step: 1000,
            suffix: "",
            locked: false,
        },
        SliderKind::MonthWorkdayHours(m) => {
            let w = state.month_overrides.workday[m];
            Slider {
                kind,
                label: owned(d.tui_slider_workday),
                value: if w > g.min_workday_hours { w } else { g.min_workday_hours },
                min: if g.min_workday_hours > 1 { g.min_workday_hours } else { 1 },
                max: 24,
                step: 1,
                suffix: " h",
                locked: false,
            }
        },
        SliderKind::MonthParallel(m) => {
            let lo: i64 = if g.min_parallel > 1 { g.min_parallel } else { 1 };
            let hi: i64 = if parallel_cap > lo { parallel_cap } else { lo };
            let p = state.month_overrides.parallel[m];
            let v: i64 = if p > lo { p } else { lo };
            let lo_s = i64_text(lo);
            let hi_s = i64_text(hi);
            Slider {
                kind,
                label: fmt2(d.tui_parallel_label, lo_s.as_str(), hi_s.as_str()),
                value: if v < hi { v } else { hi },
                min: lo,
                max: hi,
                step: 1,
                suffix: "",
                locked: false,
            }
        },
        SliderKind::MonthNetProfit(m) => {
            let np = state.month_overrides.net_profit[m];
            Slider {
                kind,
                label: owned(d.tui_slider_monthly_goal),
                value: if np > g.min_monthly_net_profit { np } else { g.min_monthly_net_profit },
                min: if g.min_monthly_net_profit > 0 { g.min_monthly_net_profit } else { 0 },
                max: 1_000_000,
                step: 100,
                suffix: "",
                locked: false,
            }
        },
        _ => Slider {
            kind,
            label: String::new(),
            value: 0,
            min: 0,
            max: 1,
            step: 1,
            suffix: "",
            locked: false,
        },
    }
}

/// `sl` is product `i`'s share slider for period `period` in state `s`.
pub open spec fn shows_share(sl: Slider, s: AppState, i: int) -> bool {
    &&& sl.label@ == "% "@ + s.names@[i]@
    &&& sl.min == 0
    &&& sl.max == PCT_TOTAL
    &&& sl.step == 1
    &&& sl.suffix@ == "%"@
    &&& match s.period {
        Period::FullYear => {
            &&& sl.kind == SliderKind::YearlyPercent(i as usize)
            &&& sl.value == round_div(s.row_sum(i, 12), 12)
            &&& sl.locked == s.yearly_locked@[i]
        },
        Period::Month(m) => {
            &&& sl.kind == SliderKind::MonthPercent(i as usize)
            &&& sl.value == s.pct(i, m as int)
            &&& sl.locked == (s.month_locked@[i][m as int] || s.yearly_locked@[i])
        },
    }
}

/// The settings sliders a period shows, in order: the Full-Year minimums
/// and target, or the month's workday hours, parallel products and
/// net-profit goal.
pub open spec fn settings_kinds(p: Period) -> Seq<SliderKind> {
    match p {
        Period::FullYear => seq![
            SliderKind::MinWorkdayHours,
            SliderKind::MinParallel,
            SliderKind::MinMonthlyNetProfit,
            SliderKind::TargetYearlyNetProfit,
        ],
        Period::Month(m) => seq![
            SliderKind::MonthWorkdayHours(m),
            SliderKind::MonthParallel(m),
            SliderKind::MonthNetProfit(m),
        ],
    }
}

/// The sliders of state `s`: one share slider per product, then the
/// period's settings sliders.
pub open spec fn shows_sidebar(sls: Seq<Slider>, s: AppState, cap: int) -> bool {
    let k = settings_kinds(s.period);
    &&& sls.len() == s.n() + k.len()
    &&& forall|i: int| 0 <= i < s.n() ==> #[trigger] shows_share(sls[i], s, i)
    &&& forall|j: int| 0 <= j < k.len() ==> #[trigger] shows(sls[s.n() + j], k[j], settings_view(k[j], s, cap))
}

/// Every slider's product or month index is in range.
pub open spec fn sliders_valid(sls: Seq<Slider>, n: int) -> bool {
    forall|i: int| 0 <= i < sls.len() ==> match #[trigger] sls[i].kind {
        SliderKind::YearlyPercent(p) => p < n,
        SliderKind::MonthPercent(p) => p < n,
        SliderKind::MonthWorkdayHours(m) => m < 12,
        SliderKind::MonthParallel(m) => m < 12,
        SliderKind::MonthNetProfit(m) => m < 12,
        _ => true,
    }
}

impl AppState {
    /// Rebuild the sliders for the current period: the products' yearly
    /// shares and the Full-Year settings, or the month's shares and
    /// overrides. The selection goes back to the first slider when it falls
    /// off the end.
    pub fn rebuild_sliders(&mut self, parallel_cap: i64)
        requires
            old(self).wf(),
            valid_period(old(self).period),
        ensures
            shows_sidebar(final(self).sliders@, *old(self), parallel_cap as int),
            sliders_valid(final(self).sliders@, old(self).n()),
            final(self).selected == if old(self).selected >= final(self).sliders@.len() {
                0
            } else {
                old(self).selected
            },
            final(self).same_but_sliders(*old(self)),
    {
        let ghost s0 = *self;
        let n = self.names.len();
        let mut sliders: Vec<Slider> = Vec::new();
        let mut i: usize = 0;
        while i < n
            invariant
                *self == s0,
                s0.wf(),
                valid_period(s0.period),
                n == s0.n(),
                i <= n,
                sliders@.len() == i,
                forall|j: int| 0 <= j < i ==> #[trigger] shows_share(sliders@[j], s0, j),
                sliders_valid(sliders@, n as int),
            decreases n - i,
        {
            let mut label = owned("% ");
            push_str(&mut label, self.names[i].as_str());
            let sl = match self.period {
                Period::FullYear => Slider {
                    kind: SliderKind::YearlyPercent(i),
                    label,
                    value: self.yearly_pct(i),
                    min: 0,
                    max: PCT_TOTAL,
                    step: 1,
                    suffix: "%",
                    locked: self.yearly_locked[i],
                },
                Period::Month(m) => Slider {
                    kind: SliderKind::MonthPercent(i),
                    label,
                    value: self.monthly_pct[i][m],
                    min: 0,
                    max: PCT_TOTAL,
                    step: 1,
                    suffix: "%",
                    locked: self.month_locked[i][m] || self.yearly_locked[i],
                },
            };
            sliders.push(sl);
            i = i + 1;
        }
        let kinds: Vec<SliderKind> = match self.period {
            Period::FullYear => vec![
                SliderKind::MinWorkdayHours,
                SliderKind::MinParallel,
                SliderKind::MinMonthlyNetProfit,
                SliderKind::TargetYearlyNetProfit,
            ],
            Period::Month(m) => vec![
                SliderKind::MonthWorkdayHours(m),
                SliderKind::MonthParallel(m),
                SliderKind::MonthNetProfit(m),
            ],
        };
        assert(kinds@ =~= settings_kinds(s0.period));
        let mut j: usize = 0;
        while j < kinds.len()
            invariant
                *self == s0,
                s0.wf(),
                valid_period(s0.period),
                n == s0.n(),
                kinds@ == settings_kinds(s0.period),
                j <= kinds@.len(),
                sliders@.len() == n + j,
                forall|i: int| 0 <= i < n ==> #[trigger] shows_share(sliders@[i], s0, i),
                forall|q: int| 0 <= q < j ==> #[trigger] shows(sliders@[n + q], kinds@[q], settings_view(kinds@[q], s0, parallel_cap as int)),
                sliders_valid(sliders@, n as int),
            decreases kinds@.len() - j,
        {
            let sl = make_settings_slider(kinds[j], self, parallel_cap);
            sliders.push(sl);
            j = j + 1;
        }
        self.sliders = sliders;
        if self.selected >= self.sliders.len() {
            self.selected = 0;
        }
    }

    /// Everything but the sliders and the selection is the same in `self`
    /// and `other`.
    pub open spec fn same_but_sliders(self, other: AppState) -> bool {
        &&& self.names == other.names
        &&& self.monthly_pct == other.monthly_pct
        &&& self.month_locked == other.month_locked
        &&& self.yearly_locked == other.yearly_locked
        &&& self.period == other.period
        &&& self.scroll == other.scroll
        &&& self.status == other.status
        &&& self.tab == other.tab
        &&& self.product_scroll == other.product_scroll
        &&& self.lang == other.lang
        &&& self.active_region == other.active_region
        &&& self.show_help == other.show_help
        &&& self.help_scroll == other.help_scroll
        &&& self.settings == other.settings
        &&& self.month_overrides == other.month_overrides
    }
}

/// The value of the last slider of `kind` in `sls`, if any.
pub open spec fn last_of(sls: Seq<Slider>, kind: SliderKind) -> Option<i64>
    decreases sls.len(),
{
    if sls.len() == 0 {
        None
    } else if sls.last().kind == kind {
        Some(sls.last().value)
    } else {
        last_of(sls.drop_last(), kind)
    }
}

/// The slider value when there is one, else `d`.
pub open spec fn or_keep(o: Option<i64>, d: i64) -> i64 {
    match o {
        Some(v) => v,
        None => d,
    }
}

/// `t` is `s` with the settings and month overrides taken from the
/// settings sliders `sls` (the last slider of a kind wins), every override
/// then raised to its minimum; the rest of the state other than the sliders
/// is unchanged.
pub open spec fn synced_from(s: AppState, sls: Seq<Slider>, t: AppState) -> bool {
    let g = s.settings;
    let o = s.month_overrides;
    let g2 = t.settings;
    let o2 = t.month_overrides;
    &&& g2.min_workday_hours == or_keep(last_of(sls, SliderKind::MinWorkdayHours), g.min_workday_hours)
    &&& g2.min_parallel == or_keep(last_of(sls, SliderKind::MinParallel), g.min_parallel)
    &&& g2.min_monthly_net_profit == or_keep(last_of(sls, SliderKind::MinMonthlyNetProfit), g.min_monthly_net_profit)
    &&& g2.target_yearly_net_profit == or_keep(last_of(sls, SliderKind::TargetYearlyNetProfit), g.target_yearly_net_profit)
    &&& forall|m: int| 0 <= m < 12 ==> #[trigger] o2.workday[m] == max_int(
        or_keep(last_of(sls, SliderKind::MonthWorkdayHours(m as usize)), o.workday[m]) as int,
        g2.min_workday_hours as int)
    &&& forall|m: int| 0 <= m < 12 ==> #[trigger] o2.parallel[m] == max_int(
        or_keep(last_of(sls, SliderKind::MonthParallel(m as usize)), o.parallel[m]) as int,
        g2.min_parallel as int)
    &&& forall|m: int| 0 <= m < 12 ==> #[trigger] o2.net_profit[m] == max_int(
        or_keep(last_of(sls, SliderKind::MonthNetProfit(m as usize)), o.net_profit[m]) as int,
        g2.min_monthly_net_profit as int)
    &&& o2.fix_costs == o.fix_costs
    &&& t.names == s.names
    &&& t.monthly_pct == s.monthly_pct
    &&& t.month_locked == s.month_locked
    &&& t.yearly_locked == s.yearly_locked
    &&& t.period == s.period
    &&& t.selected == s.selected
    &&& t.scroll == s.scroll
    &&& t.status == s.status
    &&& t.tab == s.tab
    &&& t.product_scroll == s.product_scroll
    &&& t.lang == s.lang
    &&& t.active_region == s.active_region
    &&& t.show_help == s.show_help
    &&& t.help_scroll == s.help_scroll
}

impl AppState {
    /// Copy the settings sliders' values back into the settings and the
    /// month overrides (the last slider of a kind wins), then raise every
    /// override to its minimum.
    pub fn sync_settings_from_sliders(&mut self)
        requires
            sliders_valid(old(self).sliders@, old(self).n()),
        ensures
            synced_from(*old(self), old(self).sliders@, *final(self)),
            final(self).sliders == old(self).sliders,
    {
        let ghost sls = self.sliders@;
        let ghost g = self.settings;
        let ghost o = self.month_overrides;
        let mut gs = self.settings;
        let mut ov = self.month_overrides;
        let mut i: usize = 0;
        while i < self.sliders.len()
            invariant
                sls == self.sliders@,
                sliders_valid(sls, self.n()),
                i <= sls.len(),
                gs.min_workday_hours == or_keep(last_of(sls.take(i as int), SliderKind::MinWorkdayHours), g.min_workday_hours),
                gs.min_parallel == or_keep(last_of(sls.take(i as int), SliderKind::MinParallel), g.min_parallel),
                gs.min_monthly_net_profit == or_keep(last_of(sls.take(i as int), SliderKind::MinMonthlyNetProfit), g.min_monthly_net_profit),
                gs.target_yearly_net_profit == or_keep(last_of(sls.take(i as int), SliderKind::TargetYearlyNetProfit), g.target_yearly_net_profit),
                forall|m: int| 0 <= m < 12 ==> #[trigger] ov.workday[m] == or_keep(last_of(sls.take(i as int), SliderKind::MonthWorkdayHours(m as usize)), o.workday[m]),
                forall|m: int| 0 <= m < 12 ==> #[trigger] ov.parallel[m] == or_keep(last_of(sls.take(i as int), SliderKind::MonthParallel(m as usize)), o.parallel[m]),
                forall|m: int| 0 <= m < 12 ==> #[trigger] ov.net_profit[m] == or_keep(last_of(sls.take(i as int), SliderKind::MonthNetProfit(m as usize)), o.net_profit[m]),
                ov.fix_costs == o.fix_costs,
            decreases sls.len() - i,
        {
            let k = self.sliders[i].kind;
            let v = self.sliders[i].value;
            proof {
                assert(sls.take(i + 1).drop_last() =~= sls.take(i as int));
                assert(sls.take(i + 1).last() == sls[i as int]);
            }
            match k {
                SliderKind::MinWorkdayHours => gs.min_workday_hours = v,
                SliderKind::MinParallel => gs.min_parallel = v,
                SliderKind::MinMonthlyNetProfit => gs.min_monthly_net_profit = v,
                SliderKind::TargetYearlyNetProfit => gs.target_yearly_net_profit = v,
                SliderKind::MonthWorkdayHours(m) => ov.workday[m] = v,
                SliderKind::MonthParallel(m) => ov.parallel[m] = v,
                SliderKind::MonthNetProfit(m) => ov.net_profit[m] = v,
                _ => {},
            }
            i = i + 1;
        }
        assert(sls.take(sls.len() as int) =~= sls);
        self.settings = gs;
        self.month_overrides = ov;
        self.clamp_overrides_to_mins();
    }
}

/// The parallel-products range of a month: from the minimum (at least one)
/// to the cap (at least the minimum).
pub open spec fn parallel_lo(s: AppState) -> int {
    max_int(s.settings.min_parallel as int, 1)
}

/// Upper end of the parallel-products range for cap `cap`.
pub open spec fn parallel_hi(s: AppState, cap: int) -> int {
    max_int(cap, parallel_lo(s))
}

impl AppState {
    /// In a month period, bring the month's parallel-products override into
    /// its range (from the minimum to `parallel_cap`, the whole hours of
    /// production the month's goal requires) and give every parallel slider
    /// that range, value and label. The Full Year is left alone.
    pub fn update_parallel_range(&mut self, parallel_cap: i64)
        requires
            valid_period(old(self).period),
        ensures
            final(self).sliders@.len() == old(self).sliders@.len(),
            final(self).names == old(self).names,
            final(self).monthly_pct == old(self).monthly_pct,
            final(self).month_locked == old(self).month_locked,
            final(self).yearly_locked == old(self).yearly_locked,
            final(self).period == old(self).period,
            final(self).selected == old(self).selected,
            final(self).settings == old(self).settings,
            final(self).lang == old(self).lang,
            final(self).month_overrides.workday == old(self).month_overrides.workday,
            final(self).month_overrides.net_profit == old(self).month_overrides.net_profit,
            final(self).month_overrides.fix_costs == old(self).month_overrides.fix_costs,
            old(self).period == Period::FullYear ==> *final(self) == *old(self),
            old(self).period matches Period::Month(m) ==> ({
                let lo = parallel_lo(*old(self));
                let hi = parallel_hi(*old(self), parallel_cap as int);
                let v = clamped(old(self).month_overrides.parallel[m as int] as int, lo, hi);
                &&& final(self).month_overrides.parallel[m as int] == v
                &&& forall|k: int| 0 <= k < 12 && k != m ==> #[trigger] final(self).month_overrides.parallel[k]
                    == old(self).month_overrides.parallel[k]
                &&& forall|i: int| 0 <= i < old(self).sliders@.len() ==> {
                    let a = #[trigger] old(self).sliders@[i];
                    let b = final(self).sliders@[i];
                    if a.kind is MonthParallel {
                        &&& b.kind == a.kind
                        &&& b.min == lo
                        &&& b.max == hi
                        &&& b.value == v
                        &&& b.label@ == render(spec_dict(old(self).lang).tui_parallel_label@, seq![text::int_text(lo), text::int_text(hi)])
                        &&& b.step == a.step
                        &&& b.suffix == a.suffix
                        &&& b.locked == a.locked
                    } else {
                        b == a
                    }
                }
                &&& final(self).scroll == old(self).scroll
                &&& final(self).status == old(self).status
                &&& final(self).tab == old(self).tab
                &&& final(self).product_scroll == old(self).product_scroll
                &&& final(self).active_region == old(self).active_region
                &&& final(self).show_help == old(self).show_help
                &&& final(self).help_scroll == old(self).help_scroll
            }),
    {
        let m = match self.period {
            Period::FullYear => {
                return;
            },
            Period::Month(m) => m,
        };
        let lo: i64 = if self.settings.min_parallel > 1 { self.settings.min_parallel } else { 1 };
        let hi: i64 = if parallel_cap > lo { parallel_cap } else { lo };
        let p = self.month_overrides.parallel[m];
        let up: i64 = if p < lo { lo } else { p };
        let v: i64 = if up > hi { hi } else { up };
        self.month_overrides.parallel[m] = v;
        let ghost s1 = *self;
        let d = self.lang.dict();
        let lo_s = i64_text(lo);
        let hi_s = i64_text(hi);
        let mut i: usize = 0;
        while i < self.sliders.len()
            invariant
                self.names == s1.names,
                self.monthly_pct == s1.monthly_pct,
                self.month_locked == s1.month_locked,
                self.yearly_locked == s1.yearly_locked,
                self.period == s1.period,
                self.selected == s1.selected,
                self.settings == s1.settings,
                self.lang == s1.lang,
                self.month_overrides == s1.month_overrides,
                self.scroll == s1.scroll,
                self.status == s1.status,
                self.tab == s1.tab,
                self.product_scroll == s1.product_scroll,
                self.active_region == s1.active_region,
                self.show_help == s1.show_help,
                self.help_scroll == s1.help_scroll,
                d == spec_dict(s1.lang),
                lo_s@ == text::int_text(lo as int),
                hi_s@ == text::int_text(hi as int),
                self.sliders@.len() == s1.sliders@.len(),
                i <= self.sliders@.len(),
                forall|j: int| i <= j < self.sliders@.len() ==> #[trigger] self.sliders@[j] == s1.sliders@[j],
                forall|j: int| 0 <= j < i ==> {
                    let a = #[trigger] s1.sliders@[j];
                    let b = self.sliders@[j];
                    if a.kind is MonthParallel {
                        &&& b.kind == a.kind
                        &&& b.min == lo
                        &&& b.max == hi
                        &&& b.value == v
                        &&& b.label@ == render(d.tui_parallel_label@, seq![text::int_text(lo as int), text::int_text(hi as int)])
                        &&& b.step == a.step
                        &&& b.suffix == a.suffix
                        &&& b.locked == a.locked
                    } else {
                        b == a
                    }
                },
            decreases s1.sliders@.len() - i,
        {
            if let SliderKind::MonthParallel(_) = self.sliders[i].kind {
                let label = fmt2(d.tui_parallel_label, lo_s.as_str(), hi_s.as_str());
                let mut sl = self.sliders[i].clone();
                sl.min = lo;
                sl.max = hi;
                sl.value = v;
                sl.label = label;
                sl.kind = self.sliders[i].kind;
                sl.step = self.sliders[i].step;
                sl.suffix = self.sliders[i].suffix;
                sl.locked = self.sliders[i].locked;
                self.sliders.set(i, sl);
            }
            i = i + 1;
        }
    }
}

/// `a` is `b` with value `v`.
pub open spec fn with_value(a: Slider, b: Slider, v: int) -> bool {
    &&& a.kind == b.kind
    &&& a.label == b.label
    &&& a.min == b.min
    &&& a.max == b.max
    &&& a.step == b.step
    &&& a.suffix == b.suffix
    &&& a.locked == b.locked
    &&& a.value == v
}

/// The selected slider can take one step in direction `dir` without
/// leaving the range of `i64`, and the shares it moves leave room for the
/// result: the conditions under which [`AppState::adjust_slider`] works.
pub open spec fn adjust_fits(s: AppState, dir: int) -> bool {
    s.selected < s.sliders@.len() ==> {
        let sl = s.sliders@[s.selected as int];
        match sl.kind {
            SliderKind::YearlyPercent(p) => {
                &&& i64::MIN <= dir * sl.step <= i64::MAX
                &&& i64::MIN <= sl.value + dir * sl.step <= i64::MAX
                &&& frozen_fits_all(s, p as int)
            },
            SliderKind::MonthPercent(p) => match s.period {
                Period::Month(m) => {
                    &&& i64::MIN <= dir * sl.step <= i64::MAX
                    &&& i64::MIN <= s.pct(p as int, m as int) + dir * sl.step <= i64::MAX
                    &&& s.frozen_below(m as int, p as int, s.n()) >= PCT_TOTAL - i64::MAX
                },
                Period::FullYear => true,
            },
            _ => i64::MIN <= sl.value + dir * sl.step <= i64::MAX,
        }
    }
}

/// In every month, the shares locked against product `p` leave room for
/// any edit of `p` (see [`AppState::redistribute_month`]).
pub open spec fn frozen_fits_all(s: AppState, p: int) -> bool {
    forall|m: int| 0 <= m < 12 ==> #[trigger] s.frozen_below(m, p, s.n()) >= PCT_TOTAL - i64::MAX
}

/// `t` is `s` after the selected slider takes one step in direction `dir`
/// ([`AppState::adjust_slider`]).
pub open spec fn adjusted_into(s: AppState, t: AppState, dir: int) -> bool {
    if s.selected >= s.sliders@.len() {
        t == s
    } else {
        let sl = s.sliders@[s.selected as int];
        match sl.kind {
            SliderKind::YearlyPercent(p) => s.yearly_edited_into(t, p as int, sl.value + dir * sl.step),
            SliderKind::MonthPercent(p) => match s.period {
                Period::Month(m) => s.redistributed_into(t, m as int, p as int, s.pct(p as int, m as int) + dir * sl.step),
                Period::FullYear => t == s,
            },
            _ => {
                &&& t.sliders@.len() == s.sliders@.len()
                &&& forall|i: int| 0 <= i < s.sliders@.len() && i != s.selected ==> #[trigger] t.sliders@[i] == s.sliders@[i]
                &&& with_value(t.sliders@[s.selected as int], sl, clamped(sl.value + dir * sl.step, sl.min as int, sl.max as int))
                &&& synced_from(s, t.sliders@, t)
            },
        }
    }
}

impl AppState {
    /// Whether the selected slider can take one step in direction `dir`
    /// ([`adjust_fits`]).
    pub fn can_adjust(&self, dir: i64) -> (b: bool)
        requires
            self.wf(),
            valid_period(self.period),
            sliders_valid(self.sliders@, self.n()),
            dir == -1 || dir == 1,
        ensures
            b == adjust_fits(*self, dir as int),
    {
        if self.selected >= self.sliders.len() {
            return true;
        }
        let kind = self.sliders[self.selected].kind;
        let v = self.sliders[self.selected].value as i128;
        let st = self.sliders[self.selected].step as i128;
        let ds: i128 = if dir < 0 { -st } else { st };
        assert(ds == dir * st);
        let lo: i128 = -0x8000_0000_0000_0000;
        let hi: i128 = 0x7fff_ffff_ffff_ffff;
        match kind {
            SliderKind::YearlyPercent(p) => {
                let t = v + ds;
                if t < lo || t > hi || ds < lo || ds > hi {
                    return false;
                }
                let mut m: usize = 0;
                while m < 12
                    invariant
                        self.wf(),
                        m <= 12,
                        self.selected < self.sliders@.len(),
                        self.sliders@[self.selected as int].kind == SliderKind::YearlyPercent(p),
                        dir == -1 || dir == 1,
                        i64::MIN <= dir * self.sliders@[self.selected as int].step <= i64::MAX,
                        i64::MIN <= self.sliders@[self.selected as int].value + dir * self.sliders@[self.selected as int].step <= i64::MAX,
                        forall|k: int| 0 <= k < m ==> #[trigger] self.frozen_below(k, p as int, self.n()) >= PCT_TOTAL - i64::MAX,
                    decreases 12 - m,
                {
                    if self.frozen_sum(m, p) < 1000 - 0x7fff_ffff_ffff_ffff {
                        assert(!(self.frozen_below(m as int, p as int, self.n()) >= PCT_TOTAL - i64::MAX));
                        assert(!frozen_fits_all(*self, p as int));
                        return false;
                    }
                    m = m + 1;
                }
                true
            },
            SliderKind::MonthPercent(p) => match self.period {
                Period::Month(m) => {
                    let t = self.monthly_pct[p][m] as i128 + ds;
                    t >= lo && t <= hi && ds >= lo && ds <= hi && self.frozen_sum(m, p) >= 1000 - 0x7fff_ffff_ffff_ffff
                },
                Period::FullYear => true,
            },
            _ => {
                let t = v + ds;
                t >= lo && t <= hi
            },
        }
    }

    /// Move the selected slider one step in direction `dir`: a yearly share
    /// propagates to every editable month, a month share redistributes
    /// within the selected month, and a settings slider steps (clamped to
    /// its range) and is copied back into the settings. The caller rebuilds
    /// the sliders afterwards.
    pub fn adjust_slider(&mut self, dir: i64)
        requires
            old(self).wf(),
            valid_period(old(self).period),
            sliders_valid(old(self).sliders@, old(self).n()),
            dir == -1 || dir == 1,
            adjust_fits(*old(self), dir as int),
        ensures
            adjusted_into(*old(self), *final(self), dir as int),
    {
        if self.selected >= self.sliders.len() {
            return;
        }
        let ghost s_in = *self;
        let sel = self.selected;
        let kind = self.sliders[sel].kind;
        let step = self.sliders[sel].step;
        proof {
            if dir == 1 {
                assert(dir * step == step) by (nonlinear_arith)
                    requires dir == 1;
            } else {
                assert(dir * step == -step) by (nonlinear_arith)
                    requires dir == -1;
            }
        }
        match kind {
            SliderKind::YearlyPercent(p) => {
                let target = self.sliders[sel].value + dir * step;
                self.edit_yearly(p, target);
                assert(adjusted_into(s_in, *self, dir as int));
            },
            SliderKind::MonthPercent(p) => {
                if let Period::Month(m) = self.period {
                    let target = self.monthly_pct[p][m] + dir * step;
                    self.redistribute_month(m, p, target);
                }
            },
            _ => {
                let ghost s0 = *self;
                if dir < 0 {
                    self.sliders[sel].dec();
                } else {
                    self.sliders[sel].inc();
                }
                let ghost s1 = *self;
                assert(s1.sliders@ =~= s1.sliders@);
                self.sync_settings_from_sliders();
            },
        }
    }
}

// ---------------------------------------------------------------------------
// Keys
// ---------------------------------------------------------------------------

/// The keys the screen reacts to.
#[derive(Debug, Clone, Copy, PartialEq, Eq, Structural)]
pub enum KeyCode {
    Char(char),
    Up,
    Down,
    Left,
    Right,
    PageUp,
    PageDown,
    Home,
    End,
    Esc,
    Tab,
    BackTab,
    Other,
}

/// A key press: the key and whether Control or Shift was held.
#[derive(Debug, Clone, Copy, PartialEq, Eq, Structural)]
pub struct Key {
    pub code: KeyCode,
    pub ctrl: bool,
    pub shift: bool,
}

/// What the caller does after a key press.
#[derive(Debug, Clone, Copy, PartialEq, Eq, Structural)]
pub enum KeyOutcome {
    /// Nothing more.
    Stay,
    /// Leave the program.
    Quit,
    /// Write the result files and the state file, and show the status.
    Export,
    /// Rebuild the sliders.
    Rebuild,
    /// Rebuild the sliders, then refresh the month's parallel range.
    RebuildAndRange,
    /// Refresh the month's parallel range.
    Range,
}

/// The key is Up or Down.
pub open spec fn is_up_down(k: KeyCode) -> bool {
    k is Up || k is Down
}

/// What [`AppState::handle_key`] does to the screen state `s` and what it
/// asks the caller to do next, for key `k`; `page` is the help page height.
/// The shares and settings only change on Left/Right ([`adjusted_into`]).
pub open spec fn key_effect(s: AppState, t: AppState, k: Key, page: int, out: KeyOutcome) -> bool {
    if k.ctrl && k.code == KeyCode::Char('h') {
        &&& out == KeyOutcome::Stay
        &&& t == AppState { show_help: !s.show_help, help_scroll: 0, ..s }
    } else if s.show_help {
        &&& out == KeyOutcome::Stay
        &&& t == match k.code {
            KeyCode::Esc | KeyCode::Char('q') => AppState { show_help: false, help_scroll: 0, ..s },
            KeyCode::Up => AppState { help_scroll: if s.help_scroll > 0 { (s.help_scroll - 1) as usize } else { 0 }, ..s },
            KeyCode::Down => AppState { help_scroll: if s.help_scroll < usize::MAX { (s.help_scroll + 1) as usize } else { usize::MAX }, ..s },
            KeyCode::PageUp => AppState { help_scroll: if s.help_scroll > page { (s.help_scroll - page) as usize } else { 0 }, ..s },
            KeyCode::PageDown => AppState { help_scroll: if s.help_scroll + page <= usize::MAX { (s.help_scroll + page) as usize } else { usize::MAX }, ..s },
            KeyCode::Home => AppState { help_scroll: 0, ..s },
            KeyCode::End => AppState { help_scroll: usize::MAX, ..s },
            _ => s,
        }
    } else if k.ctrl && k.code == KeyCode::Char('e') {
        out == KeyOutcome::Export && t == s
    } else if k.code == KeyCode::Tab && !k.shift {
        &&& out == KeyOutcome::Stay
        &&& t == AppState { active_region: if s.active_region == Region::Main { Region::Sidebar } else { Region::Main }, ..s }
    } else if k.code == KeyCode::BackTab {
        &&& out == KeyOutcome::Rebuild
        &&& t == AppState { tab: if s.tab == Tab::Products { Tab::Graph } else { Tab::Products }, selected: 0, scroll: 0, ..s }
    } else if k.code == KeyCode::Char('[') {
        out == KeyOutcome::RebuildAndRange && t == AppState { period: crate::plan::prev_of(s.period), selected: 0, scroll: 0, ..s }
    } else if k.code == KeyCode::Char(']') {
        out == KeyOutcome::RebuildAndRange && t == AppState { period: crate::plan::next_of(s.period), selected: 0, scroll: 0, ..s }
    } else if s.active_region == Region::Main && s.tab == Tab::Products && is_up_down(k.code) {
        &&& out == KeyOutcome::Stay
        &&& t == if k.code == KeyCode::Up {
            AppState { product_scroll: if s.product_scroll > 0 { (s.product_scroll - 1) as usize } else { 0 }, ..s }
        } else {
            AppState { product_scroll: if s.product_scroll < usize::MAX { (s.product_scroll + 1) as usize } else { usize::MAX }, ..s }
        }
    } else if k.code == KeyCode::Char('q') || k.code == KeyCode::Esc {
        out == KeyOutcome::Quit && t == s
    } else if k.code == KeyCode::Char(' ') {
        space_effect(s, t, out)
    } else if k.code == KeyCode::Up {
        out == KeyOutcome::Range && t == AppState {
            selected: if s.selected == 0 { (s.sliders@.len() - 1) as usize } else { (s.selected - 1) as usize },
            ..s
        }
    } else if k.code == KeyCode::Down {
        out == KeyOutcome::Range && t == AppState { selected: ((s.selected + 1) % (s.sliders@.len() as int)) as usize, ..s }
    } else if k.code == KeyCode::Left || k.code == KeyCode::Right {
        &&& adjusted_into(s, t, if k.code == KeyCode::Left { -1 } else { 1 })
        &&& out == if adjust_rebuilds(s) { KeyOutcome::RebuildAndRange } else { KeyOutcome::Range }
    } else {
        out == KeyOutcome::Range && t == s
    }
}

/// Whether stepping the selected slider changes anything that the sliders
/// show (everything but a month share outside a month period, or no
/// selection).
pub open spec fn adjust_rebuilds(s: AppState) -> bool {
    &&& s.selected < s.sliders@.len()
    &&& !(s.sliders@[s.selected as int].kind is MonthPercent && s.period == Period::FullYear)
}

/// Space toggles the lock of the selected share slider: the yearly lock of
/// a yearly slider, the month lock of a month slider (unless the product is
/// yearly-locked). Other sliders are left alone.
pub open spec fn space_effect(s: AppState, t: AppState, out: KeyOutcome) -> bool {
    if s.selected < s.sliders@.len() {
        match s.sliders@[s.selected as int].kind {
            SliderKind::YearlyPercent(p) => {
                &&& out == KeyOutcome::RebuildAndRange
                &&& t == AppState { yearly_locked: t.yearly_locked, ..s }
                &&& t.yearly_locked@ == s.yearly_locked@.update(p as int, !s.yearly_locked@[p as int])
            },
            SliderKind::MonthPercent(p) => if !s.yearly_locked@[p as int] && s.period is Month {
                let m = s.period->0;
                &&& out == KeyOutcome::RebuildAndRange
                &&& t == AppState { month_locked: t.month_locked, ..s }
                &&& t.month_locked@.len() == s.month_locked@.len()
                &&& forall|q: int, k: int| 0 <= q < s.n() && 0 <= k < 12 ==> #[trigger] t.month_locked@[q][k]
                    == if q == p && k == m { !s.month_locked@[q][k] } else { s.month_locked@[q][k] }
            } else {
                out == KeyOutcome::Range && t == s
            },
            _ => out == KeyOutcome::Range && t == s,
        }
    } else {
        out == KeyOutcome::Range && t == s
    }
}

impl AppState {
    /// React to one key press: toggle and scroll the help overlay, ask for
    /// an export, switch region, sub-tab or period, scroll the product list,
    /// quit, toggle a share lock, move the slider selection, or step the
    /// selected slider. `page` is the help overlay's page height. The
    /// outcome tells the caller what to do next (see [`key_effect`]).
    pub fn handle_key(&mut self, key: Key, page: usize) -> (out: KeyOutcome)
        requires
            old(self).wf(),
            valid_period(old(self).period),
            sliders_valid(old(self).sliders@, old(self).n()),
            !old(self).show_help && key.code == KeyCode::Left ==> adjust_fits(*old(self), -1),
            !old(self).show_help && key.code == KeyCode::Right ==> adjust_fits(*old(self), 1),
            !old(self).show_help && is_up_down(key.code) && !(old(self).active_region == Region::Main
                && old(self).tab == Tab::Products) ==> old(self).sliders@.len() > 0 && old(self).selected < usize::MAX,
        ensures
            key_effect(*old(self), *final(self), key, page as int, out),
    {
        if key.ctrl && key.code == KeyCode::Char('h') {
            self.show_help = !self.show_help;
            self.help_scroll = 0;
            return KeyOutcome::Stay;
        }
        if self.show_help {
            match key.code {
                KeyCode::Esc | KeyCode::Char('q') => {
                    self.show_help = false;
                    self.help_scroll = 0;
                },
                KeyCode::Up => {
                    if self.help_scroll > 0 {
                        self.help_scroll = self.help_scroll - 1;
                    }
                },
                KeyCode::Down => {
                    if self.help_scroll < usize::MAX {
                        self.help_scroll = self.help_scroll + 1;
                    }
                },
                KeyCode::PageUp => {
                    self.help_scroll = if self.help_scroll > page { self.help_scroll - page } else { 0 };
                },
                KeyCode::PageDown => {
                    self.help_scroll = if self.help_scroll <= usize::MAX - page {
                        self.help_scroll + page
                    } else {
                        usize::MAX
                    };
                },
                KeyCode::Home => self.help_scroll = 0,
                KeyCode::End => self.help_scroll = usize::MAX,
                _ => {},
            }
            return KeyOutcome::Stay;
        }
        if key.ctrl && key.code == KeyCode::Char('e') {
            return KeyOutcome::Export;
        }
        if key.code == KeyCode::Tab && !key.shift {
            self.active_region = match self.active_region {
                Region::Main => Region::Sidebar,
                Region::Sidebar => Region::Main,
            };
            return KeyOutcome::Stay;
        }
        if key.code == KeyCode::BackTab {
            self.tab = match self.tab {
                Tab::Products => Tab::Graph,
                Tab::Graph => Tab::Products,
            };
            self.selected = 0;
            self.scroll = 0;
            return KeyOutcome::Rebuild;
        }
        if key.code == KeyCode::Char('[') {
            self.period = self.period.prev();
            self.selected = 0;
            self.scroll = 0;
            return KeyOutcome::RebuildAndRange;
        }
        if key.code == KeyCode::Char(']') {
            self.period = self.period.next();
            self.selected = 0;
            self.scroll = 0;
            return KeyOutcome::RebuildAndRange;
        }
        if self.active_region == Region::Main && self.tab == Tab::Products {
            match key.code {
                KeyCode::Up => {
                    if self.product_scroll > 0 {
                        self.product_scroll = self.product_scroll - 1;
                    }
                    return KeyOutcome::Stay;
                },
                KeyCode::Down => {
                    if self.product_scroll < usize::MAX {
                        self.product_scroll = self.product_scroll + 1;
                    }
                    return KeyOutcome::Stay;
                },
                _ => {},
            }
        }
        match key.code {
            KeyCode::Char('q') | KeyCode::Esc => KeyOutcome::Quit,
            KeyCode::Char(' ') => self.toggle_lock(),
            KeyCode::Up => {
                if self.selected == 0 {
                    self.selected = self.sliders.len() - 1;
                } else {
                    self.selected = self.selected - 1;
                }
                KeyOutcome::Range
            },
            KeyCode::Down => {
                self.selected = (self.selected + 1) % self.sliders.len();
                KeyOutcome::Range
            },
            KeyCode::Left => {
                let r = self.rebuild_after_adjust();
                self.adjust_slider(-1);
                r
            },
            KeyCode::Right => {
                let r = self.rebuild_after_adjust();
                self.adjust_slider(1);
                r
            },
            _ => KeyOutcome::Range,
        }
    }

    /// The outcome of stepping the selected slider ([`adjust_rebuilds`]).
    fn rebuild_after_adjust(&self) -> (out: KeyOutcome)
        ensures
            out == if adjust_rebuilds(*self) { KeyOutcome::RebuildAndRange } else { KeyOutcome::Range },
    {
        if self.selected < self.sliders.len() {
            match self.sliders[self.selected].kind {
                SliderKind::MonthPercent(_) => match self.period {
                    Period::FullYear => KeyOutcome::Range,
                    Period::Month(_) => KeyOutcome::RebuildAndRange,
                },
                _ => KeyOutcome::RebuildAndRange,
            }
        } else {
            KeyOutcome::Range
        }
    }

    /// Space: toggle the lock of the selected share slider ([`space_effect`]).
    fn toggle_lock(&mut self) -> (out: KeyOutcome)
        requires
            old(self).wf(),
            valid_period(old(self).period),
            sliders_valid(old(self).sliders@, old(self).n()),
        ensures
            space_effect(*old(self), *final(self), out),
    {
        if self.selected >= self.sliders.len() {
            return KeyOutcome::Range;
        }
        match self.sliders[self.selected].kind {
            SliderKind::YearlyPercent(p) => {
                let b = self.yearly_locked[p];
                self.yearly_locked.set(p, !b);
                KeyOutcome::RebuildAndRange
            },
            SliderKind::MonthPercent(p) => {
                if !self.yearly_locked[p] {
                    if let Period::Month(m) = self.period {
                        let mut row = self.month_locked[p];
                        row[m] = !row[m];
                        self.month_locked.set(p, row);
                        return KeyOutcome::RebuildAndRange;
                    }
                }
                KeyOutcome::Range
            },
            _ => KeyOutcome::Range,
        }
    }
}

/// The value of the first slider of `kind` from position `k` on, or 0.
pub open spec fn first_value(sls: Seq<Slider>, kind: SliderKind, k: int) -> i64
    decreases sls.len() - k,
{
    if k < 0 || k >= sls.len() {
        0
    } else if sls[k].kind == kind {
        sls[k].value
    } else {
        first_value(sls, kind, k + 1)
    }
}

impl AppState {
    /// The value of the first slider of `kind` (0 when there is none).
    pub fn slider_value(&self, kind: SliderKind) -> (v: i64)
        ensures
            v == first_value(self.sliders@, kind, 0),
    {
        let mut i: usize = 0;
        while i < self.sliders.len()
            invariant
                i <= self.sliders@.len(),
                first_value(self.sliders@, kind, 0) == first_value(self.sliders@, kind, i as int),
            decreases self.sliders@.len() - i,
        {
            if self.sliders[i].kind == kind {
                return self.sliders[i].value;
            }
            i = i + 1;
        }
        0
    }
}

// ---------------------------------------------------------------------------
// Keeping the selected share slider in view
// ---------------------------------------------------------------------------

/// The top visible share entry once the selected entry `rel` (counted from
/// the first share slider) is in view of `visible` entries out of `n`: the
/// view moves up to `rel` or down until `rel` is its last entry, and never
/// leaves space below the last share.
pub open spec fn followed_scroll(scroll: int, rel: int, visible: int, n: int) -> int {
    let s1 = if rel < scroll {
        rel
    } else if rel >= scroll + visible {
        rel + 1 - visible
    } else {
        scroll
    };
    if s1 + visible > n {
        if n - visible > 0 { n - visible } else { 0 }
    } else {
        s1
    }
}

impl AppState {
    /// Moves the sidebar's share list so that the selected slider shows,
    /// when the selection is one of the share sliders
    /// (`products_start..settings_start`, `n_products` of them) and
    /// `visible_entries` fit; nothing else changes.
    pub fn scroll_to_selection(
        &mut self,
        products_start: usize,
        settings_start: usize,
        n_products: usize,
        visible_entries: usize,
    )
        requires
            visible_entries >= 1,
        ensures
            *final(self) == (AppState {
                scroll: if products_start <= old(self).selected < settings_start {
                    followed_scroll(
                        old(self).scroll as int,
                        old(self).selected - products_start,
                        visible_entries as int,
                        n_products as int,
                    ) as usize
                } else {
                    old(self).scroll
                },
                ..*old(self)
            }),
    {
        if self.selected >= products_start && self.selected < settings_start {
            let rel = self.selected - products_start;
            let mut sc = self.scroll;
            if rel < sc {
                sc = rel;
            } else if rel - sc >= visible_entries {
                sc = rel - visible_entries + 1;
            }
            if n_products < visible_entries || sc > n_products - visible_entries {
                sc = if n_products > visible_entries { n_products - visible_entries } else { 0 };
            }
            self.scroll = sc;
        }
    }
}

// ---------------------------------------------------------------------------
// What the sidebar shows
// ---------------------------------------------------------------------------

/// Law: the sidebar shows the period's own settings. In a month, after the
/// product shares of that month, come the month's workday hours, its
/// parallel products and its net-profit goal, the hours and the goal being
/// the month's overrides raised to the Full-Year minimums, and the parallel
/// products the override raised to the minimum (at least 1) and capped by
/// the month's reachable maximum. In the Full Year the settings sliders hold
/// the minimums and the yearly target themselves.
pub proof fn lemma_sidebar_shows_period_settings(sls: Seq<Slider>, s: AppState, cap: int)
    requires
        shows_sidebar(sls, s, cap),
    ensures
        s.period matches Period::Month(m) ==> ({
            let o = s.month_overrides;
            let g = s.settings;
            let lo = if g.min_parallel >= 1 { g.min_parallel as int } else { 1 };
            let hi = if cap >= lo { cap } else { lo };
            let par = if o.parallel[m as int] >= lo { o.parallel[m as int] as int } else { lo };
            &&& sls.len() == s.n() + 3
            &&& sls[s.n()].kind == SliderKind::MonthWorkdayHours(m)
            &&& sls[s.n()].value == if o.workday[m as int] >= g.min_workday_hours {
                o.workday[m as int]
            } else {
                g.min_workday_hours
            }
            &&& sls[s.n() + 1].kind == SliderKind::MonthParallel(m)
            &&& sls[s.n() + 1].value == if par <= hi { par } else { hi }
            &&& sls[s.n() + 2].kind == SliderKind::MonthNetProfit(m)
            &&& sls[s.n() + 2].value == if o.net_profit[m as int] >= g.min_monthly_net_profit {
                o.net_profit[m as int]
            } else {
                g.min_monthly_net_profit
            }
            &&& forall|i: int| 0 <= i < s.n() ==> #[trigger] sls[i].value == s.monthly_pct@[i][m as int]
        }),
        s.period == Period::FullYear ==> ({
            let g = s.settings;
            &&& sls.len() == s.n() + 4
            &&& sls[s.n()].value == g.min_workday_hours
            &&& sls[s.n() + 1].value == g.min_parallel
            &&& sls[s.n() + 2].value == g.min_monthly_net_profit
            &&& sls[s.n() + 3].value == g.target_yearly_net_profit
        }),
{
    let k = settings_kinds(s.period);
    assert(shows(sls[s.n() + 0], k[0], settings_view(k[0], s, cap)));
    assert(shows(sls[s.n() + 1], k[1], settings_view(k[1], s, cap)));
    assert(shows(sls[s.n() + 2], k[2], settings_view(k[2], s, cap)));
    if s.period == Period::FullYear {
        assert(shows(sls[s.n() + 3], k[3], settings_view(k[3], s, cap)));
    }
    assert forall|i: int| 0 <= i < s.n() implies (s.period matches Period::Month(m) ==> #[trigger] sls[i].value
        == s.monthly_pct@[i][m as int]) by {
        assert(shows_share(sls[i], s, i));
    }
}

/// Law: stepping the selected share slider moves the product's share one
/// step from where it was. In a month, an unlocked product's share becomes
/// its old share plus `dir` steps, kept within 0 and what the products
/// locked in that month leave of [`PCT_TOTAL`]; a locked product keeps its
/// share. In the Full Year, every month where the product is unlocked gets
/// the slider's value (its yearly mean) plus `dir` steps, kept the same way,
/// and the other months keep their shares.
pub proof fn lemma_share_step(s: AppState, t: AppState, dir: int)
    requires
        s.wf(),
        s.selected < s.sliders@.len(),
        adjusted_into(s, t, dir),
    ensures
        s.sliders@[s.selected as int].kind matches SliderKind::MonthPercent(p) ==> (s.period matches Period::Month(
            m,
        ) ==> p < s.n() && m < 12 ==> ({
            let locked = s.month_locked@[p as int][m as int] || s.yearly_locked@[p as int];
            let room = PCT_TOTAL - s.frozen_below(m as int, p as int, s.n());
            let want = s.monthly_pct@[p as int][m as int] + dir * s.sliders@[s.selected as int].step;
            t.monthly_pct@[p as int][m as int] == if locked {
                s.monthly_pct@[p as int][m as int] as int
            } else if want < 0 {
                0
            } else if want > room && room > 0 {
                room
            } else if want > 0 && room <= 0 {
                0
            } else {
                want
            }
        })),
        s.sliders@[s.selected as int].kind matches SliderKind::YearlyPercent(p) ==> p < s.n() ==> (forall|m: int|
            0 <= m < 12 ==> ({
                let locked = s.month_locked@[p as int][m] || s.yearly_locked@[p as int];
                let room = PCT_TOTAL - s.frozen_below(m, p as int, s.n());
                let want = s.sliders@[s.selected as int].value + dir * s.sliders@[s.selected as int].step;
                #[trigger] t.monthly_pct@[p as int][m] == if locked {
                    s.monthly_pct@[p as int][m] as int
                } else if want < 0 {
                    0
                } else if want > room && room > 0 {
                    room
                } else if want > 0 && room <= 0 {
                    0
                } else {
                    want
                }
            })),
{
    let sl = s.sliders@[s.selected as int];
    match sl.kind {
        SliderKind::MonthPercent(p) => {
            match s.period {
                Period::Month(m) => {
                    if p < s.n() && m < 12 {
                        assert(t.pct(p as int, m as int) == t.monthly_pct@[p as int][m as int]);
                        if !s.editable(p as int, m as int) {
                            assert(t.monthly_pct@ == s.monthly_pct@);
                        }
                    }
                },
                Period::FullYear => {},
            }
        },
        SliderKind::YearlyPercent(p) => {
            if p < s.n() {
                assert forall|m: int| 0 <= m < 12 implies #[trigger] t.monthly_pct@[p as int][m] == t.pct(p as int, m) by {}
                if s.yearly_locked@[p as int] {
                    assert(t.monthly_pct@ == s.monthly_pct@);
                }
            }
        },
        _ => {},
    }
}

// ---------------------------------------------------------------------------
// Keys that undo themselves
// ---------------------------------------------------------------------------

/// Law: outside the help, Tab moves to the other region, and pressing it
/// twice gives back the state it started from.
pub proof fn lemma_tab_twice(s: AppState, t: AppState, u: AppState, k: Key, page: int, o1: KeyOutcome, o2: KeyOutcome)
    requires
        !s.show_help,
        k.code == KeyCode::Tab,
        !k.shift,
        key_effect(s, t, k, page, o1),
        key_effect(t, u, k, page, o2),
    ensures
        t.active_region != s.active_region,
        o1 == KeyOutcome::Stay,
        u == s,
{
}

/// Law: Ctrl+H opens the help when it is closed and closes it when it is
/// open; pressing it twice gives back the state with the help scrolled to
/// the top.
pub proof fn lemma_help_twice(s: AppState, t: AppState, u: AppState, k: Key, page: int, o1: KeyOutcome, o2: KeyOutcome)
    requires
        k.ctrl,
        k.code == KeyCode::Char('h'),
        key_effect(s, t, k, page, o1),
        key_effect(t, u, k, page, o2),
    ensures
        t.show_help == !s.show_help,
        u == (AppState { help_scroll: 0, ..s }),
{
}

/// Law: outside the help, `[` goes to the previous period and `]` to the
/// next; `[` then `]` comes back to the period it started from, with the
/// first slider selected.
pub proof fn lemma_prev_then_next(s: AppState, t: AppState, u: AppState, page: int, o1: KeyOutcome, o2: KeyOutcome)
    requires
        !s.show_help,
        valid_period(s.period),
        key_effect(s, t, Key { code: KeyCode::Char('['), ctrl: false, shift: false }, page, o1),
        key_effect(t, u, Key { code: KeyCode::Char(']'), ctrl: false, shift: false }, page, o2),
    ensures
        t.period != s.period,
        u == (AppState { selected: 0, scroll: 0, ..s }),
{
    crate::plan::lemma_period_next_prev(s.period);
}

/// Law: with the sliders in focus, Down moves the selection to the next
/// slider (after the last comes the first), Up to the one before (before the
/// first comes the last), and Up then Down comes back to the same slider.
pub proof fn lemma_up_then_down(s: AppState, t: AppState, u: AppState, page: int, o1: KeyOutcome, o2: KeyOutcome)
    requires
        !s.show_help,
        !(s.active_region == Region::Main && s.tab == Tab::Products),
        0 <= s.selected < s.sliders@.len(),
        key_effect(s, t, Key { code: KeyCode::Up, ctrl: false, shift: false }, page, o1),
        key_effect(t, u, Key { code: KeyCode::Down, ctrl: false, shift: false }, page, o2),
    ensures
        t.selected < s.sliders@.len(),
        t.selected == (s.selected + s.sliders@.len() - 1) % (s.sliders@.len() as int),
        u == s,
{
    let n = s.sliders@.len() as int;
    assert(n == s.sliders.len());
    let up = Key { code: KeyCode::Up, ctrl: false, shift: false };
    let down = Key { code: KeyCode::Down, ctrl: false, shift: false };
    assert(is_up_down(up.code));
    assert(t == (AppState {
        selected: if s.selected == 0 { (n - 1) as usize } else { (s.selected - 1) as usize },
        ..s
    }));
    assert(!t.show_help && !(t.active_region == Region::Main && t.tab == Tab::Products));
    assert(is_up_down(down.code));
    assert(u == (AppState { selected: ((t.selected + 1) % n) as usize, ..t }));
    if s.selected == 0 {
        assert((n - 1) % n == n - 1) by (nonlinear_arith)
            requires
                n >= 1;
        assert(((n - 1) + 1) % n == 0) by (nonlinear_arith)
            requires
                n >= 1;
    } else {
        let a = s.selected as int;
        assert((a + n - 1) % n == a - 1) by (nonlinear_arith)
            requires
                1 <= a < n;
        assert(((a - 1) + 1) % n == a) by (nonlinear_arith)
            requires
                1 <= a < n;
    }
}

/// Law: in a month, Space on an unlocked product's share slider toggles that
/// product's lock for the month only, and pressing it twice gives back the
/// locks it started from.
pub proof fn lemma_space_twice(s: AppState, t: AppState, u: AppState, page: int, o1: KeyOutcome, o2: KeyOutcome)
    requires
        s.wf(),
        !s.show_help,
        !(s.active_region == Region::Main && s.tab == Tab::Products),
        s.selected < s.sliders@.len(),
        s.sliders@[s.selected as int].kind matches SliderKind::MonthPercent(p) && p < s.n()
            && !s.yearly_locked@[p as int],
        s.period is Month,
        valid_period(s.period),
        key_effect(s, t, Key { code: KeyCode::Char(' '), ctrl: false, shift: false }, page, o1),
        key_effect(t, u, Key { code: KeyCode::Char(' '), ctrl: false, shift: false }, page, o2),
    ensures
        ({
            let p = s.sliders@[s.selected as int].kind->MonthPercent_0;
            let m = s.period->Month_0;
            &&& t.month_locked@[p as int][m as int] == !s.month_locked@[p as int][m as int]
            &&& forall|q: int, k: int|
                0 <= q < s.n() && 0 <= k < 12 && !(q == p && k == m) ==> #[trigger] t.month_locked@[q][k]
                    == s.month_locked@[q][k]
            &&& u.month_locked@.len() == s.month_locked@.len()
            &&& forall|q: int, k: int| 0 <= q < s.n() && 0 <= k < 12 ==> #[trigger] u.month_locked@[q][k] == s.month_locked@[q][k]
            &&& u == (AppState { month_locked: u.month_locked, ..s })
        }),
{
    let sp = Key { code: KeyCode::Char(' '), ctrl: false, shift: false };
    let p = s.sliders@[s.selected as int].kind->MonthPercent_0;
    let m = s.period->Month_0;
    assert(!is_up_down(sp.code));
    assert(space_effect(s, t, o1));
    assert(t == (AppState { month_locked: t.month_locked, ..s }));
    assert(t.sliders@[t.selected as int].kind == SliderKind::MonthPercent(p));
    assert(!t.yearly_locked@[p as int]);
    assert(space_effect(t, u, o2));
    assert(u == (AppState { month_locked: u.month_locked, ..t }));
    assert forall|q: int, k: int| 0 <= q < s.n() && 0 <= k < 12 implies #[trigger] u.month_locked@[q][k] == s.month_locked@[q][k] by {
        assert(u.month_locked@[q][k] == if q == p && k == m { !t.month_locked@[q][k] } else { t.month_locked@[q][k] });
    }
}

} // verus!
