//! The simulation plan edited in the sidebar: every product's share of each
//! month's goal (in tenths of a percent), the share locks, the Full-Year
//! minimums and the per-month overrides.
//!
//! Every month column of shares sums to [`PCT_TOTAL`]; editing one product's
//! share sets it (within the room the locked products leave) and splits the
//! rest equally across the other unlocked products.
use vstd::prelude::*;
use crate::lang::Lang;
use crate::slider::Slider;

verus! {

broadcast use vstd::array::group_array_axioms;

/// A full month column of shares: 100.0 %, stored in tenths of a percent.
pub const PCT_TOTAL: i64 = 1000;

/// Default minimum workday hours (the Full-Year settings the program opens
/// with).
pub const DEFAULT_MIN_WORKDAY_HOURS: i64 = 8;
/// Default minimum of parallel products.
pub const DEFAULT_MIN_PARALLEL: i64 = 1;
/// Default minimum monthly net profit.
pub const DEFAULT_MIN_MONTHLY_NET_PROFIT: i64 = 500;
/// Default target yearly net profit.
pub const DEFAULT_TARGET_YEARLY_NET_PROFIT: i64 = 500;

// ---------------------------------------------------------------------------
// Period, tabs, regions
// ---------------------------------------------------------------------------

/// The selected top-level period: the Full Year or one month `0..=11`.
#[derive(Debug, Clone, Copy, PartialEq, Eq, Structural)]
pub enum Period {
    FullYear,
    Month(usize),
}

impl Period {
    /// The month index if this is a `Month`, else `None`.
    pub fn month(self) -> (r: Option<usize>)
        ensures
            r == (match self {
                Period::FullYear => None,
                Period::Month(m) => Some(m),
            }),
    {
        match self {
            Period::FullYear => None,
            Period::Month(m) => Some(m),
        }
    }

    /// The period before this one, in the order Full Year, Jan, ..., Dec
    /// (wrapping around).
    pub fn prev(self) -> (r: Period)
        ensures
            r == (match self {
                Period::FullYear => Period::Month(11),
                Period::Month(m) => if m == 0 { Period::FullYear } else { Period::Month((m - 1) as usize) },
            }),
    {
        match self {
            Period::FullYear => Period::Month(11),
            Period::Month(0) => Period::FullYear,
            Period::Month(m) => Period::Month(m - 1),
        }
    }

    /// The period after this one, in the order Full Year, Jan, ..., Dec
    /// (wrapping around).
    pub fn next(self) -> (r: Period)
        requires
            self matches Period::Month(m) ==> m < usize::MAX,
        ensures
            r == (match self {
                Period::FullYear => Period::Month(0),
                Period::Month(m) => if m == 11 { Period::FullYear } else { Period::Month((m + 1) as usize) },
            }),
    {
        match self {
            Period::FullYear => Period::Month(0),
            Period::Month(11) => Period::FullYear,
            Period::Month(m) => Period::Month(m + 1),
        }
    }
}

/// A period that the `[` / `]` keys can reach: the Full Year or a month.
pub open spec fn valid_period(p: Period) -> bool {
    p matches Period::Month(m) ==> m < 12
}

/// `prev` undoes `next` and `next` undoes `prev` on every reachable period.
pub proof fn lemma_period_next_prev(p: Period)
    requires
        valid_period(p),
    ensures
        next_of(prev_of(p)) == p,
        prev_of(next_of(p)) == p,
        valid_period(next_of(p)),
        valid_period(prev_of(p)),
{
}

/// The value `Period::prev` returns.
pub open spec fn prev_of(p: Period) -> Period {
    match p {
        Period::FullYear => Period::Month(11),
        Period::Month(m) => if m == 0 { Period::FullYear } else { Period::Month((m - 1) as usize) },
    }
}

/// The value `Period::next` returns.
pub open spec fn next_of(p: Period) -> Period {
    match p {
        Period::FullYear => Period::Month(0),
        Period::Month(m) => if m == 11 { Period::FullYear } else { Period::Month((m + 1) as usize) },
    }
}

/// Which main-area sub-tab is shown.
#[derive(Debug, Clone, Copy, PartialEq, Eq, Structural)]
pub enum Tab {
    Products,
    Graph,
}

/// Which region receives Up/Down: the main area or the sidebar.
#[derive(Debug, Clone, Copy, PartialEq, Eq, Structural)]
pub enum Region {
    Main,
    Sidebar,
}

// ---------------------------------------------------------------------------
// Settings
// ---------------------------------------------------------------------------

/// Full-Year minimums and the yearly reference target.
#[derive(Debug, Clone, Copy, PartialEq, Eq, Structural)]
pub struct GlobalSettings {
    pub min_workday_hours: i64,
    pub min_parallel: i64,
    pub min_monthly_net_profit: i64,
    pub target_yearly_net_profit: i64,
}

impl GlobalSettings {
    /// The settings the program opens with.
    pub fn defaults() -> (g: GlobalSettings)
        ensures
            g.min_workday_hours == DEFAULT_MIN_WORKDAY_HOURS,
            g.min_parallel == DEFAULT_MIN_PARALLEL,
            g.min_monthly_net_profit == DEFAULT_MIN_MONTHLY_NET_PROFIT,
            g.target_yearly_net_profit == DEFAULT_TARGET_YEARLY_NET_PROFIT,
    {
        GlobalSettings {
            min_workday_hours: DEFAULT_MIN_WORKDAY_HOURS,
            min_parallel: DEFAULT_MIN_PARALLEL,
            min_monthly_net_profit: DEFAULT_MIN_MONTHLY_NET_PROFIT,
            target_yearly_net_profit: DEFAULT_TARGET_YEARLY_NET_PROFIT,
        }
    }
}

/// Per-month overrides: workday hours, parallel products, net-profit goal
/// and fixed costs of each month.
#[derive(Debug, Clone, Copy)]
pub struct MonthOverrides {
    pub workday: [i64; 12],
    pub parallel: [i64; 12],
    pub net_profit: [i64; 12],
    pub fix_costs: [i64; 12],
}

impl Default for MonthOverrides {
    /// Every month starts at the default minimums, with no fixed costs.
    fn default() -> (o: MonthOverrides)
        ensures
            forall|m: int| 0 <= m < 12 ==> o.workday[m] == DEFAULT_MIN_WORKDAY_HOURS,
            forall|m: int| 0 <= m < 12 ==> o.parallel[m] == DEFAULT_MIN_PARALLEL,
            forall|m: int| 0 <= m < 12 ==> o.net_profit[m] == DEFAULT_MIN_MONTHLY_NET_PROFIT,
            forall|m: int| 0 <= m < 12 ==> o.fix_costs[m] == 0,
    {
        MonthOverrides {
            workday: [DEFAULT_MIN_WORKDAY_HOURS; 12],
            parallel: [DEFAULT_MIN_PARALLEL; 12],
            net_profit: [DEFAULT_MIN_MONTHLY_NET_PROFIT; 12],
            fix_costs: [0; 12],
        }
    }
}

// ---------------------------------------------------------------------------
// Application state
// ---------------------------------------------------------------------------

/// Everything the sidebar edits and the screen shows, except the products'
/// computed figures (which the application keeps beside it, in the same
/// order as `names`).
pub struct AppState {
    /// Product names, one per product.
    pub names: Vec<String>,
    /// Per-product, per-month share in tenths of a percent:
    /// `monthly_pct[product][month]`.
    pub monthly_pct: Vec<[i64; 12]>,
    /// Per-product, per-month lock.
    pub month_locked: Vec<[bool; 12]>,
    /// Per-product lock over all twelve months.
    pub yearly_locked: Vec<bool>,
    pub period: Period,
    /// The sliders shown for the current period.
    pub sliders: Vec<Slider>,
    pub selected: usize,
    pub scroll: usize,
    /// Transient message shown in the footer.
    pub status: Option<String>,
    pub tab: Tab,
    pub product_scroll: usize,
    pub lang: Lang,
    pub active_region: Region,
    pub show_help: bool,
    pub help_scroll: usize,
    pub settings: GlobalSettings,
    pub month_overrides: MonthOverrides,
}

impl AppState {
    /// Number of products.
    pub open spec fn n(self) -> int {
        self.names@.len() as int
    }

    /// The per-product tables have one row per product.
    pub open spec fn wf(self) -> bool {
        &&& self.monthly_pct@.len() == self.n()
        &&& self.month_locked@.len() == self.n()
        &&& self.yearly_locked@.len() == self.n()
    }

    /// Share of product `p` in month `m`.
    pub open spec fn pct(self, p: int, m: int) -> int {
        self.monthly_pct@[p][m] as int
    }

    /// Product `p` may be edited in month `m`: neither month- nor
    /// yearly-locked.
    pub open spec fn editable(self, p: int, m: int) -> bool {
        !self.month_locked@[p][m] && !self.yearly_locked@[p]
    }

    /// Sum of the shares of the products below `k` in month `m`.
    pub open spec fn column_sum(self, m: int, k: int) -> int
        decreases k,
    {
        if k <= 0 {
            0
        } else {
            self.column_sum(m, k - 1) + self.pct(k - 1, m)
        }
    }

    /// Everything but the share table is the same in `self` and `other`.
    pub open spec fn same_but_pct(self, other: AppState) -> bool {
        &&& self.names == other.names
        &&& self.month_locked == other.month_locked
        &&& self.yearly_locked == other.yearly_locked
        &&& self.period == other.period
        &&& self.sliders == other.sliders
        &&& self.selected == other.selected
        &&& self.scroll == other.scroll
        &&& self.status == other.status
        &&& self.tab == other.tab
        &&& self.product_scroll == other.product_scroll
        &&& self.lang == other.lang
        &&& self.active_region == other.active_region
        &&& self.show_help == other.show_help
        &&& self.help_scroll == other.help_scroll
        &&& self.settings == other.settings
        &&& self.month_overrides == other.month_overrides
    }

    /// Is product `idx` editable in month `m`? False when month-locked or
    /// yearly-locked.
    pub fn editable_in_month(&self, idx: usize, m: usize) -> (b: bool)
        requires
            self.wf(),
            idx < self.n(),
            m < 12,
        ensures
            b == self.editable(idx as int, m as int),
    {
        !self.month_locked[idx][m] && !self.yearly_locked[idx]
    }
}

impl AppState {
    /// `new` is `self` after product `c`'s share in month `m` is set to `nv`
    /// ([`Self::redistribute_month`]): only month `m` changes, and only when
    /// `c` is editable there, each product then holding
    /// [`Self::redistributed`].
    pub open spec fn redistributed_into(self, new: AppState, m: int, c: int, nv: int) -> bool {
        &&& new.wf()
        &&& new.same_but_pct(self)
        &&& forall|q: int, k: int|
            0 <= q < self.n() && 0 <= k < 12 && k != m ==> #[trigger] new.pct(q, k) == self.pct(q, k)
        &&& !self.editable(c, m) ==> new.monthly_pct@ == self.monthly_pct@
        &&& self.editable(c, m) ==> forall|q: int|
            0 <= q < self.n() ==> #[trigger] new.pct(q, m) == self.redistributed(m, c, nv, q)
    }

    /// `new` is `self` after product `c`'s yearly share is set to `tv`
    /// ([`Self::edit_yearly`]): nothing changes for a yearly-locked product;
    /// otherwise every month where `c` is editable is redistributed.
    pub open spec fn yearly_edited_into(self, new: AppState, c: int, tv: int) -> bool {
        &&& new.wf()
        &&& new.same_but_pct(self)
        &&& self.yearly_locked@[c] ==> new.monthly_pct@ == self.monthly_pct@
        &&& !self.yearly_locked@[c] ==> forall|q: int, m: int|
            0 <= q < self.n() && 0 <= m < 12 ==> #[trigger] new.pct(q, m) == if self.editable(c, m) {
                self.redistributed(m, c, tv, q)
            } else {
                self.pct(q, m)
            }
    }
}

// ---------------------------------------------------------------------------
// Redistribution within one month
// ---------------------------------------------------------------------------

impl AppState {
    /// Sum, over the products below `k` other than `c`, of the shares of the
    /// locked ones in month `m`: the part of the month the edit cannot move.
    pub open spec fn frozen_below(self, m: int, c: int, k: int) -> int
        decreases k,
    {
        if k <= 0 {
            0
        } else {
            self.frozen_below(m, c, k - 1) + if k - 1 != c && !self.editable(k - 1, m) {
                self.pct(k - 1, m)
            } else {
                0
            }
        }
    }

    /// Number of products below `k`, other than `c`, that are editable in
    /// month `m`: the receivers of what the edit frees or takes.
    pub open spec fn receivers_below(self, m: int, c: int, k: int) -> int
        decreases k,
    {
        if k <= 0 {
            0
        } else {
            self.receivers_below(m, c, k - 1) + if k - 1 != c && self.editable(k - 1, m) {
                1int
            } else {
                0
            }
        }
    }

    /// The share product `c` gets when set to `nv` in month `m`: `nv`
    /// clamped to `[0, room]`, where the room is what the locked products
    /// leave of [`PCT_TOTAL`] (never below zero).
    pub open spec fn set_value(self, m: int, c: int, nv: int) -> int {
        let room = PCT_TOTAL - self.frozen_below(m, c, self.n());
        let max_v = if room > 0 { room } else { 0 };
        if nv < 0 { 0 } else if nv > max_v { max_v } else { nv }
    }

    /// What is left for the receivers once `c` is set to `nv`.
    pub open spec fn remainder(self, m: int, c: int, nv: int) -> int {
        PCT_TOTAL - self.set_value(m, c, nv) - self.frozen_below(m, c, self.n())
    }

    /// The share of product `q` in month `m` after product `c` is set to `nv`:
    /// `c` gets [`Self::set_value`]; locked products keep theirs; the
    /// receivers split the remainder equally, the first `remainder % count`
    /// of them (in product order) getting one tenth more, or get zero when
    /// nothing remains.
    pub open spec fn redistributed(self, m: int, c: int, nv: int, q: int) -> int {
        let rem = self.remainder(m, c, nv);
        let nr = self.receivers_below(m, c, self.n());
        if q == c {
            self.set_value(m, c, nv)
        } else if !self.editable(q, m) {
            self.pct(q, m)
        } else if rem <= 0 {
            0
        } else {
            rem / nr + if self.receivers_below(m, c, q) < rem % nr { 1int } else { 0 }
        }
    }

    /// Sum of [`Self::redistributed`] over the products below `k`.
    pub open spec fn redistributed_sum(self, m: int, c: int, nv: int, k: int) -> int
        decreases k,
    {
        if k <= 0 {
            0
        } else {
            self.redistributed_sum(m, c, nv, k - 1) + self.redistributed(m, c, nv, k - 1)
        }
    }

    /// The receiver count grows with the bound.
    pub proof fn lemma_receivers_mono(self, m: int, c: int, a: int, b: int)
        requires
            a <= b,
        ensures
            self.receivers_below(m, c, a) <= self.receivers_below(m, c, b),
            0 <= self.receivers_below(m, c, a),
        decreases b - a,
    {
        if a < b {
            self.lemma_receivers_mono(m, c, a, b - 1);
        } else {
            self.lemma_receivers_nonneg(m, c, a);
        }
    }

    /// The receiver count is never negative.
    pub proof fn lemma_receivers_nonneg(self, m: int, c: int, a: int)
        ensures
            0 <= self.receivers_below(m, c, a),
        decreases a,
    {
        if a > 0 {
            self.lemma_receivers_nonneg(m, c, a - 1);
        }
    }

    /// Write one share.
    fn set_pct(&mut self, p: usize, m: usize, x: i64)
        requires
            old(self).wf(),
            p < old(self).n(),
            m < 12,
        ensures
            final(self).wf(),
            final(self).same_but_pct(*old(self)),
            final(self).pct(p as int, m as int) == x,
            forall|q: int, k: int|
                0 <= q < old(self).n() && 0 <= k < 12 && !(q == p && k == m) ==> #[trigger] final(self).pct(q, k)
                    == old(self).pct(q, k),
            forall|q: int| 0 <= q < old(self).n() && q != p ==> #[trigger] final(self).monthly_pct@[q] == old(self).monthly_pct@[q],
    {
        let mut row = self.monthly_pct[p];
        row[m] = x;
        self.monthly_pct.set(p, row);
    }

    /// Set product `changed_prod`'s share in `month` to `new_value`, clamped
    /// to the room the locked products leave, and split what remains
    /// equally across every other product that is not locked in that month
    /// (products at zero included). A product locked in that month cannot be
    /// edited: then nothing changes.
    pub fn redistribute_month(&mut self, month: usize, changed_prod: usize, new_value: i64)
        requires
            old(self).wf(),
            month < 12,
            changed_prod < old(self).n(),
            old(self).frozen_below(month as int, changed_prod as int, old(self).n()) >= PCT_TOTAL - i64::MAX,
        ensures
            old(self).redistributed_into(*final(self), month as int, changed_prod as int, new_value as int),
    {
        if !self.editable_in_month(changed_prod, month) {
            return;
        }
        let ghost s0 = *self;
        let ghost mi = month as int;
        let ghost ci = changed_prod as int;
        let n = self.monthly_pct.len();
        let mut frozen: i128 = 0;
        let mut nr: usize = 0;
        let mut q: usize = 0;
        while q < n
            invariant
                s0 == *self,
                self.wf(),
                n == self.n(),
                month < 12,
                changed_prod < n,
                mi == month as int,
                ci == changed_prod as int,
                q <= n,
                frozen == self.frozen_below(mi, ci, q as int),
                nr == self.receivers_below(mi, ci, q as int),
                nr <= q,
                -(q as int) * 0x8000_0000_0000_0000 <= frozen <= (q as int) * 0x8000_0000_0000_0000,
            decreases n - q,
        {
            let row = self.monthly_pct[q];
            let x = row[month];
            if q != changed_prod && !self.editable_in_month(q, month) {
                frozen = frozen + x as i128;
            } else if q != changed_prod {
                nr = nr + 1;
            }
            q = q + 1;
        }
        let room: i128 = 1000 - frozen;
        let max_v: i128 = if room > 0 { room } else { 0 };
        let v: i64 = if new_value < 0 {
            0
        } else if (new_value as i128) > max_v {
            max_v as i64
        } else {
            new_value
        };
        assert(v == s0.set_value(mi, ci, new_value as int));
        let rem: i128 = 1000 - v as i128 - frozen;
        let share: bool = rem > 0 && nr > 0;
        let base: i128 = if share { rem / (nr as i128) } else { 0 };
        let extra: i128 = if share { rem % (nr as i128) } else { 0 };
        proof {
            if share {
                assert(0 <= base <= rem) by (nonlinear_arith)
                    requires rem > 0, nr > 0, base == rem / (nr as i128);
                assert(0 <= extra < nr) by (nonlinear_arith)
                    requires rem > 0, nr > 0, extra == rem % (nr as i128);
                assert(extra > 0 ==> base + 1 <= rem) by (nonlinear_arith)
                    requires rem > 0, nr > 0, base == rem / (nr as i128), extra == rem % (nr as i128);
            }
        }
        let mut rank: usize = 0;
        let mut q: usize = 0;
        while q < n
            invariant
                self.wf(),
                self.same_but_pct(s0),
                s0.wf(),
                n == s0.n(),
                month < 12,
                changed_prod < n,
                mi == month as int,
                ci == changed_prod as int,
                q <= n,
                v == s0.set_value(mi, ci, new_value as int),
                rem == s0.remainder(mi, ci, new_value as int),
                nr == s0.receivers_below(mi, ci, n as int),
                share == (rem > 0 && nr > 0),
                share ==> base == rem / (nr as i128) && extra == rem % (nr as i128),
                share ==> 0 <= base <= rem && 0 <= extra < nr,
                share && extra > 0 ==> base + 1 <= rem,
                rem <= i64::MAX,
                rank == s0.receivers_below(mi, ci, q as int),
                rank <= q,
                forall|p: int, m: int| 0 <= p < n && 0 <= m < 12 && m != mi ==> #[trigger] self.pct(p, m) == s0.pct(p, m),
                forall|p: int| q <= p < n ==> #[trigger] self.monthly_pct@[p] == s0.monthly_pct@[p],
                forall|p: int| 0 <= p < q ==> #[trigger] self.pct(p, mi) == s0.redistributed(mi, ci, new_value as int, p),
            decreases n - q,
        {
            if q == changed_prod {
                self.set_pct(q, month, v);
            } else if self.editable_in_month(q, month) {
                proof {
                    s0.lemma_receivers_mono(mi, ci, q + 1, n as int);
                }
                let nv: i64 = if share {
                    (base + if (rank as i128) < extra { 1i128 } else { 0i128 }) as i64
                } else {
                    0
                };
                self.set_pct(q, month, nv);
                rank = rank + 1;
            }
            q = q + 1;
        }
    }
}

/// Smaller of two integers.
pub open spec fn min_int(a: int, b: int) -> int {
    if a < b { a } else { b }
}

impl AppState {
    /// The redistributed shares of the products below `k` add up to the set
    /// value (once `c` is passed), the frozen shares, and `base` per receiver
    /// plus one for each of the first `extra` receivers.
    proof fn lemma_redistributed_prefix(self, m: int, c: int, nv: int, k: int)
        requires
            0 <= k <= self.n(),
            0 <= c < self.n(),
        ensures
            ({
                let rem = self.remainder(m, c, nv);
                let nr = self.receivers_below(m, c, self.n());
                let rk = self.receivers_below(m, c, k);
                self.redistributed_sum(m, c, nv, k) == (if c < k { self.set_value(m, c, nv) } else { 0 })
                    + self.frozen_below(m, c, k) + if rem <= 0 || nr <= 0 {
                    0
                } else {
                    rk * (rem / nr) + min_int(rk, rem % nr)
                }
            }),
        decreases k,
    {
        if k > 0 {
            self.lemma_redistributed_prefix(m, c, nv, k - 1);
            let rem = self.remainder(m, c, nv);
            let nr = self.receivers_below(m, c, self.n());
            let rk1 = self.receivers_below(m, c, k - 1);
            let base = rem / nr;
            self.lemma_receivers_mono(m, c, k, self.n());
            self.lemma_receivers_nonneg(m, c, k - 1);
            assert((rk1 + 1) * base == rk1 * base + base) by (nonlinear_arith);
            if k - 1 != c && self.editable(k - 1, m) {
                assert(self.receivers_below(m, c, k) == rk1 + 1);
                assert(nr >= 1);
                assert(self.frozen_below(m, c, k) == self.frozen_below(m, c, k - 1));
                if rem > 0 {
                    assert(self.redistributed(m, c, nv, k - 1) == base + if rk1 < rem % nr { 1int } else { 0 });
                } else {
                    assert(self.redistributed(m, c, nv, k - 1) == 0);
                }
            } else {
                assert(self.receivers_below(m, c, k) == rk1);
                if k - 1 == c {
                    assert(self.frozen_below(m, c, k) == self.frozen_below(m, c, k - 1));
                    assert(self.redistributed(m, c, nv, k - 1) == self.set_value(m, c, nv));
                } else {
                    assert(self.frozen_below(m, c, k) == self.frozen_below(m, c, k - 1) + self.pct(k - 1, m));
                    assert(self.redistributed(m, c, nv, k - 1) == self.pct(k - 1, m));
                }
            }
            assert(self.redistributed_sum(m, c, nv, k) == self.redistributed_sum(m, c, nv, k - 1) + self.redistributed(m, c, nv, k - 1));
        }
    }

    /// Law: after an edit the month's shares add up to [`PCT_TOTAL`], as long
    /// as the locked products hold no more than [`PCT_TOTAL`] between them
    /// and, when something remains to hand out, some product can take it.
    pub proof fn lemma_redistribute_keeps_total(self, m: int, c: int, nv: int)
        requires
            self.wf(),
            0 <= m < 12,
            0 <= c < self.n(),
            self.frozen_below(m, c, self.n()) <= PCT_TOTAL,
            self.remainder(m, c, nv) > 0 ==> self.receivers_below(m, c, self.n()) > 0,
        ensures
            self.redistributed_sum(m, c, nv, self.n()) == PCT_TOTAL,
    {
        self.lemma_redistributed_prefix(m, c, nv, self.n());
        let rem = self.remainder(m, c, nv);
        let nr = self.receivers_below(m, c, self.n());
        if rem > 0 {
            assert(nr * (rem / nr) + rem % nr == rem) by (nonlinear_arith)
                requires nr > 0;
            assert(rem % nr < nr) by (nonlinear_arith)
                requires nr > 0;
        }
    }
}

impl AppState {
    /// Two states with the same products and locks and the same shares in
    /// month `m` hold the same frozen sum and receiver count for month `m`.
    proof fn lemma_column_agree(self, other: AppState, m: int, c: int, k: int)
        requires
            self.wf(),
            other.wf(),
            self.n() == other.n(),
            self.month_locked == other.month_locked,
            self.yearly_locked == other.yearly_locked,
            0 <= k <= self.n(),
            forall|q: int| 0 <= q < self.n() ==> #[trigger] self.pct(q, m) == other.pct(q, m),
        ensures
            self.frozen_below(m, c, k) == other.frozen_below(m, c, k),
            self.receivers_below(m, c, k) == other.receivers_below(m, c, k),
        decreases k,
    {
        if k > 0 {
            self.lemma_column_agree(other, m, c, k - 1);
            assert(self.pct(k - 1, m) == other.pct(k - 1, m));
        }
    }

    /// Edit a product's yearly share: set it to `target_value` in every month
    /// where the product is editable, redistributing within each month.
    /// Month-locked months keep their value; a yearly-locked product is left
    /// alone.
    pub fn edit_yearly(&mut self, changed_prod: usize, target_value: i64)
        requires
            old(self).wf(),
            changed_prod < old(self).n(),
            forall|m: int| 0 <= m < 12 ==> #[trigger] old(self).frozen_below(m, changed_prod as int, old(self).n())
                >= PCT_TOTAL - i64::MAX,
        ensures
            old(self).yearly_edited_into(*final(self), changed_prod as int, target_value as int),
    {
        if self.yearly_locked[changed_prod] {
            return;
        }
        let ghost s0 = *self;
        let mut m: usize = 0;
        while m < 12
            invariant
                s0.wf(),
                self.wf(),
                self.same_but_pct(s0),
                changed_prod < s0.n(),
                !s0.yearly_locked@[changed_prod as int],
                m <= 12,
                forall|k: int| 0 <= k < 12 ==> #[trigger] s0.frozen_below(k, changed_prod as int, s0.n())
                    >= PCT_TOTAL - i64::MAX,
                forall|q: int, k: int| 0 <= q < s0.n() && m <= k < 12 ==> #[trigger] self.pct(q, k) == s0.pct(q, k),
                forall|q: int, k: int| 0 <= q < s0.n() && 0 <= k < m ==> #[trigger] self.pct(q, k) == if s0.editable(changed_prod as int, k) {
                    s0.redistributed(k, changed_prod as int, target_value as int, q)
                } else {
                    s0.pct(q, k)
                },
            decreases 12 - m,
        {
            let ghost before = *self;
            proof {
                s0.lemma_column_agree(*self, m as int, changed_prod as int, s0.n());
            }
            self.redistribute_month(m, changed_prod, target_value);
            proof {
                assert forall|q: int| 0 <= q < s0.n() implies #[trigger] self.pct(q, m as int) == if s0.editable(changed_prod as int, m as int) {
                    s0.redistributed(m as int, changed_prod as int, target_value as int, q)
                } else {
                    s0.pct(q, m as int)
                } by {
                    if s0.editable(changed_prod as int, m as int) {
                        s0.lemma_column_agree(before, m as int, changed_prod as int, q);
                        s0.lemma_column_agree(before, m as int, changed_prod as int, s0.n());
                        assert(before.redistributed(m as int, changed_prod as int, target_value as int, q)
                            == s0.redistributed(m as int, changed_prod as int, target_value as int, q));
                        assert(before.editable(changed_prod as int, m as int));
                        assert(self.pct(q, m as int) == before.redistributed(m as int, changed_prod as int, target_value as int, q));
                    } else {
                        assert(!before.editable(changed_prod as int, m as int));
                        assert(self.monthly_pct@ == before.monthly_pct@);
                        assert(self.pct(q, m as int) == before.pct(q, m as int));
                    }
                }
            }
            m = m + 1;
        }
    }
}

/// Step `k` of a chain of month edits: `states[k + 1]` is `states[k]` after
/// product `c`'s share of month `k` is set to `tv`
/// ([`AppState::redistribute_month`]).
pub open spec fn month_step(states: Seq<AppState>, k: int, c: int, tv: int) -> bool {
    states[k].redistributed_into(states[k + 1], k, c, tv)
}

/// After the month edits of months below `k`, those months are edited as a
/// yearly edit edits them and the later months are untouched.
proof fn lemma_month_chain(states: Seq<AppState>, c: int, tv: int, k: int)
    requires
        states.len() == 13,
        states[0].wf(),
        0 <= c < states[0].n(),
        0 <= k <= 12,
        forall|j: int| 0 <= j < 12 ==> #[trigger] month_step(states, j, c, tv),
    ensures
        states[k].wf(),
        states[k].same_but_pct(states[0]),
        forall|q: int, m: int|
            0 <= q < states[0].n() && k <= m < 12 ==> #[trigger] states[k].pct(q, m) == states[0].pct(q, m),
        forall|q: int, m: int|
            0 <= q < states[0].n() && 0 <= m < k ==> #[trigger] states[k].pct(q, m) == if states[0].editable(c, m) {
                states[0].redistributed(m, c, tv, q)
            } else {
                states[0].pct(q, m)
            },
    decreases k,
{
    if k > 0 {
        lemma_month_chain(states, c, tv, k - 1);
        let s0 = states[0];
        let b = states[k - 1];
        let a = states[k];
        assert(month_step(states, k - 1, c, tv));
        assert(b.editable(c, k - 1) == s0.editable(c, k - 1));
        assert forall|q: int| 0 <= q < s0.n() implies #[trigger] a.pct(q, k - 1) == if s0.editable(c, k - 1) {
            s0.redistributed(k - 1, c, tv, q)
        } else {
            s0.pct(q, k - 1)
        } by {
            if s0.editable(c, k - 1) {
                s0.lemma_column_agree(b, k - 1, c, q);
                s0.lemma_column_agree(b, k - 1, c, s0.n());
                assert(b.redistributed(k - 1, c, tv, q) == s0.redistributed(k - 1, c, tv, q));
            } else {
                assert(a.monthly_pct@ == b.monthly_pct@);
                assert(a.pct(q, k - 1) == b.pct(q, k - 1));
            }
        }
        assert forall|q: int, m: int| 0 <= q < s0.n() && 0 <= m < k - 1 implies #[trigger] a.pct(q, m) == b.pct(q, m) by {}
    }
}

/// Law: setting a product's yearly share is setting its share of each
/// month to the same value, January to December in turn: any chain of
/// twelve month edits ends in the state that the yearly edit describes
/// (nothing changes for a yearly-locked product; month-locked months keep
/// their shares).
pub proof fn lemma_yearly_edit_is_month_edits(states: Seq<AppState>, c: int, tv: int)
    requires
        states.len() == 13,
        states[0].wf(),
        0 <= c < states[0].n(),
        forall|j: int| 0 <= j < 12 ==> #[trigger] month_step(states, j, c, tv),
    ensures
        states[0].yearly_edited_into(states[12], c, tv),
{
    lemma_month_chain(states, c, tv, 12);
    let s0 = states[0];
    let e = states[12];
    if s0.yearly_locked@[c] {
        assert forall|q: int| 0 <= q < s0.n() implies #[trigger] e.monthly_pct@[q] == s0.monthly_pct@[q] by {
            assert forall|m: int| 0 <= m < 12 implies e.monthly_pct@[q][m] == s0.monthly_pct@[q][m] by {
                assert(!s0.editable(c, m));
                assert(e.pct(q, m) == s0.pct(q, m));
            }
            assert(e.monthly_pct@[q]@ =~= s0.monthly_pct@[q]@);
        }
        assert(e.monthly_pct@ =~= s0.monthly_pct@);
    }
}

// ---------------------------------------------------------------------------
// Equal split, yearly mean, effective settings
// ---------------------------------------------------------------------------

/// The share of product `i` when [`PCT_TOTAL`] is split equally over `n`
/// products: the quotient, plus one tenth for each of the first
/// `(PCT_TOTAL as int) % n` products.
pub open spec fn split_value(n: int, i: int) -> int {
    let d = if n < 1 { 1 } else { n };
    (PCT_TOTAL as int) / d + if i < (PCT_TOTAL as int) % d { 1int } else { 0 }
}

/// Sum of [`split_value`] over the products below `k`.
pub open spec fn split_sum(n: int, k: int) -> int
    decreases k,
{
    if k <= 0 {
        0
    } else {
        split_sum(n, k - 1) + split_value(n, k - 1)
    }
}

proof fn lemma_split_prefix(n: int, k: int)
    requires
        n >= 1,
        0 <= k <= n,
    ensures
        split_sum(n, k) == k * ((PCT_TOTAL as int) / n) + min_int(k, (PCT_TOTAL as int) % n),
    decreases k,
{
    assert((PCT_TOTAL as int) % n >= 0) by (nonlinear_arith)
        requires n >= 1;
    if k > 0 {
        lemma_split_prefix(n, k - 1);
        let q = (PCT_TOTAL as int) / n;
        let e = (PCT_TOTAL as int) % n;
        assert(k * q == (k - 1) * q + q) by (nonlinear_arith);
        assert(split_value(n, k - 1) == q + if k - 1 < e { 1int } else { 0 });
        assert(split_sum(n, k) == split_sum(n, k - 1) + split_value(n, k - 1));
    } else {
        assert(k * ((PCT_TOTAL as int) / n) == 0) by (nonlinear_arith)
            requires k == 0;
    }
}

/// Law: the equal split of [`PCT_TOTAL`] over one or more products adds up
/// to [`PCT_TOTAL`].
pub proof fn lemma_equal_split_total(n: int)
    requires
        n >= 1,
    ensures
        split_sum(n, n) == PCT_TOTAL,
{
    lemma_split_prefix(n, n);
    assert(n * ((PCT_TOTAL as int) / n) + (PCT_TOTAL as int) % n == PCT_TOTAL) by (nonlinear_arith)
        requires n >= 1;
    assert((PCT_TOTAL as int) % n < n) by (nonlinear_arith)
        requires n >= 1;
}

/// The initial shares for `n` products: every month split equally, the
/// first `(PCT_TOTAL as int) % n` products getting one tenth more.
pub fn equal_split(n: usize) -> (v: Vec<[i64; 12]>)
    ensures
        v@.len() == n,
        forall|i: int, m: int| 0 <= i < n && 0 <= m < 12 ==> #[trigger] v@[i][m] == split_value(n as int, i),
{
    let d: i64 = if n < 1 { 1 } else if n > 2000 { 2000 } else { n as i64 };
    let base: i64 = if n > 2000 { 0 } else { 1000 / d };
    assert(base * d <= 1000) by (nonlinear_arith)
        requires 1 <= d <= 2000, n > 2000 ==> base == 0, n <= 2000 ==> base == 1000int / (d as int), base >= 0;
    let extra: i64 = if n > 2000 { 1000 } else { 1000 - base * d };
    proof {
        if n <= 2000 {
            assert(1000 - (1000int / (d as int)) * d == 1000int % (d as int)) by (nonlinear_arith)
                requires d >= 1;
        } else {
            assert((PCT_TOTAL as int) / (n as int) == 0) by (nonlinear_arith)
                requires n > 2000;
            assert((PCT_TOTAL as int) % (n as int) == 1000) by (nonlinear_arith)
                requires n > 2000;
        }
    }
    let mut v: Vec<[i64; 12]> = Vec::new();
    let mut i: usize = 0;
    while i < n
        invariant
            i <= n,
            v@.len() == i,
            base == (PCT_TOTAL as int) / (if n < 1 { 1 } else { n as int }),
            extra == (PCT_TOTAL as int) % (if n < 1 { 1 } else { n as int }),
            0 <= base <= 1000,
            n > 2000 ==> extra == 1000,
            forall|j: int, m: int| 0 <= j < i && 0 <= m < 12 ==> #[trigger] v@[j][m] == split_value(n as int, j),
        decreases n - i,
    {
        let x: i64 = if i < 2000 && (i as i64) < extra { base + 1 } else { base };
        proof {
            assert(split_value(n as int, i as int) == base + if (i as int) < extra { 1int } else { 0 });
            if n > 2000 {
                assert(i >= 2000 ==> !((i as int) < extra));
            }
        }
        assert(x == split_value(n as int, i as int));
        v.push([x; 12]);
        i = i + 1;
    }
    v
}

/// Nearest integer to `a / b` (`b > 0`), halves rounded away from zero.
pub open spec fn round_div(a: int, b: int) -> int {
    if a >= 0 {
        (2 * a + b) / (2 * b)
    } else {
        -((-2 * a + b) / (2 * b))
    }
}

/// Law: rounding `a / s` (`s > 0`) gives the whole number nearest to it:
/// within half of `a / s`, on either side.
pub proof fn lemma_round_div_nearest(a: int, s: int)
    requires
        s > 0,
    ensures
        -s <= 2 * (round_div(a, s) * s - a) <= s,
{
    let b = if a >= 0 { a } else { -a };
    let x = 2 * b + s;
    let q = x / (2 * s);
    vstd::arithmetic::div_mod::lemma_fundamental_div_mod(x, 2 * s);
    vstd::arithmetic::div_mod::lemma_mod_pos_bound(x, 2 * s);
    let r = x % (2 * s);
    assert(2 * (q * s - b) == s - r) by (nonlinear_arith)
        requires
            x == (2 * s) * q + r,
            x == 2 * b + s;
    if a >= 0 {
        assert(round_div(a, s) == q);
    } else {
        assert(round_div(a, s) == -q);
        assert(2 * (round_div(a, s) * s - a) == -(2 * (q * s - b))) by (nonlinear_arith)
            requires
                round_div(a, s) == -q,
                b == -a;
    }
}

/// Rounding half away from zero of `a / s` for `a >= 0`: the quotient, plus
/// one when the remainder is at least half of `s`.
pub proof fn lemma_round_div_split(a: int, s: int)
    requires
        a >= 0,
        s > 0,
    ensures
        round_div(a, s) == a / s + if a % s >= s - a % s { 1int } else { 0 },
{
    let q = a / s;
    let r = a % s;
    vstd::arithmetic::div_mod::lemma_fundamental_div_mod(a, s);
    vstd::arithmetic::div_mod::lemma_mod_pos_bound(a, s);
    let t: int = if r >= s - r { 1 } else { 0 };
    let rr = 2 * r + s - 2 * s * t;
    assert(2 * a + s == (q + t) * (2 * s) + rr) by (nonlinear_arith)
        requires
            a == s * q + r,
            rr == 2 * r + s - 2 * s * t;
    assert(0 <= rr < 2 * s);
    vstd::arithmetic::div_mod::lemma_fundamental_div_mod_converse(2 * a + s, 2 * s, q + t, rr);
}

impl AppState {
    /// Sum of product `p`'s shares over the months below `k`.
    pub open spec fn row_sum(self, p: int, k: int) -> int
        decreases k,
    {
        if k <= 0 {
            0
        } else {
            self.row_sum(p, k - 1) + self.pct(p, k - 1)
        }
    }

    /// Yearly share of product `idx`: the mean of its twelve monthly shares,
    /// rounded to the nearest tenth (halves away from zero).
    pub fn yearly_pct(&self, idx: usize) -> (r: i64)
        requires
            self.wf(),
            idx < self.n(),
        ensures
            r == round_div(self.row_sum(idx as int, 12), 12),
            -12 <= 2 * (12 * r - self.row_sum(idx as int, 12)) <= 12,
    {
        let row = self.monthly_pct[idx];
        let mut sum: i128 = 0;
        let mut m: usize = 0;
        while m < 12
            invariant
                m <= 12,
                self.wf(),
                idx < self.n(),
                row == self.monthly_pct@[idx as int],
                sum == self.row_sum(idx as int, m as int),
                -(m as int) * 0x8000_0000_0000_0000 <= sum <= (m as int) * 0x7fff_ffff_ffff_ffff,
            decreases 12 - m,
        {
            sum = sum + row[m] as i128;
            m = m + 1;
        }
        let r: i128 = if sum >= 0 { (2 * sum + 12) / 24 } else { -((-2 * sum + 12) / 24) };
        assert(-0x8000_0000_0000_0000 <= r <= 0x7fff_ffff_ffff_ffff) by (nonlinear_arith)
            requires
                -12 * 0x8000_0000_0000_0000 <= sum <= 12 * 0x7fff_ffff_ffff_ffff,
                r == if sum >= 0 { (2 * sum + 12) / 24 } else { -((-2 * sum + 12) / 24) };
        proof {
            lemma_round_div_nearest(sum as int, 12);
        }
        r as i64
    }

    /// The twelve monthly shares of product `idx`.
    pub fn monthly_pcts(&self, idx: usize) -> (r: [i64; 12])
        requires
            self.wf(),
            idx < self.n(),
        ensures
            r == self.monthly_pct@[idx as int],
    {
        self.monthly_pct[idx]
    }

    /// Effective workday hours of month `m`: the override, at least the
    /// minimum, at least one.
    pub fn workday_hours(&self, m: usize) -> (r: i64)
        requires
            m < 12,
        ensures
            r == max_int(max_int(self.month_overrides.workday[m as int] as int, self.settings.min_workday_hours as int), 1),
    {
        let a = self.month_overrides.workday[m];
        let b = if a > self.settings.min_workday_hours { a } else { self.settings.min_workday_hours };
        if b > 1 { b } else { 1 }
    }

    /// Effective parallel products of month `m`: the override, at least the
    /// minimum, at least one.
    pub fn parallel(&self, m: usize) -> (r: i64)
        requires
            m < 12,
        ensures
            r == max_int(max_int(self.month_overrides.parallel[m as int] as int, self.settings.min_parallel as int), 1),
    {
        let a = self.month_overrides.parallel[m];
        let b = if a > self.settings.min_parallel { a } else { self.settings.min_parallel };
        if b > 1 { b } else { 1 }
    }

    /// Effective net-profit goal of month `m`: the override, at least the
    /// minimum, never negative.
    pub fn monthly_goal(&self, m: usize) -> (r: i64)
        requires
            m < 12,
        ensures
            r == max_int(max_int(self.month_overrides.net_profit[m as int] as int, self.settings.min_monthly_net_profit as int), 0),
    {
        let a = self.month_overrides.net_profit[m];
        let b = if a > self.settings.min_monthly_net_profit { a } else { self.settings.min_monthly_net_profit };
        if b > 0 { b } else { 0 }
    }

    /// Sum over the months below `k` of the effective net-profit goal plus
    /// the month's fixed costs.
    pub open spec fn goal_sum(self, k: int) -> int
        decreases k,
    {
        if k <= 0 {
            0
        } else {
            self.goal_sum(k - 1) + max_int(
                max_int(self.month_overrides.net_profit[k - 1] as int, self.settings.min_monthly_net_profit as int),
                0,
            ) + self.month_overrides.fix_costs[k - 1] as int
        }
    }

    /// The yearly reference of the totals: the sum over the twelve months of
    /// the net-profit goal and the fixed costs (what the products must
    /// cover), and whether it reaches the target yearly net profit.
    pub fn yearly_reference(&self) -> (r: (i128, bool))
        ensures
            r.0 == self.goal_sum(12),
            r.1 == (self.goal_sum(12) >= self.settings.target_yearly_net_profit),
    {
        let mut sum: i128 = 0;
        let mut m: usize = 0;
        while m < 12
            invariant
                m <= 12,
                sum == self.goal_sum(m as int),
                m * i64::MIN <= sum <= m * 2 * i64::MAX,
            decreases 12 - m,
        {
            let g = self.monthly_goal(m);
            let f = self.fix_costs(m);
            sum = sum + g as i128 + f as i128;
            m = m + 1;
        }
        (sum, sum >= self.settings.target_yearly_net_profit as i128)
    }

    /// Fixed costs of month `m`.
    pub fn fix_costs(&self, m: usize) -> (r: i64)
        requires
            m < 12,
        ensures
            r == self.month_overrides.fix_costs[m as int],
    {
        self.month_overrides.fix_costs[m]
    }

    /// Raise every per-month override to its Full-Year minimum.
    pub fn clamp_overrides_to_mins(&mut self)
        ensures
            forall|m: int| 0 <= m < 12 ==> #[trigger] final(self).month_overrides.workday[m] == max_int(
                old(self).month_overrides.workday[m] as int, old(self).settings.min_workday_hours as int),
            forall|m: int| 0 <= m < 12 ==> #[trigger] final(self).month_overrides.parallel[m] == max_int(
                old(self).month_overrides.parallel[m] as int, old(self).settings.min_parallel as int),
            forall|m: int| 0 <= m < 12 ==> #[trigger] final(self).month_overrides.net_profit[m] == max_int(
                old(self).month_overrides.net_profit[m] as int, old(self).settings.min_monthly_net_profit as int),
            final(self).month_overrides.fix_costs == old(self).month_overrides.fix_costs,
            final(self).settings == old(self).settings,
            final(self).monthly_pct == old(self).monthly_pct,
            final(self).month_locked == old(self).month_locked,
            final(self).yearly_locked == old(self).yearly_locked,
            final(self).names == old(self).names,
            final(self).sliders == old(self).sliders,
            final(self).period == old(self).period,
            final(self).selected == old(self).selected,
            final(self).scroll == old(self).scroll,
            final(self).status == old(self).status,
            final(self).tab == old(self).tab,
            final(self).product_scroll == old(self).product_scroll,
            final(self).lang == old(self).lang,
            final(self).active_region == old(self).active_region,
            final(self).show_help == old(self).show_help,
            final(self).help_scroll == old(self).help_scroll,
    {
        let mut o = self.month_overrides;
        clamp_up(&mut o.workday, self.settings.min_workday_hours);
        clamp_up(&mut o.parallel, self.settings.min_parallel);
        clamp_up(&mut o.net_profit, self.settings.min_monthly_net_profit);
        self.month_overrides = o;
    }
}

/// Larger of two integers.
pub open spec fn max_int(a: int, b: int) -> int {
    if a > b { a } else { b }
}

/// Raise every entry of `a` to at least `lo`.
fn clamp_up(a: &mut [i64; 12], lo: i64)
    ensures
        forall|m: int| 0 <= m < 12 ==> #[trigger] final(a)[m] == max_int(old(a)[m] as int, lo as int),
{
    let mut m: usize = 0;
    while m < 12
        invariant
            m <= 12,
            forall|k: int| 0 <= k < m ==> #[trigger] a[k] == max_int(old(a)[k] as int, lo as int),
            forall|k: int| m <= k < 12 ==> #[trigger] a[k] == old(a)[k],
        decreases 12 - m,
    {
        if a[m] < lo {
            a[m] = lo;
        }
        m = m + 1;
    }
}

impl AppState {
    /// The frozen sum of month `m` for an edit of product `c`
    /// ([`Self::frozen_below`] over all products).
    pub fn frozen_sum(&self, m: usize, c: usize) -> (f: i128)
        requires
            self.wf(),
            m < 12,
        ensures
            f == self.frozen_below(m as int, c as int, self.n()),
    {
        let n = self.monthly_pct.len();
        let mut frozen: i128 = 0;
        let mut q: usize = 0;
        while q < n
            invariant
                self.wf(),
                n == self.n(),
                m < 12,
                q <= n,
                frozen == self.frozen_below(m as int, c as int, q as int),
                -(q as int) * 0x8000_0000_0000_0000 <= frozen <= (q as int) * 0x8000_0000_0000_0000,
            decreases n - q,
        {
            if q != c && !self.editable_in_month(q, m) {
                frozen = frozen + self.monthly_pct[q][m] as i128;
            }
            q = q + 1;
        }
        frozen
    }
}

} // verus!
