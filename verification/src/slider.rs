//! The sidebar sliders: what each one edits, its range and step, and how its
//! value is shown.
use vstd::prelude::*;
use crate::lang::{spec_dict, Lang};
use crate::text;
use crate::text::{push_char, push_str, push_u64};

verus! {

broadcast use vstd::string::group_string_axioms;

/// What a sidebar slider edits.
///
/// `YearlyPercent(p)`: product `p`'s yearly share (the mean of its twelve
/// monthly shares); editing it propagates to every month where `p` is not
/// locked. `MonthPercent(p)`: product `p`'s share in the selected month.
/// The `Min*` / `Target*` kinds are the Full-Year settings; the `Month*(m)`
/// kinds are month `m`'s overrides.
#[derive(Debug, Clone, Copy, PartialEq, Eq, Structural)]
pub enum SliderKind {
    YearlyPercent(usize),
    MonthPercent(usize),
    MinWorkdayHours,
    MinParallel,
    MinMonthlyNetProfit,
    TargetYearlyNetProfit,
    MonthWorkdayHours(usize),
    MonthParallel(usize),
    MonthNetProfit(usize),
}

/// One sidebar slider.
#[derive(Debug, Clone)]
pub struct Slider {
    pub kind: SliderKind,
    pub label: String,
    pub value: i64,
    pub min: i64,
    pub max: i64,
    pub step: i64,
    /// Suffix appended to the numeric readout (`"%"`, `" h"`, `""`).
    pub suffix: &'static str,
    /// For product-share sliders: the product is frozen and left out of
    /// redistribution. Ignored by the other kinds.
    pub locked: bool,
}

/// `v` forced into `[lo, hi]`: first raised to `lo`, then lowered to `hi`.
pub open spec fn clamped(v: int, lo: int, hi: int) -> int {
    let up = if v < lo { lo } else { v };
    if up > hi { hi } else { up }
}

impl Slider {
    /// Force the value into `[min, max]` (raised to `min` first, then lowered
    /// to `max`).
    pub fn clamp(&mut self)
        ensures
            final(self).value == clamped(old(self).value as int, old(self).min as int, old(self).max as int),
            final(self).kind == old(self).kind,
            final(self).label == old(self).label,
            final(self).min == old(self).min,
            final(self).max == old(self).max,
            final(self).step == old(self).step,
            final(self).suffix == old(self).suffix,
            final(self).locked == old(self).locked,
    {
        if self.value < self.min {
            self.value = self.min;
        }
        if self.value > self.max {
            self.value = self.max;
        }
    }

    /// One step down, then clamp.
    pub fn dec(&mut self)
        requires
            i64::MIN <= old(self).value - old(self).step <= i64::MAX,
        ensures
            final(self).value == clamped(old(self).value - old(self).step, old(self).min as int, old(self).max as int),
            final(self).kind == old(self).kind,
            final(self).label == old(self).label,
            final(self).min == old(self).min,
            final(self).max == old(self).max,
            final(self).step == old(self).step,
            final(self).suffix == old(self).suffix,
            final(self).locked == old(self).locked,
    {
        self.value = self.value - self.step;
        self.clamp();
    }

    /// One step up, then clamp.
    pub fn inc(&mut self)
        requires
            i64::MIN <= old(self).value + old(self).step <= i64::MAX,
        ensures
            final(self).value == clamped(old(self).value + old(self).step, old(self).min as int, old(self).max as int),
            final(self).kind == old(self).kind,
            final(self).label == old(self).label,
            final(self).min == old(self).min,
            final(self).max == old(self).max,
            final(self).step == old(self).step,
            final(self).suffix == old(self).suffix,
            final(self).locked == old(self).locked,
    {
        self.value = self.value + self.step;
        self.clamp();
    }
}

/// Whether the slider edits a product share (and so shows a lock checkbox).
pub open spec fn is_pct_kind(k: SliderKind) -> bool {
    k is YearlyPercent || k is MonthPercent
}

/// Whether a slider is a product-share slider.
pub fn is_product_pct(s: &Slider) -> (b: bool)
    ensures
        b == is_pct_kind(s.kind),
{
    match s.kind {
        SliderKind::YearlyPercent(_) | SliderKind::MonthPercent(_) => true,
        _ => false,
    }
}

/// The lock-checkbox label of a product-share slider (empty for the others).
pub fn slider_lock_label(s: &Slider, lang: &Lang) -> (r: &'static str)
    ensures
        r == (match s.kind {
            SliderKind::YearlyPercent(_) => spec_dict(*lang).tui_lock_year,
            SliderKind::MonthPercent(_) => spec_dict(*lang).tui_lock_month,
            _ => "",
        }),
{
    let d = lang.dict();
    match s.kind {
        SliderKind::YearlyPercent(_) => d.tui_lock_year,
        SliderKind::MonthPercent(_) => d.tui_lock_month,
        _ => "",
    }
}

/// Shares are stored in tenths of a percent: `v` is shown as its whole
/// percent, a point and the tenths digit (`500` reads `50.0`).
pub open spec fn tenths_text(v: int) -> Seq<char> {
    let a = if v < 0 { -v } else { v };
    let sign = if v < 0 { seq!['-'] } else { Seq::<char>::empty() };
    sign + text::int_text(a / 10) + seq!['.'] + seq![text::digit_char((a % 10) as nat)]
}

/// The readout of a slider: a space, the value (one decimal place for
/// product shares, stored in tenths), then the suffix.
pub open spec fn readout(s: Slider) -> Seq<char> {
    let num = if is_pct_kind(s.kind) { tenths_text(s.value as int) } else { text::int_text(s.value as int) };
    seq![' '] + num + s.suffix@
}

/// Human-readable value readout for a slider's track line.
pub fn slider_readout(s: &Slider, _lang: &Lang) -> (r: String)
    ensures
        r@ == readout(*s),
{
    let mut out = String::new();
    push_char(&mut out, ' ');
    if is_product_pct(s) {
        let v = s.value;
        let a: u64 = if v < 0 {
            push_char(&mut out, '-');
            (-(v as i128)) as u64
        } else {
            v as u64
        };
        push_u64(&mut out, a / 10);
        push_char(&mut out, '.');
        push_u64(&mut out, a % 10);
        proof {
            reveal_with_fuel(text::nat_digits, 2);
        }
    } else {
        let t = text::i64_text(s.value);
        push_str(&mut out, t.as_str());
    }
    push_str(&mut out, s.suffix);
    out
}

} // verus!
