//! The state file kept beside the product files: each product's shares and
//! locks, the Full-Year settings, the month overrides and the selected
//! period, written on export and read back on start.
//!
//! Format, one record per line:
//!
//! ```text
//! # comment
//! <file> <share x12> <month lock x12> <yearly lock>
//! min_workday_hours <n>
//! min_parallel <n>
//! min_monthly_net_profit <n>
//! target_yearly_net_profit <n>
//! month_workday <n x12>
//! month_parallel <n x12>
//! month_net_profit <n x12>
//! month_fix_costs <n x12>
//! period FullYear | period Month <m>
//! ```
//!
//! The older keys `workday_hours`, `parallel`, `monthly_goal`, `yearly_goal`
//! and `selected_month` are still read.
use vstd::prelude::*;
use crate::lang::is_digit;
use crate::plan::{max_int, round_div, split_value, AppState, GlobalSettings, MonthOverrides, Period, PCT_TOTAL};
use crate::text;

verus! {

broadcast use vstd::string::group_string_axioms;

/// The state file's name in the product folder: a plain `.txt` file that the
/// product loader skips by name.
pub const STATE_FILE_NAME: &'static str = "simulation_state.txt";

// ---------------------------------------------------------------------------
// Integers
// ---------------------------------------------------------------------------

/// Value of a string of decimal digits.
pub open spec fn digits_value(s: Seq<char>) -> int
    decreases s.len(),
{
    if s.len() == 0 {
        0
    } else {
        digits_value(s.drop_last()) * 10 + (s.last() as u32 - 48)
    }
}

/// `s` is one or more decimal digits.
pub open spec fn all_digits(s: Seq<char>) -> bool {
    s.len() > 0 && forall|i: int| 0 <= i < s.len() ==> is_digit(#[trigger] s[i])
}

/// How Rust parses an integer in `[lo, hi]` from `t` (`str::parse`): an
/// optional `+` (or `-` when `signed`), then one or more decimal digits,
/// the value in range.
pub open spec fn parse_int(t: Seq<char>, lo: int, hi: int, signed: bool) -> Option<int> {
    let has_sign = t.len() > 0 && (t[0] == '+' || (signed && t[0] == '-'));
    let body = if has_sign { t.skip(1) } else { t };
    let v = if has_sign && t[0] == '-' { -digits_value(body) } else { digits_value(body) };
    if all_digits(body) && lo <= v <= hi {
        Some(v)
    } else {
        None
    }
}

/// `str::parse::<i64>`.
pub open spec fn parse_i64(t: Seq<char>) -> Option<int> {
    parse_int(t, i64::MIN as int, i64::MAX as int, true)
}

/// `str::parse::<usize>`.
pub open spec fn parse_usize(t: Seq<char>) -> Option<int> {
    parse_int(t, 0, usize::MAX as int, false)
}

proof fn lemma_digits_value_nonneg(s: Seq<char>)
    requires
        forall|i: int| 0 <= i < s.len() ==> is_digit(#[trigger] s[i]),
    ensures
        0 <= digits_value(s),
    decreases s.len(),
{
    if s.len() > 0 {
        lemma_digits_value_nonneg(s.drop_last());
    }
}

/// Parses `cs[a..b]` as an integer in `[lo, hi]` (see [`parse_int`]).
fn parse_range(cs: &Vec<char>, a: usize, b: usize, lo: i128, hi: i128, signed: bool) -> (r: Option<i128>)
    requires
        a <= b <= cs@.len(),
        -0x1_0000_0000_0000_0000 <= lo <= 0,
        0 <= hi <= 0x1_0000_0000_0000_0000,
    ensures
        r == match parse_int(cs@.subrange(a as int, b as int), lo as int, hi as int, signed) {
            Some(v) => Some(v as i128),
            None => None,
        },
{
    let ghost t = cs@.subrange(a as int, b as int);
    assert(a < b ==> t[0] == cs@[a as int]);
    let has_sign = a < b && (cs[a] == '+' || (signed && cs[a] == '-'));
    let neg = has_sign && cs[a] == '-';
    assert(has_sign == (t.len() > 0 && (t[0] == '+' || (signed && t[0] == '-'))));
    let start = if has_sign { a + 1 } else { a };
    let ghost body = cs@.subrange(start as int, b as int);
    assert(has_sign ==> body =~= t.skip(1));
    assert(!has_sign ==> body =~= t);
    if start == b {
        return None;
    }
    // Accumulate the magnitude; once it passes `2^64` it can no longer be
    // in range, so it is kept at that cap.
    let cap: u128 = 0x1_0000_0000_0000_0001;
    let mut v: u128 = 0;
    let mut i = start;
    while i < b
        invariant
            a <= start <= i <= b <= cs@.len(),
            body == cs@.subrange(start as int, b as int),
            forall|j: int| start <= j < i ==> is_digit(#[trigger] cs@[j]),
            cap == 0x1_0000_0000_0000_0001u128,
            t == cs@.subrange(a as int, b as int),
            has_sign == (t.len() > 0 && (t[0] == '+' || (signed && t[0] == '-'))),
            neg == (has_sign && t[0] == '-'),
            has_sign ==> body == t.skip(1),
            !has_sign ==> body == t,
            v <= cap,
            v < cap ==> v == digits_value(cs@.subrange(start as int, i as int)),
            v == cap ==> digits_value(cs@.subrange(start as int, i as int)) >= cap,
        decreases b - i,
    {
        let c = cs[i];
        let u = c as u32;
        if !(48 <= u && u <= 57) {
            assert(body[i - start] == c);
            assert(!is_digit(body[i - start]));
            assert(!all_digits(body));
            return None;
        }
        let ghost prev = cs@.subrange(start as int, i as int);
        assert(cs@.subrange(start as int, i + 1).drop_last() =~= prev);
        proof {
            lemma_digits_value_nonneg(prev);
        }
        let ghost dv = digits_value(prev);
        assert(digits_value(cs@.subrange(start as int, i + 1)) == dv * 10 + (u - 48));
        if v < cap {
            assert(v * 10 + 9 < 0x1_0000_0000_0000_0000_0000) by (nonlinear_arith)
                requires v < cap, cap == 0x1_0000_0000_0000_0001u128;
            let nv: u128 = v * 10 + (u - 48) as u128;
            v = if nv >= cap { cap } else { nv };
        } else {
            assert(dv * 10 + (u - 48) >= cap) by (nonlinear_arith)
                requires dv >= cap, cap > 0, 48 <= u;
        }
        i = i + 1;
    }
    assert(cs@.subrange(start as int, b as int) =~= body);
    assert(all_digits(body));
    proof {
        lemma_digits_value_nonneg(body);
    }
    if v == cap {
        return None;
    }
    let x: i128 = if neg { -(v as i128) } else { v as i128 };
    if lo <= x && x <= hi {
        Some(x)
    } else {
        None
    }
}

// ---------------------------------------------------------------------------
// Reading: the model
// ---------------------------------------------------------------------------

/// The keyed records of the state file.
#[derive(Debug, Clone, Copy, PartialEq, Eq, Structural)]
pub enum StateKey {
    MinWorkdayHours,
    MinParallel,
    MinMonthlyNetProfit,
    TargetYearlyNetProfit,
    MonthWorkday,
    MonthParallel,
    MonthNetProfit,
    MonthFixCosts,
    Period,
    OldWorkdayHours,
    OldParallel,
    OldMonthlyGoal,
    OldYearlyGoal,
    OldSelectedMonth,
}

/// The text a record of `k` starts with (its key and a space).
pub open spec fn key_text(k: StateKey) -> Seq<char> {
    match k {
        StateKey::MinWorkdayHours => "min_workday_hours "@,
        StateKey::MinParallel => "min_parallel "@,
        StateKey::MinMonthlyNetProfit => "min_monthly_net_profit "@,
        StateKey::TargetYearlyNetProfit => "target_yearly_net_profit "@,
        StateKey::MonthWorkday => "month_workday "@,
        StateKey::MonthParallel => "month_parallel "@,
        StateKey::MonthNetProfit => "month_net_profit "@,
        StateKey::MonthFixCosts => "month_fix_costs "@,
        StateKey::Period => "period "@,
        StateKey::OldWorkdayHours => "workday_hours "@,
        StateKey::OldParallel => "parallel "@,
        StateKey::OldMonthlyGoal => "monthly_goal "@,
        StateKey::OldYearlyGoal => "yearly_goal "@,
        StateKey::OldSelectedMonth => "selected_month "@,
    }
}

/// The order in which a line is tried against the keys.
pub open spec fn key_order() -> Seq<StateKey> {
    seq![
        StateKey::MinWorkdayHours,
        StateKey::MinParallel,
        StateKey::MinMonthlyNetProfit,
        StateKey::TargetYearlyNetProfit,
        StateKey::MonthWorkday,
        StateKey::MonthParallel,
        StateKey::MonthNetProfit,
        StateKey::MonthFixCosts,
        StateKey::Period,
        StateKey::OldWorkdayHours,
        StateKey::OldParallel,
        StateKey::OldMonthlyGoal,
        StateKey::OldYearlyGoal,
        StateKey::OldSelectedMonth,
    ]
}

/// `p` begins `l`.
pub open spec fn starts_with(l: Seq<char>, p: Seq<char>) -> bool {
    p.len() <= l.len() && l.take(p.len() as int) == p
}

/// The first key, from position `i` of [`key_order`] on, that begins `l`.
pub open spec fn key_from(l: Seq<char>, i: int) -> Option<StateKey>
    decreases 14 - i,
{
    if i < 0 || i >= 14 {
        None
    } else if starts_with(l, key_text(key_order()[i])) {
        Some(key_order()[i])
    } else {
        key_from(l, i + 1)
    }
}

/// The value of `o`, or `d` when there is none.
pub open spec fn or_int(o: Option<int>, d: int) -> int {
    match o {
        Some(v) => v,
        None => d,
    }
}

/// Twelve integers from the whitespace-separated words of `rest`, each
/// word that is no integer read as 0; `None` when there are fewer than
/// twelve words.
pub open spec fn twelve(rest: Seq<char>) -> Option<Seq<int>> {
    let ws = text::words(rest);
    if ws.len() < 12 {
        None
    } else {
        Some(Seq::new(12, |m: int| or_int(parse_i64(ws[m]), 0)))
    }
}

/// A month number read from `r`: 0 unless it parses, at most 11.
pub open spec fn month_number(r: Seq<char>) -> int {
    let v = or_int(parse_usize(text::trim(r)), 0);
    if v < 11 { v } else { 11 }
}

/// The period of a `period` record.
pub open spec fn period_of(rest: Seq<char>) -> Period {
    let r = text::trim(rest);
    if r == "FullYear"@ {
        Period::FullYear
    } else if starts_with(r, "Month "@) {
        Period::Month(month_number(r.skip(6)) as usize)
    } else {
        Period::FullYear
    }
}

/// Position of the first file named `name`.
pub open spec fn file_index(files: Seq<Seq<char>>, name: Seq<char>, k: int) -> Option<int>
    decreases files.len() - k,
{
    if k < 0 || k >= files.len() {
        None
    } else if files[k] == name {
        Some(k)
    } else {
        file_index(files, name, k + 1)
    }
}

/// What the reader has gathered so far.
pub struct LoadModel {
    pub pct: Seq<Seq<int>>,
    pub mlock: Seq<Seq<bool>>,
    pub ylock: Seq<bool>,
    pub min_workday: int,
    pub min_parallel: int,
    pub min_net_profit: int,
    pub target_yearly: int,
    pub workday: Seq<int>,
    pub parallel: Seq<int>,
    pub net_profit: Seq<int>,
    pub fix_costs: Seq<int>,
    pub period: Period,
    pub old_month: Option<int>,
    pub found: bool,
}

/// Twelve copies of `v`.
pub open spec fn twelve_of<T>(v: T) -> Seq<T> {
    Seq::new(12, |m: int| v)
}

/// Before any line: every share 0, no locks, the default settings and
/// overrides, the Full Year, nothing found.
pub open spec fn start_model(n: nat) -> LoadModel {
    LoadModel {
        pct: Seq::new(n, |i: int| twelve_of(0int)),
        mlock: Seq::new(n, |i: int| twelve_of(false)),
        ylock: Seq::new(n, |i: int| false),
        min_workday: 8,
        min_parallel: 1,
        min_net_profit: 500,
        target_yearly: 500,
        workday: twelve_of(8int),
        parallel: twelve_of(1int),
        net_profit: twelve_of(500int),
        fix_costs: twelve_of(0int),
        period: Period::FullYear,
        old_month: None,
        found: false,
    }
}

/// The effect of a keyed record with text `rest` after the key.
pub open spec fn apply_key(st: LoadModel, k: StateKey, rest: Seq<char>) -> LoadModel {
    let v = parse_i64(text::trim(rest));
    match k {
        StateKey::MinWorkdayHours | StateKey::OldWorkdayHours => LoadModel {
            min_workday: or_int(v, st.min_workday), found: true, ..st
        },
        StateKey::MinParallel | StateKey::OldParallel => LoadModel {
            min_parallel: or_int(v, st.min_parallel), found: true, ..st
        },
        StateKey::MinMonthlyNetProfit | StateKey::OldMonthlyGoal => LoadModel {
            min_net_profit: or_int(v, st.min_net_profit), found: true, ..st
        },
        StateKey::TargetYearlyNetProfit | StateKey::OldYearlyGoal => LoadModel {
            target_yearly: or_int(v, st.target_yearly), found: true, ..st
        },
        StateKey::MonthWorkday => match twelve(rest) {
            Some(a) => LoadModel { workday: a, found: true, ..st },
            None => st,
        },
        StateKey::MonthParallel => match twelve(rest) {
            Some(a) => LoadModel { parallel: a, found: true, ..st },
            None => st,
        },
        StateKey::MonthNetProfit => match twelve(rest) {
            Some(a) => LoadModel { net_profit: a, found: true, ..st },
            None => st,
        },
        StateKey::MonthFixCosts => match twelve(rest) {
            Some(a) => LoadModel { fix_costs: a, found: true, ..st },
            None => st,
        },
        StateKey::Period => LoadModel { period: period_of(rest), found: true, ..st },
        StateKey::OldSelectedMonth => LoadModel { old_month: Some(month_number(rest)), found: true, ..st },
    }
}

/// The effect of a product record: its words are the file name, twelve
/// shares, twelve month locks and the yearly lock (`1` is locked); a file
/// that is no current product, or a line of fewer than 26 words, is
/// ignored.
pub open spec fn apply_product(st: LoadModel, l: Seq<char>, files: Seq<Seq<char>>) -> LoadModel {
    let ws = text::words(l);
    if ws.len() >= 26 && file_index(files, ws[0], 0) is Some {
        let i = file_index(files, ws[0], 0)->0;
        LoadModel {
            pct: st.pct.update(i, Seq::new(12, |m: int| or_int(parse_i64(ws[1 + m]), 0))),
            mlock: st.mlock.update(i, Seq::new(12, |m: int| ws[13 + m] == "1"@)),
            ylock: st.ylock.update(i, ws[25] == "1"@),
            found: true,
            ..st
        }
    } else {
        st
    }
}

/// The effect of one line: blank lines and `#` comments are skipped, keyed
/// records set what they name, anything else is read as a product record.
pub open spec fn read_line(st: LoadModel, raw: Seq<char>, files: Seq<Seq<char>>) -> LoadModel {
    let l = text::trim(raw);
    if l.len() == 0 || l[0] == '#' {
        st
    } else {
        match key_from(l, 0) {
            Some(k) => apply_key(st, k, l.skip(key_text(k).len() as int)),
            None => apply_product(st, l, files),
        }
    }
}

/// The model after reading the lines `ls` in order.
pub open spec fn read_lines(ls: Seq<Seq<char>>, files: Seq<Seq<char>>) -> LoadModel
    decreases ls.len(),
{
    if ls.len() == 0 {
        start_model(files.len())
    } else {
        read_line(read_lines(ls.drop_last(), files), ls.last(), files)
    }
}

// ---------------------------------------------------------------------------
// Reading: the code
// ---------------------------------------------------------------------------

/// A state read back from the file.
pub struct LoadedState {
    pub monthly_pct: Vec<[i64; 12]>,
    pub month_locked: Vec<[bool; 12]>,
    pub yearly_locked: Vec<bool>,
    pub settings: GlobalSettings,
    pub month_overrides: MonthOverrides,
    pub period: Period,
}

/// The twelve entries of an integer array.
pub open spec fn ints(a: [i64; 12]) -> Seq<int> {
    Seq::new(12, |m: int| a[m] as int)
}

/// The twelve entries of a flag array.
pub open spec fn flags(a: [bool; 12]) -> Seq<bool> {
    Seq::new(12, |m: int| a[m])
}

impl LoadedState {
    /// The state as a model (nothing pending from the older keys).
    pub open spec fn model(self, found: bool, old_month: Option<int>) -> LoadModel {
        LoadModel {
            pct: self.monthly_pct@.map_values(|a: [i64; 12]| ints(a)),
            mlock: self.month_locked@.map_values(|a: [bool; 12]| flags(a)),
            ylock: self.yearly_locked@,
            min_workday: self.settings.min_workday_hours as int,
            min_parallel: self.settings.min_parallel as int,
            min_net_profit: self.settings.min_monthly_net_profit as int,
            target_yearly: self.settings.target_yearly_net_profit as int,
            workday: ints(self.month_overrides.workday),
            parallel: ints(self.month_overrides.parallel),
            net_profit: ints(self.month_overrides.net_profit),
            fix_costs: ints(self.month_overrides.fix_costs),
            period: self.period,
            old_month,
            found,
        }
    }
}

/// The reader's state between lines.
struct Reader {
    st: LoadedState,
    old_month: Option<usize>,
    found: bool,
}

impl Reader {
    spec fn model(self) -> LoadModel {
        self.st.model(
            self.found,
            match self.old_month {
                Some(m) => Some(m as int),
                None => None,
            },
        )
    }
}

/// Whether `cs[a..b]` begins with `p`.
fn range_starts_with(cs: &Vec<char>, a: usize, b: usize, p: &str) -> (r: bool)
    requires
        a <= b <= cs@.len(),
    ensures
        r == starts_with(cs@.subrange(a as int, b as int), p@),
{
    let pc = text::chars_of(p);
    if pc.len() > b - a {
        return false;
    }
    let mut i: usize = 0;
    while i < pc.len()
        invariant
            a <= b <= cs@.len(),
            pc@ == p@,
            pc@.len() <= b - a,
            i <= pc@.len(),
            forall|j: int| 0 <= j < i ==> cs@[a + j] == pc@[j],
        decreases pc@.len() - i,
    {
        if cs[a + i] != pc[i] {
            assert(cs@.subrange(a as int, b as int).take(pc@.len() as int)[i as int] != p@[i as int]);
            return false;
        }
        i = i + 1;
    }
    assert(cs@.subrange(a as int, b as int).take(pc@.len() as int) =~= p@);
    true
}

/// Whether `cs[a..b]` is exactly `p`.
fn range_is(cs: &Vec<char>, a: usize, b: usize, p: &Vec<char>) -> (r: bool)
    requires
        a <= b <= cs@.len(),
    ensures
        r == (cs@.subrange(a as int, b as int) == p@),
{
    if p.len() != b - a {
        return false;
    }
    let mut i: usize = 0;
    while i < p.len()
        invariant
            a <= b <= cs@.len(),
            p@.len() == b - a,
            i <= p@.len(),
            forall|j: int| 0 <= j < i ==> cs@[a + j] == p@[j],
        decreases p@.len() - i,
    {
        if cs[a + i] != p[i] {
            assert(cs@.subrange(a as int, b as int)[i as int] != p@[i as int]);
            return false;
        }
        i = i + 1;
    }
    assert(cs@.subrange(a as int, b as int) =~= p@);
    true
}

/// The text of a key.
fn key_str(k: StateKey) -> (t: &'static str)
    ensures
        t@ == key_text(k),
{
    match k {
        StateKey::MinWorkdayHours => "min_workday_hours ",
        StateKey::MinParallel => "min_parallel ",
        StateKey::MinMonthlyNetProfit => "min_monthly_net_profit ",
        StateKey::TargetYearlyNetProfit => "target_yearly_net_profit ",
        StateKey::MonthWorkday => "month_workday ",
        StateKey::MonthParallel => "month_parallel ",
        StateKey::MonthNetProfit => "month_net_profit ",
        StateKey::MonthFixCosts => "month_fix_costs ",
        StateKey::Period => "period ",
        StateKey::OldWorkdayHours => "workday_hours ",
        StateKey::OldParallel => "parallel ",
        StateKey::OldMonthlyGoal => "monthly_goal ",
        StateKey::OldYearlyGoal => "yearly_goal ",
        StateKey::OldSelectedMonth => "selected_month ",
    }
}

/// The first key that begins `cs[a..b]`, with the length of its text.
fn match_key(cs: &Vec<char>, a: usize, b: usize) -> (r: Option<(StateKey, usize)>)
    requires
        a <= b <= cs@.len(),
    ensures
        match r {
            Some((k, len)) => key_from(cs@.subrange(a as int, b as int), 0) == Some(k) && len == key_text(k).len()
                && len <= b - a,
            None => key_from(cs@.subrange(a as int, b as int), 0) is None,
        },
{
    let keys: Vec<StateKey> = vec![
        StateKey::MinWorkdayHours,
        StateKey::MinParallel,
        StateKey::MinMonthlyNetProfit,
        StateKey::TargetYearlyNetProfit,
        StateKey::MonthWorkday,
        StateKey::MonthParallel,
        StateKey::MonthNetProfit,
        StateKey::MonthFixCosts,
        StateKey::Period,
        StateKey::OldWorkdayHours,
        StateKey::OldParallel,
        StateKey::OldMonthlyGoal,
        StateKey::OldYearlyGoal,
        StateKey::OldSelectedMonth,
    ];
    let ghost l = cs@.subrange(a as int, b as int);
    assert(keys@ =~= key_order());
    let mut i: usize = 0;
    while i < keys.len()
        invariant
            a <= b <= cs@.len(),
            l == cs@.subrange(a as int, b as int),
            keys@ == key_order(),
            i <= 14,
            key_from(l, 0) == key_from(l, i as int),
        decreases 14 - i,
    {
        let k = keys[i];
        let t = key_str(k);
        if range_starts_with(cs, a, b, t) {
            let len = text::chars_of(t).len();
            return Some((k, len));
        }
        i = i + 1;
    }
    None
}

/// `str::parse::<i64>` of `cs[a..b]`.
fn parse_i64_range(cs: &Vec<char>, a: usize, b: usize) -> (r: Option<i64>)
    requires
        a <= b <= cs@.len(),
    ensures
        match r {
            Some(v) => parse_i64(cs@.subrange(a as int, b as int)) == Some(v as int),
            None => parse_i64(cs@.subrange(a as int, b as int)) is None,
        },
{
    match parse_range(cs, a, b, -0x8000_0000_0000_0000, 0x7fff_ffff_ffff_ffff, true) {
        Some(v) => Some(v as i64),
        None => None,
    }
}

/// A month number read from `cs[a..b]` ([`month_number`]).
fn month_number_range(cs: &Vec<char>, a: usize, b: usize) -> (m: usize)
    requires
        a <= b <= cs@.len(),
    ensures
        m == month_number(cs@.subrange(a as int, b as int)),
{
    let (x, y) = text::trim_range(cs, a, b);
    let v: usize = match parse_range(cs, x, y, 0, usize::MAX as i128, false) {
        Some(v) => v as usize,
        None => 0,
    };
    if v < 11 { v } else { 11 }
}

/// Twelve integers from the words of `cs[a..b]` ([`twelve`]).
fn twelve_range(cs: &Vec<char>, a: usize, b: usize) -> (r: Option<[i64; 12]>)
    requires
        a <= b <= cs@.len(),
    ensures
        match r {
            Some(arr) => twelve(cs@.subrange(a as int, b as int)) == Some(ints(arr)),
            None => twelve(cs@.subrange(a as int, b as int)) is None,
        },
{
    let ws = text::words_range(cs, a, b);
    let ghost w = text::words(cs@.subrange(a as int, b as int));
    if ws.len() < 12 {
        return None;
    }
    let mut arr: [i64; 12] = [0; 12];
    let mut m: usize = 0;
    while m < 12
        invariant
            a <= b <= cs@.len(),
            text::ranges_within(ws@, a as int, b as int),
            text::range_texts(cs@, ws@) == w,
            ws@.len() >= 12,
            m <= 12,
            forall|k: int| 0 <= k < m ==> #[trigger] arr[k] as int == or_int(parse_i64(w[k]), 0),
        decreases 12 - m,
    {
        let (x, y) = ws[m];
        assert(w[m as int] == cs@.subrange(x as int, y as int));
        let v = match parse_i64_range(cs, x, y) {
            Some(v) => v,
            None => 0,
        };
        arr[m] = v;
        m = m + 1;
    }
    assert(ints(arr) =~= Seq::new(12, |k: int| or_int(parse_i64(w[k]), 0)));
    Some(arr)
}

/// The period of a `period` record `cs[a..b]` ([`period_of`]).
fn period_range(cs: &Vec<char>, a: usize, b: usize) -> (p: Period)
    requires
        a <= b <= cs@.len(),
    ensures
        p == period_of(cs@.subrange(a as int, b as int)),
{
    let (x, y) = text::trim_range(cs, a, b);
    let full = text::chars_of("FullYear");
    if range_is(cs, x, y, &full) {
        return Period::FullYear;
    }
    if range_starts_with(cs, x, y, "Month ") {
        proof {
            reveal_strlit("Month ");
        }
        assert(cs@.subrange(x as int, y as int).skip(6) =~= cs@.subrange(x + 6, y as int));
        return Period::Month(month_number_range(cs, x + 6, y));
    }
    Period::FullYear
}

impl Reader {
    /// Apply the keyed record `k` whose text after the key is `cs[a..b]`.
    fn apply_key(&mut self, k: StateKey, cs: &Vec<char>, a: usize, b: usize)
        requires
            a <= b <= cs@.len(),
        ensures
            final(self).model() == apply_key(old(self).model(), k, cs@.subrange(a as int, b as int)),
            final(self).st.monthly_pct == old(self).st.monthly_pct,
            final(self).st.month_locked == old(self).st.month_locked,
            final(self).st.yearly_locked == old(self).st.yearly_locked,
    {
        let ghost rest = cs@.subrange(a as int, b as int);
        let (x, y) = text::trim_range(cs, a, b);
        let v = parse_i64_range(cs, x, y);
        match k {
            StateKey::MinWorkdayHours | StateKey::OldWorkdayHours => {
                if let Some(v) = v {
                    self.st.settings.min_workday_hours = v;
                }
                self.found = true;
            },
            StateKey::MinParallel | StateKey::OldParallel => {
                if let Some(v) = v {
                    self.st.settings.min_parallel = v;
                }
                self.found = true;
            },
            StateKey::MinMonthlyNetProfit | StateKey::OldMonthlyGoal => {
                if let Some(v) = v {
                    self.st.settings.min_monthly_net_profit = v;
                }
                self.found = true;
            },
            StateKey::TargetYearlyNetProfit | StateKey::OldYearlyGoal => {
                if let Some(v) = v {
                    self.st.settings.target_yearly_net_profit = v;
                }
                self.found = true;
            },
            StateKey::MonthWorkday => {
                if let Some(arr) = twelve_range(cs, a, b) {
                    self.st.month_overrides.workday = arr;
                    self.found = true;
                }
            },
            StateKey::MonthParallel => {
                if let Some(arr) = twelve_range(cs, a, b) {
                    self.st.month_overrides.parallel = arr;
                    self.found = true;
                }
            },
            StateKey::MonthNetProfit => {
                if let Some(arr) = twelve_range(cs, a, b) {
                    self.st.month_overrides.net_profit = arr;
                    self.found = true;
                }
            },
            StateKey::MonthFixCosts => {
                if let Some(arr) = twelve_range(cs, a, b) {
                    self.st.month_overrides.fix_costs = arr;
                    self.found = true;
                }
            },
            StateKey::Period => {
                self.st.period = period_range(cs, a, b);
                self.found = true;
            },
            StateKey::OldSelectedMonth => {
                self.old_month = Some(month_number_range(cs, a, b));
                self.found = true;
            },
        }
        assert(self.model() =~= apply_key(old(self).model(), k, rest));
    }
}

/// The characters of each file name.
pub open spec fn char_views(v: Seq<Vec<char>>) -> Seq<Seq<char>> {
    v.map_values(|f: Vec<char>| f@)
}

proof fn lemma_file_index(files: Seq<Seq<char>>, name: Seq<char>, k: int)
    ensures
        file_index(files, name, k) matches Some(i) ==> 0 <= k <= i < files.len() && files[i] == name,
    decreases files.len() - k,
{
    if 0 <= k < files.len() && files[k] != name {
        lemma_file_index(files, name, k + 1);
    }
}

/// Position of the first file named `cs[a..b]`.
fn find_file(files: &Vec<Vec<char>>, cs: &Vec<char>, a: usize, b: usize) -> (r: Option<usize>)
    requires
        a <= b <= cs@.len(),
    ensures
        match r {
            Some(i) => file_index(char_views(files@), cs@.subrange(a as int, b as int), 0) == Some(i as int),
            None => file_index(char_views(files@), cs@.subrange(a as int, b as int), 0) is None,
        },
{
    let ghost fv = char_views(files@);
    let ghost name = cs@.subrange(a as int, b as int);
    let mut i: usize = 0;
    while i < files.len()
        invariant
            a <= b <= cs@.len(),
            fv == char_views(files@),
            name == cs@.subrange(a as int, b as int),
            i <= files@.len(),
            file_index(fv, name, 0) == file_index(fv, name, i as int),
        decreases files@.len() - i,
    {
        if range_is(cs, a, b, &files[i]) {
            return Some(i);
        }
        i = i + 1;
    }
    None
}

impl Reader {
    /// Apply the product record `cs[a..b]` ([`apply_product`]).
    fn apply_product(&mut self, cs: &Vec<char>, a: usize, b: usize, files: &Vec<Vec<char>>)
        requires
            a <= b <= cs@.len(),
            old(self).st.monthly_pct@.len() == files@.len(),
            old(self).st.month_locked@.len() == files@.len(),
            old(self).st.yearly_locked@.len() == files@.len(),
        ensures
            final(self).model() == apply_product(old(self).model(), cs@.subrange(a as int, b as int), char_views(files@)),
            final(self).st.monthly_pct@.len() == files@.len(),
            final(self).st.month_locked@.len() == files@.len(),
            final(self).st.yearly_locked@.len() == files@.len(),
    {
        let ghost l = cs@.subrange(a as int, b as int);
        let ghost w = text::words(l);
        let ws = text::words_range(cs, a, b);
        if ws.len() < 26 {
            return;
        }
        assert(w[0] == cs@.subrange(ws@[0].0 as int, ws@[0].1 as int));
        let idx = match find_file(files, cs, ws[0].0, ws[0].1) {
            Some(i) => i,
            None => {
                return;
            },
        };
        proof {
            lemma_file_index(char_views(files@), w[0], 0);
        }
        let one = text::chars_of("1");
        let mut pct: [i64; 12] = [0; 12];
        let mut ml: [bool; 12] = [false; 12];
        let mut m: usize = 0;
        while m < 12
            invariant
                a <= b <= cs@.len(),
                text::ranges_within(ws@, a as int, b as int),
                text::range_texts(cs@, ws@) == w,
                ws@.len() >= 26,
                one@ == "1"@,
                m <= 12,
                forall|k: int| 0 <= k < m ==> #[trigger] pct[k] as int == or_int(parse_i64(w[1 + k]), 0),
                forall|k: int| 0 <= k < m ==> #[trigger] ml[k] == (w[13 + k] == "1"@),
            decreases 12 - m,
        {
            let (x, y) = ws[1 + m];
            assert(w[1 + m] == cs@.subrange(x as int, y as int));
            pct[m] = match parse_i64_range(cs, x, y) {
                Some(v) => v,
                None => 0,
            };
            let (x2, y2) = ws[13 + m];
            assert(w[13 + m] == cs@.subrange(x2 as int, y2 as int));
            ml[m] = range_is(cs, x2, y2, &one);
            m = m + 1;
        }
        let (x3, y3) = ws[25];
        assert(w[25] == cs@.subrange(x3 as int, y3 as int));
        let yl = range_is(cs, x3, y3, &one);
        let ghost before = self.model();
        self.st.monthly_pct.set(idx, pct);
        self.st.month_locked.set(idx, ml);
        self.st.yearly_locked.set(idx, yl);
        self.found = true;
        proof {
            assert(ints(pct) =~= Seq::new(12, |k: int| or_int(parse_i64(w[1 + k]), 0)));
            assert(flags(ml) =~= Seq::new(12, |k: int| w[13 + k] == "1"@));
            assert(self.model().pct =~= before.pct.update(idx as int, ints(pct)));
            assert(self.model().mlock =~= before.mlock.update(idx as int, flags(ml)));
            assert(self.model() =~= apply_product(before, l, char_views(files@)));
        }
    }
}

// ---------------------------------------------------------------------------
// Reading: settling the result
// ---------------------------------------------------------------------------

/// `v` kept within the range of `i64`.
pub open spec fn sat(v: int) -> int {
    if v > i64::MAX { i64::MAX as int } else if v < i64::MIN { i64::MIN as int } else { v }
}

/// Sum of a sequence of integers.
pub open spec fn seq_sum(s: Seq<int>) -> int
    decreases s.len(),
{
    if s.len() == 0 {
        0
    } else {
        seq_sum(s.drop_last()) + s.last()
    }
}

/// Month `m` of every product.
pub open spec fn column(pct: Seq<Seq<int>>, m: int) -> Seq<int> {
    Seq::new(pct.len(), |i: int| pct[i][m])
}

/// The first product from `k` on that is locked neither in month `m` nor
/// for the year.
pub open spec fn first_free(mlock: Seq<Seq<bool>>, ylock: Seq<bool>, m: int, k: int) -> Option<int>
    decreases mlock.len() - k,
{
    if k < 0 || k >= mlock.len() {
        None
    } else if !mlock[k][m] && !ylock[k] {
        Some(k)
    } else {
        first_free(mlock, ylock, m, k + 1)
    }
}

/// The month's shares scaled to [`PCT_TOTAL`]: each rounded to the nearest
/// tenth (halves away from zero), the rounding difference given to the
/// first unlocked product (the first product when all are locked). A month
/// that adds up to nothing or less is split equally; one that already adds
/// up to [`PCT_TOTAL`] is kept.
pub open spec fn normalized(c: Seq<int>, free: Option<int>) -> Seq<int> {
    let n = c.len();
    let sum = seq_sum(c);
    if sum == PCT_TOTAL {
        c
    } else if sum > 0 {
        let r = scaled(c, sum);
        let diff = PCT_TOTAL - seq_sum(r);
        if diff != 0 && n > 0 {
            let i = or_int(free, 0);
            r.update(i, sat(r[i] + diff))
        } else {
            r
        }
    } else if n > 0 {
        Seq::new(n, |i: int| split_value(n as int, i))
    } else {
        c
    }
}

/// Every share of `c` scaled by `PCT_TOTAL / sum` and rounded.
pub open spec fn scaled(c: Seq<int>, sum: int) -> Seq<int> {
    Seq::new(c.len(), |i: int| sat(round_div(c[i] * PCT_TOTAL, sum)))
}

/// The read model settled: the older selected month becomes the period when
/// no newer period was read, every override is raised to its minimum, and
/// every month's shares are scaled to add up to [`PCT_TOTAL`].
pub open spec fn settle(st: LoadModel) -> LoadModel {
    LoadModel {
        pct: Seq::new(st.pct.len(), |i: int| Seq::new(12, |m: int|
            normalized(column(st.pct, m), first_free(st.mlock, st.ylock, m, 0))[i])),
        workday: Seq::new(12, |m: int| max_int(st.workday[m], st.min_workday)),
        parallel: Seq::new(12, |m: int| max_int(st.parallel[m], st.min_parallel)),
        net_profit: Seq::new(12, |m: int| max_int(st.net_profit[m], st.min_net_profit)),
        period: if st.period == Period::FullYear && st.old_month is Some {
            Period::Month(st.old_month->0 as usize)
        } else {
            st.period
        },
        old_month: None,
        ..st
    }
}

/// What reading `content` gives for the product files `files`: nothing
/// when no line was usable, else the settled model.
pub open spec fn load_result(content: Seq<char>, files: Seq<Seq<char>>) -> Option<LoadModel> {
    let st = read_lines(text::lines(content), files);
    if st.found { Some(settle(st)) } else { None }
}

/// The shares as integers.
pub open spec fn pct_view(v: Seq<[i64; 12]>) -> Seq<Seq<int>> {
    v.map_values(|a: [i64; 12]| ints(a))
}

/// The month locks as flags.
pub open spec fn lock_view(v: Seq<[bool; 12]>) -> Seq<Seq<bool>> {
    v.map_values(|a: [bool; 12]| flags(a))
}

/// Writes one share.
fn set_cell(v: &mut Vec<[i64; 12]>, i: usize, m: usize, x: i64)
    requires
        i < old(v)@.len(),
        m < 12,
    ensures
        final(v)@.len() == old(v)@.len(),
        pct_view(final(v)@) == pct_view(old(v)@).update(i as int, pct_view(old(v)@)[i as int].update(m as int, x as int)),
{
    let mut row = v[i];
    row[m] = x;
    v.set(i, row);
    assert(ints(row) =~= ints(old(v)@[i as int]).update(m as int, x as int));
    assert(pct_view(v@) =~= pct_view(old(v)@).update(i as int, pct_view(old(v)@)[i as int].update(m as int, x as int)));
}

/// `v` kept within the range of `i64`.
fn sat_i64(v: i128) -> (r: i64)
    ensures
        r == sat(v as int),
{
    if v > 0x7fff_ffff_ffff_ffff {
        0x7fff_ffff_ffff_ffff
    } else if v < -0x8000_0000_0000_0000 {
        -0x8000_0000_0000_0000
    } else {
        v as i64
    }
}

/// `v + d` kept within the range of `i64`.
fn sat_add(v: i64, d: i128) -> (r: i64)
    ensures
        r == sat(v + d),
{
    if d > 0x1_0000_0000_0000_0000 {
        0x7fff_ffff_ffff_ffff
    } else if d < -0x1_0000_0000_0000_0000 {
        -0x8000_0000_0000_0000
    } else {
        sat_i64(v as i128 + d)
    }
}

/// `x / s` rounded to the nearest integer, halves away from zero
/// ([`round_div`]).
fn round_quotient(x: i128, s: i128) -> (q: i128)
    requires
        s > 0,
        -0x1_0000_0000_0000_0000_0000_0000 <= x <= 0x1_0000_0000_0000_0000_0000_0000,
    ensures
        q == round_div(x as int, s as int),
{
    let a: i128 = if x >= 0 { x } else { -x };
    let q0 = a / s;
    let r = a % s;
    proof {
        crate::plan::lemma_round_div_split(a as int, s as int);
    }
    let t: i128 = if r >= s - r { q0 + 1 } else { q0 };
    if x >= 0 {
        t
    } else {
        -t
    }
}

/// The first product from 0 on that is editable in month `m`.
fn find_free(ml: &Vec<[bool; 12]>, yl: &Vec<bool>, m: usize) -> (r: Option<usize>)
    requires
        ml@.len() == yl@.len(),
        m < 12,
    ensures
        match r {
            Some(i) => first_free(lock_view(ml@), yl@, m as int, 0) == Some(i as int) && i < ml@.len(),
            None => first_free(lock_view(ml@), yl@, m as int, 0) is None,
        },
{
    let ghost lv = lock_view(ml@);
    let mut i: usize = 0;
    while i < ml.len()
        invariant
            ml@.len() == yl@.len(),
            m < 12,
            lv == lock_view(ml@),
            i <= ml@.len(),
            first_free(lv, yl@, m as int, 0) == first_free(lv, yl@, m as int, i as int),
        decreases ml@.len() - i,
    {
        assert(lv[i as int][m as int] == ml@[i as int][m as int]);
        if !ml[i][m] && !yl[i] {
            return Some(i);
        }
        i = i + 1;
    }
    None
}

proof fn lemma_seq_sum_step(s: Seq<int>, i: int)
    requires
        0 <= i < s.len(),
    ensures
        seq_sum(s.take(i + 1)) == seq_sum(s.take(i)) + s[i],
{
    assert(s.take(i + 1).drop_last() =~= s.take(i));
}

/// Scales month `m` of the shares to add up to [`PCT_TOTAL`]
/// ([`normalized`]).
fn normalize_month(pct: &mut Vec<[i64; 12]>, ml: &Vec<[bool; 12]>, yl: &Vec<bool>, m: usize)
    requires
        old(pct)@.len() == ml@.len(),
        ml@.len() == yl@.len(),
        m < 12,
    ensures
        final(pct)@.len() == old(pct)@.len(),
        column(pct_view(final(pct)@), m as int) == normalized(
            column(pct_view(old(pct)@), m as int),
            first_free(lock_view(ml@), yl@, m as int, 0),
        ),
        forall|i: int, k: int| 0 <= i < old(pct)@.len() && 0 <= k < 12 && k != m ==> #[trigger] pct_view(final(pct)@)[i][k]
            == pct_view(old(pct)@)[i][k],
{
    let n = pct.len();
    let ghost c = column(pct_view(pct@), m as int);
    let ghost p0 = pct_view(pct@);
    let mut sum: i128 = 0;
    let mut i: usize = 0;
    while i < n
        invariant
            n == pct@.len(),
            m < 12,
            c == column(pct_view(pct@), m as int),
            i <= n,
            sum == seq_sum(c.take(i as int)),
            -(i as int) * 0x8000_0000_0000_0000 <= sum <= (i as int) * 0x8000_0000_0000_0000,
        decreases n - i,
    {
        proof {
            lemma_seq_sum_step(c, i as int);
        }
        sum = sum + pct[i][m] as i128;
        i = i + 1;
    }
    assert(c.take(n as int) =~= c);
    if sum == 1000 {
        return;
    }
    if sum > 0 {
        let ghost r = scaled(c, sum as int);
        let mut ns: i128 = 0;
        let mut i: usize = 0;
        while i < n
            invariant
                n == pct@.len(),
                m < 12,
                sum > 0,
                c.len() == n,
                r == scaled(c, sum as int),
                i <= n,
                ns == seq_sum(r.take(i as int)),
                -(i as int) * 0x8000_0000_0000_0000 <= ns <= (i as int) * 0x8000_0000_0000_0000,
                forall|q: int| 0 <= q < i ==> #[trigger] pct_view(pct@)[q][m as int] == r[q],
                forall|q: int| i <= q < n ==> #[trigger] pct_view(pct@)[q] == p0[q],
                forall|q: int, k: int| 0 <= q < n && 0 <= k < 12 && k != m ==> #[trigger] pct_view(pct@)[q][k] == p0[q][k],
                c == column(p0, m as int),
                p0.len() == n,
            decreases n - i,
        {
            let x: i128 = pct[i][m] as i128 * 1000;
            assert(pct_view(pct@)[i as int][m as int] == c[i as int]);
            let q = round_quotient(x, sum);
            assert(x == c[i as int] * PCT_TOTAL);
            let v = sat_i64(q);
            proof {
                lemma_seq_sum_step(r, i as int);
            }
            ns = ns + v as i128;
            set_cell(pct, i, m, v);
            i = i + 1;
        }
        assert(r.take(n as int) =~= r);
        let diff: i128 = 1000 - ns;
        if diff != 0 && n > 0 {
            let f = find_free(ml, yl, m);
            let k: usize = match f {
                Some(k) => k,
                None => 0,
            };
            assert(column(pct_view(pct@), m as int) =~= r);
            let v = sat_add(pct[k][m], diff);
            set_cell(pct, k, m, v);
            assert(column(pct_view(pct@), m as int) =~= r.update(k as int, sat(r[k as int] + diff)));
        } else {
            assert(column(pct_view(pct@), m as int) =~= r);
        }
    } else if n > 0 {
        let d: i128 = n as i128;
        let big = n > 2000;
        let base: i128 = if big { 0 } else { 1000 / d };
        let extra: i128 = if big { 1000 } else { 1000 % d };
        proof {
            if big {
                assert((PCT_TOTAL as int) / (n as int) == 0) by (nonlinear_arith)
                    requires n > 2000;
                assert((PCT_TOTAL as int) % (n as int) == 1000) by (nonlinear_arith)
                    requires n > 2000;
            }
        }
        let mut i: usize = 0;
        while i < n
            invariant
                n == pct@.len(),
                n > 0,
                m < 12,
                i <= n,
                base == (PCT_TOTAL as int) / (n as int),
                extra == (PCT_TOTAL as int) % (n as int),
                0 <= base <= 1000,
                forall|q: int| 0 <= q < i ==> #[trigger] pct_view(pct@)[q][m as int] == split_value(n as int, q),
                forall|q: int, k: int| 0 <= q < n && 0 <= k < 12 && k != m ==> #[trigger] pct_view(pct@)[q][k] == p0[q][k],
                p0.len() == n,
            decreases n - i,
        {
            let v: i128 = if (i as i128) < extra { base + 1 } else { base };
            set_cell(pct, i, m, v as i64);
            i = i + 1;
        }
        assert(column(pct_view(pct@), m as int) =~= Seq::new(n as nat, |q: int| split_value(n as int, q)));
    } else {
        assert(column(pct_view(pct@), m as int) =~= c);
    }
}

impl Reader {
    /// Apply the line `cs[a..b]` ([`read_line`]).
    fn read_line(&mut self, cs: &Vec<char>, a: usize, b: usize, files: &Vec<Vec<char>>)
        requires
            a <= b <= cs@.len(),
            old(self).st.monthly_pct@.len() == files@.len(),
            old(self).st.month_locked@.len() == files@.len(),
            old(self).st.yearly_locked@.len() == files@.len(),
        ensures
            final(self).model() == read_line(old(self).model(), cs@.subrange(a as int, b as int), char_views(files@)),
            final(self).st.monthly_pct@.len() == files@.len(),
            final(self).st.month_locked@.len() == files@.len(),
            final(self).st.yearly_locked@.len() == files@.len(),
    {
        let (x, y) = text::trim_range(cs, a, b);
        let ghost l = cs@.subrange(x as int, y as int);
        if x == y {
            return;
        }
        assert(l[0] == cs@[x as int]);
        if cs[x] == '#' {
            return;
        }
        match match_key(cs, x, y) {
            Some((k, len)) => {
                assert(l.skip(len as int) =~= cs@.subrange(x + len, y as int));
                self.apply_key(k, cs, x + len, y);
            },
            None => {
                self.apply_product(cs, x, y, files);
            },
        }
    }
}

/// Reads a state file's `content` for the product files `files` (by file
/// name): `None` when no line was usable; otherwise the shares, locks,
/// settings, overrides and period it holds, with every override raised to
/// its minimum and every month's shares scaled to add up to [`PCT_TOTAL`]
/// (products may have been added or removed since it was written).
/// Entries for files that are not current products are ignored; current
/// products without an entry start at zero.
pub fn load_state_text(content: &str, files: &Vec<String>) -> (r: Option<LoadedState>)
    ensures
        match (r, load_result(content@, files@.map_values(|f: String| f@))) {
            (Some(ls), Some(m)) => ls.model(true, None) == m && ls.monthly_pct@.len() == files@.len()
                && ls.month_locked@.len() == files@.len() && ls.yearly_locked@.len() == files@.len(),
            (None, None) => true,
            _ => false,
        },
{
    let n = files.len();
    let mut fcs: Vec<Vec<char>> = Vec::new();
    let mut i: usize = 0;
    while i < n
        invariant
            n == files@.len(),
            i <= n,
            fcs@.len() == i,
            forall|j: int| 0 <= j < i ==> #[trigger] fcs@[j]@ == files@[j]@,
        decreases n - i,
    {
        fcs.push(text::chars_of(files[i].as_str()));
        i = i + 1;
    }
    let ghost fv = char_views(fcs@);
    assert(fv =~= files@.map_values(|f: String| f@));
    let cs = text::chars_of(content);
    let len = cs.len();
    let end = if len > 0 && cs[len - 1] == '\n' { len - 1 } else { len };
    let line_rs: Vec<(usize, usize)> = if len == 0 {
        Vec::new()
    } else {
        text::split_range(&cs, 0, end, '\n')
    };
    let ghost ls = text::range_texts(cs@, line_rs@);
    proof {
        if len == 0 {
            assert(ls =~= text::lines(content@));
        } else {
            if cs@[len - 1] == '\n' {
                assert(cs@.subrange(0, end as int) =~= content@.drop_last());
            } else {
                assert(cs@.subrange(0, end as int) =~= content@);
            }
        }
    }
    let mut rd = Reader {
        st: LoadedState {
            monthly_pct: vec_of_rows(n, [0i64; 12]),
            month_locked: vec_of_flag_rows(n),
            yearly_locked: vec_of_false(n),
            settings: GlobalSettings::defaults(),
            month_overrides: MonthOverrides::default(),
            period: Period::FullYear,
        },
        old_month: None,
        found: false,
    };
    proof {
        let sm = start_model(n as nat);
        let md = rd.model();
        assert forall|q: int| 0 <= q < n implies #[trigger] md.pct[q] =~= sm.pct[q] by {}
        assert forall|q: int| 0 <= q < n implies #[trigger] md.mlock[q] =~= sm.mlock[q] by {}
        assert(md.pct =~= sm.pct);
        assert(md.mlock =~= sm.mlock);
        assert(md.ylock =~= sm.ylock);
        assert(md.workday =~= sm.workday);
        assert(md.parallel =~= sm.parallel);
        assert(md.net_profit =~= sm.net_profit);
        assert(md.fix_costs =~= sm.fix_costs);
        assert(md =~= sm);
        assert(ls.take(0) =~= Seq::<Seq<char>>::empty());
    }
    let mut idx: usize = 0;
    while idx < line_rs.len()
        invariant
            len == cs@.len(),
            idx <= line_rs@.len(),
            n == fcs@.len(),
            fv == char_views(fcs@),
            text::ranges_within(line_rs@, 0, len as int),
            ls == text::range_texts(cs@, line_rs@),
            rd.model() == read_lines(ls.take(idx as int), fv),
            rd.st.monthly_pct@.len() == n,
            rd.st.month_locked@.len() == n,
            rd.st.yearly_locked@.len() == n,
        decreases line_rs@.len() - idx,
    {
        assert(ls.take(idx + 1).drop_last() =~= ls.take(idx as int));
        assert(ls.take(idx + 1).last() == cs@.subrange(line_rs@[idx as int].0 as int, line_rs@[idx as int].1 as int));
        rd.read_line(&cs, line_rs[idx].0, line_rs[idx].1, &fcs);
        idx = idx + 1;
    }
    assert(ls.take(line_rs@.len() as int) =~= ls);
    if !rd.found {
        return None;
    }
    let ghost st = rd.model();
    let mut out = rd.st;
    if out.period == Period::FullYear {
        if let Some(m) = rd.old_month {
            out.period = Period::Month(m);
        }
    }
    let mut wd = out.month_overrides.workday;
    raise_to(&mut wd, out.settings.min_workday_hours);
    let mut pa = out.month_overrides.parallel;
    raise_to(&mut pa, out.settings.min_parallel);
    let mut np = out.month_overrides.net_profit;
    raise_to(&mut np, out.settings.min_monthly_net_profit);
    out.month_overrides = MonthOverrides { workday: wd, parallel: pa, net_profit: np, fix_costs: out.month_overrides.fix_costs };
    let ghost mo = out.month_overrides;
    let ghost gs = out.settings;
    let ghost pd = out.period;
    let mut m: usize = 0;
    while m < 12
        invariant
            out.month_overrides == mo,
            out.settings == gs,
            out.period == pd,
            m <= 12,
            out.monthly_pct@.len() == n,
            out.month_locked@.len() == n,
            out.yearly_locked@.len() == n,
            st.pct.len() == n,
            lock_view(out.month_locked@) == st.mlock,
            out.yearly_locked@ == st.ylock,
            forall|q: int, k: int| 0 <= q < n && m <= k < 12 ==> #[trigger] pct_view(out.monthly_pct@)[q][k] == st.pct[q][k],
            forall|q: int, k: int| 0 <= q < n && 0 <= k < m ==> #[trigger] pct_view(out.monthly_pct@)[q][k]
                == normalized(column(st.pct, k), first_free(st.mlock, st.ylock, k, 0))[q],
        decreases 12 - m,
    {
        let ghost before = pct_view(out.monthly_pct@);
        assert(column(before, m as int) =~= column(st.pct, m as int));
        normalize_month(&mut out.monthly_pct, &out.month_locked, &out.yearly_locked, m);
        proof {
            assert forall|q: int| 0 <= q < n implies #[trigger] pct_view(out.monthly_pct@)[q][m as int]
                == normalized(column(st.pct, m as int), first_free(st.mlock, st.ylock, m as int, 0))[q] by {
                assert(column(pct_view(out.monthly_pct@), m as int)[q] == pct_view(out.monthly_pct@)[q][m as int]);
            }
        }
        m = m + 1;
    }
    proof {
        let fin = out.model(true, None);
        let want = settle(st);
        assert(fin.pct =~= want.pct) by {
            assert forall|q: int| 0 <= q < n implies #[trigger] fin.pct[q] =~= want.pct[q] by {
                assert forall|k: int| 0 <= k < 12 implies fin.pct[q][k] == want.pct[q][k] by {
                    assert(pct_view(out.monthly_pct@)[q][k] == fin.pct[q][k]);
                }
            }
        }
        assert forall|k: int| 0 <= k < 12 implies #[trigger] fin.workday[k] == want.workday[k] by {
            assert(fin.workday[k] == out.month_overrides.workday[k] as int);
        }
        assert forall|k: int| 0 <= k < 12 implies #[trigger] fin.parallel[k] == want.parallel[k] by {
            assert(fin.parallel[k] == out.month_overrides.parallel[k] as int);
        }
        assert forall|k: int| 0 <= k < 12 implies #[trigger] fin.net_profit[k] == want.net_profit[k] by {
            assert(fin.net_profit[k] == out.month_overrides.net_profit[k] as int);
        }
        assert(fin.workday =~= want.workday);
        assert(fin.parallel =~= want.parallel);
        assert(fin.net_profit =~= want.net_profit);
        assert(fin =~= want);
    }
    Some(out)
}

/// `n` rows of `row`.
fn vec_of_rows(n: usize, row: [i64; 12]) -> (v: Vec<[i64; 12]>)
    ensures
        v@.len() == n,
        forall|i: int| 0 <= i < n ==> #[trigger] v@[i] == row,
{
    let mut v: Vec<[i64; 12]> = Vec::new();
    let mut i: usize = 0;
    while i < n
        invariant
            i <= n,
            v@.len() == i,
            forall|j: int| 0 <= j < i ==> #[trigger] v@[j] == row,
        decreases n - i,
    {
        v.push(row);
        i = i + 1;
    }
    v
}

/// `n` rows of twelve cleared locks.
fn vec_of_flag_rows(n: usize) -> (v: Vec<[bool; 12]>)
    ensures
        v@.len() == n,
        forall|i: int, m: int| 0 <= i < n && 0 <= m < 12 ==> !(#[trigger] v@[i][m]),
{
    let mut v: Vec<[bool; 12]> = Vec::new();
    let mut i: usize = 0;
    while i < n
        invariant
            i <= n,
            v@.len() == i,
            forall|j: int, m: int| 0 <= j < i && 0 <= m < 12 ==> !(#[trigger] v@[j][m]),
        decreases n - i,
    {
        v.push([false; 12]);
        i = i + 1;
    }
    v
}

/// `n` cleared flags.
fn vec_of_false(n: usize) -> (v: Vec<bool>)
    ensures
        v@.len() == n,
        forall|i: int| 0 <= i < n ==> !(#[trigger] v@[i]),
{
    let mut v: Vec<bool> = Vec::new();
    let mut i: usize = 0;
    while i < n
        invariant
            i <= n,
            v@.len() == i,
            forall|j: int| 0 <= j < i ==> !(#[trigger] v@[j]),
        decreases n - i,
    {
        v.push(false);
        i = i + 1;
    }
    v
}

/// Raises every entry of `a` to at least `lo`.
fn raise_to(a: &mut [i64; 12], lo: i64)
    ensures
        forall|m: int| 0 <= m < 12 ==> #[trigger] final(a)[m] == max_int(old(a)[m] as int, lo as int),
{
    let mut m: usize = 0;
    while m < 12
        invariant
            m <= 12,
            forall|k: int| 0 <= k < m ==> #[trigger] a[k] == max_int(old(a)[k] as int, lo as int),
            forall|k: int| m <= k < 12 ==> #[trigger] a[k] == old(a)[k],
        decreases 12 - m,
    {
        if a[m] < lo {
            a[m] = lo;
        }
        m = m + 1;
    }
}

// ---------------------------------------------------------------------------
// Laws of the settled shares
// ---------------------------------------------------------------------------

proof fn lemma_seq_sum_update(s: Seq<int>, i: int, v: int)
    requires
        0 <= i < s.len(),
    ensures
        seq_sum(s.update(i, v)) == seq_sum(s) - s[i] + v,
    decreases s.len(),
{
    if i < s.len() - 1 {
        assert(s.update(i, v).drop_last() =~= s.drop_last().update(i, v));
        lemma_seq_sum_update(s.drop_last(), i, v);
    } else {
        assert(s.update(i, v).drop_last() =~= s.drop_last());
    }
}

proof fn lemma_split_seq_sum(n: int, k: int)
    requires
        0 <= k <= n,
    ensures
        seq_sum(Seq::new(n as nat, |i: int| split_value(n, i)).take(k)) == crate::plan::split_sum(n, k),
    decreases k,
{
    if k > 0 {
        let s = Seq::new(n as nat, |i: int| split_value(n, i));
        assert(s.take(k).drop_last() =~= s.take(k - 1));
        lemma_split_seq_sum(n, k - 1);
    }
}

/// The rounding difference can be added to the product that takes it
/// without leaving the range of `i64`.
pub open spec fn normalize_fits(c: Seq<int>, free: Option<int>) -> bool {
    let sum = seq_sum(c);
    let r = scaled(c, sum);
    let i = or_int(free, 0);
    sum > 0 && sum != PCT_TOTAL ==> i64::MIN <= r[i] + (PCT_TOTAL - seq_sum(r)) <= i64::MAX
}

/// Law: a month of one or more products, once settled, adds up to
/// [`PCT_TOTAL`], unless the rounding difference would push a share out of
/// the range of `i64`.
pub proof fn lemma_normalized_total(c: Seq<int>, free: Option<int>)
    requires
        c.len() > 0,
        free matches Some(i) ==> 0 <= i < c.len(),
        normalize_fits(c, free),
    ensures
        seq_sum(normalized(c, free)) == PCT_TOTAL,
{
    let n = c.len();
    let sum = seq_sum(c);
    if sum == PCT_TOTAL {
    } else if sum > 0 {
        let r = scaled(c, sum);
        let diff = PCT_TOTAL - seq_sum(r);
        if diff != 0 {
            let i = or_int(free, 0);
            lemma_seq_sum_update(r, i, sat(r[i] + diff));
        }
    } else {
        let s = Seq::new(n as nat, |i: int| split_value(n as int, i));
        lemma_split_seq_sum(n as int, n as int);
        assert(s.take(n as int) =~= s);
        crate::plan::lemma_equal_split_total(n as int);
    }
}

/// A share that is not negative, among shares that are not negative, is at
/// most their sum.
proof fn lemma_share_below_sum(c: Seq<int>, j: int)
    requires
        forall|k: int| 0 <= k < c.len() ==> c[k] >= 0,
        0 <= j < c.len(),
    ensures
        0 <= c[j] <= seq_sum(c),
        seq_sum(c) >= 0,
    decreases c.len(),
{
    let d = c.drop_last();
    assert forall|k: int| 0 <= k < d.len() implies d[k] >= 0 by {
        assert(d[k] == c[k]);
    }
    assert(c.last() == c[c.len() - 1]);
    if d.len() > 0 {
        lemma_share_below_sum(d, 0);
    } else {
        assert(seq_sum(d) == 0);
    }
    if j < c.len() - 1 {
        lemma_share_below_sum(d, j);
        assert(d[j] == c[j]);
    }
}

/// Rounding `a / s` to the nearest whole number lands within half of `a / s`.
proof fn lemma_round_div_near(a: int, s: int)
    requires
        a >= 0,
        s > 0,
    ensures
        -s < 2 * (round_div(a, s) * s - a) <= s,
{
    let q = round_div(a, s);
    let x = 2 * a + s;
    vstd::arithmetic::div_mod::lemma_fundamental_div_mod(x, 2 * s);
    vstd::arithmetic::div_mod::lemma_mod_pos_bound(x, 2 * s);
    assert(q == x / (2 * s));
    let r = x % (2 * s);
    assert(x == (2 * s) * q + r);
    assert(2 * (q * s - a) == s - r) by (nonlinear_arith)
        requires
            x == (2 * s) * q + r,
            x == 2 * a + s;
}

/// Law: re-normalizing a month whose shares are not negative and add up to
/// `s`, with `s > 0` and `s != PCT_TOTAL`, scales the shares by
/// `PCT_TOTAL / s`: every share but the one that takes the rounding
/// difference is the whole number of tenths nearest to its exact scaled
/// value (within half a tenth), so it lies within `0..=PCT_TOTAL`.
pub proof fn lemma_normalized_scales(c: Seq<int>, free: Option<int>, j: int)
    requires
        forall|k: int| 0 <= k < c.len() ==> c[k] >= 0,
        seq_sum(c) > 0,
        seq_sum(c) != PCT_TOTAL,
        0 <= j < c.len(),
        free matches Some(i) ==> 0 <= i < c.len(),
        j != or_int(free, 0),
    ensures
        -seq_sum(c) < 2 * (normalized(c, free)[j] * seq_sum(c) - c[j] * PCT_TOTAL) <= seq_sum(c),
        0 <= normalized(c, free)[j] <= PCT_TOTAL,
{
    let s = seq_sum(c);
    lemma_share_below_sum(c, j);
    let a = c[j] * PCT_TOTAL;
    assert(0 <= a <= s * PCT_TOTAL) by (nonlinear_arith)
        requires
            0 <= c[j] <= s,
            a == c[j] * PCT_TOTAL;
    lemma_round_div_near(a, s);
    let q = round_div(a, s);
    assert(0 <= q <= PCT_TOTAL) by (nonlinear_arith)
        requires
            -s < 2 * (q * s - a) <= s,
            0 <= a <= s * PCT_TOTAL,
            s > 0;
    let r = scaled(c, s);
    assert(r[j] == sat(q));
    assert(r[j] == q);
    let i = or_int(free, 0);
    let diff = PCT_TOTAL - seq_sum(r);
    if diff != 0 && c.len() > 0 {
        assert(normalized(c, free) == r.update(i, sat(r[i] + diff)));
        assert(normalized(c, free)[j] == r[j]);
    }
}

/// Law: a loaded state has every month override at least its minimum: an
/// override read below its minimum is raised to it, one at or above it is
/// kept, and the minimums are those read.
pub proof fn lemma_loaded_overrides_at_minimum(content: Seq<char>, files: Seq<Seq<char>>)
    ensures
        load_result(content, files) matches Some(r) ==> ({
            let st = read_lines(text::lines(content), files);
            &&& r.min_workday == st.min_workday
            &&& r.min_parallel == st.min_parallel
            &&& r.min_net_profit == st.min_net_profit
            &&& r.workday.len() == 12
            &&& r.parallel.len() == 12
            &&& r.net_profit.len() == 12
            &&& forall|m: int| 0 <= m < 12 ==> {
                &&& #[trigger] r.workday[m] >= r.min_workday
                &&& r.parallel[m] >= r.min_parallel
                &&& r.net_profit[m] >= r.min_net_profit
                &&& st.workday[m] >= st.min_workday ==> r.workday[m] == st.workday[m]
                &&& st.parallel[m] >= st.min_parallel ==> r.parallel[m] == st.parallel[m]
                &&& st.net_profit[m] >= st.min_net_profit ==> r.net_profit[m] == st.net_profit[m]
            }
        }),
{
}

/// Reading keeps one share row, one lock row and one yearly lock per file.
proof fn lemma_read_lines_rows(ls: Seq<Seq<char>>, files: Seq<Seq<char>>)
    ensures
        read_lines(ls, files).pct.len() == files.len(),
        read_lines(ls, files).mlock.len() == files.len(),
        read_lines(ls, files).ylock.len() == files.len(),
    decreases ls.len(),
{
    if ls.len() > 0 {
        lemma_read_lines_rows(ls.drop_last(), files);
        let l = text::trim(ls.last());
        let ws = text::words(l);
        if ws.len() > 0 {
            lemma_file_index(files, ws[0], 0);
        }
    }
}

/// The first free product is one of the products.
proof fn lemma_first_free_bound(mlock: Seq<Seq<bool>>, ylock: Seq<bool>, m: int, k: int)
    ensures
        first_free(mlock, ylock, m, k) matches Some(i) ==> 0 <= k <= i < mlock.len(),
    decreases mlock.len() - k,
{
    if 0 <= k < mlock.len() && !(!mlock[k][m] && !ylock[k]) {
        lemma_first_free_bound(mlock, ylock, m, k + 1);
    }
}

/// A month of the state read from `content` whose rounding difference stays
/// within the range of `i64` when it is settled.
pub open spec fn loaded_fits(content: Seq<char>, files: Seq<Seq<char>>, m: int) -> bool {
    let st = read_lines(text::lines(content), files);
    normalize_fits(column(st.pct, m), first_free(st.mlock, st.ylock, m, 0))
}

/// Law: every month of a state read back adds up to [`PCT_TOTAL`] when
/// there is at least one product, whatever products were added or removed
/// since the state was saved, unless the rounding difference would push a
/// share out of the range of `i64`.
pub proof fn lemma_loaded_month_total(content: Seq<char>, files: Seq<Seq<char>>, m: int)
    requires
        files.len() > 0,
        0 <= m < 12,
        loaded_fits(content, files, m),
    ensures
        load_result(content, files) matches Some(r) ==> seq_sum(column(r.pct, m)) == PCT_TOTAL,
{
    let st = read_lines(text::lines(content), files);
    lemma_read_lines_rows(text::lines(content), files);
    let free = first_free(st.mlock, st.ylock, m, 0);
    lemma_first_free_bound(st.mlock, st.ylock, m, 0);
    let c = column(st.pct, m);
    lemma_normalized_total(c, free);
    if st.found {
        let r = settle(st);
        let nc = normalized(c, free);
        assert(nc.len() == c.len());
        assert(column(r.pct, m) =~= nc);
    }
}

// ---------------------------------------------------------------------------
// Writing
// ---------------------------------------------------------------------------

/// Each integer preceded by a space.
pub open spec fn ints_text(a: Seq<int>) -> Seq<char>
    decreases a.len(),
{
    if a.len() == 0 {
        Seq::empty()
    } else {
        ints_text(a.drop_last()) + seq![' '] + text::int_text(a.last())
    }
}

/// Each flag as ` 1` (set) or ` 0`.
pub open spec fn flags_text(a: Seq<bool>) -> Seq<char>
    decreases a.len(),
{
    if a.len() == 0 {
        Seq::empty()
    } else {
        flags_text(a.drop_last()) + if a.last() { " 1"@ } else { " 0"@ }
    }
}

/// The record of product `i` of `s`, stored under file name `file`.
pub open spec fn product_record(s: AppState, i: int, file: Seq<char>) -> Seq<char> {
    file + ints_text(ints(s.monthly_pct@[i])) + flags_text(flags(s.month_locked@[i]))
        + if s.yearly_locked@[i] { " 1"@ } else { " 0"@ } + "\n"@
}

/// The records of the products below `k`.
pub open spec fn product_records(s: AppState, files: Seq<Seq<char>>, k: int) -> Seq<char>
    decreases k,
{
    if k <= 0 {
        Seq::empty()
    } else {
        product_records(s, files, k - 1) + product_record(s, k - 1, files[k - 1])
    }
}

/// The two comment lines the file starts with.
pub open spec fn state_header() -> Seq<char> {
    "# tiny-business-simulator state v2\n# <file> <pct[0..11]> <mlock[0..11]> <ylock>\n"@
}

/// A `<key> <n>` line.
pub open spec fn value_line(k: StateKey, v: i64) -> Seq<char> {
    key_text(k) + text::int_text(v as int) + "\n"@
}

/// A `<key> <n x12>` line.
pub open spec fn twelve_line(key: Seq<char>, a: [i64; 12]) -> Seq<char> {
    key + ints_text(ints(a)) + "\n"@
}

/// The `period` line.
pub open spec fn period_line(p: Period) -> Seq<char> {
    match p {
        Period::FullYear => "period FullYear\n"@,
        Period::Month(m) => "period Month "@ + text::int_text(m as int) + "\n"@,
    }
}

/// The whole state file of `s`, the products stored under `files`.
pub open spec fn state_text(s: AppState, files: Seq<Seq<char>>) -> Seq<char> {
    state_header() + product_records(s, files, s.n()) + settings_text(s)
}

/// Appends ` v` for every entry of `a`.
fn push_ints(out: &mut String, a: &[i64; 12])
    ensures
        final(out)@ == old(out)@ + ints_text(ints(*a)),
{
    let mut m: usize = 0;
    while m < 12
        invariant
            m <= 12,
            out@ == old(out)@ + ints_text(ints(*a).take(m as int)),
        decreases 12 - m,
    {
        let ghost before = out@;
        text::push_char(out, ' ');
        let t = text::i64_text(a[m]);
        text::push_str(out, t.as_str());
        proof {
            let s = ints(*a).take(m + 1);
            assert(s.drop_last() =~= ints(*a).take(m as int));
            assert(s.last() == a[m as int] as int);
            assert(out@ =~= old(out)@ + ints_text(s));
        }
        m = m + 1;
    }
    assert(ints(*a).take(12) =~= ints(*a));
}

/// Appends ` 1` or ` 0` for every flag of `a`.
fn push_flags(out: &mut String, a: &[bool; 12])
    ensures
        final(out)@ == old(out)@ + flags_text(flags(*a)),
{
    let mut m: usize = 0;
    while m < 12
        invariant
            m <= 12,
            out@ == old(out)@ + flags_text(flags(*a).take(m as int)),
        decreases 12 - m,
    {
        text::push_str(out, if a[m] { " 1" } else { " 0" });
        proof {
            let s = flags(*a).take(m + 1);
            assert(s.drop_last() =~= flags(*a).take(m as int));
            assert(s.last() == a[m as int]);
            assert(out@ =~= old(out)@ + flags_text(s));
        }
        m = m + 1;
    }
    assert(flags(*a).take(12) =~= flags(*a));
}

/// Appends product `i`'s record under file name `file`.
fn push_product_record(out: &mut String, state: &AppState, i: usize, file: &str)
    requires
        state.wf(),
        i < state.n(),
    ensures
        final(out)@ == old(out)@ + product_record(*state, i as int, file@),
{
    text::push_str(out, file);
    push_ints(out, &state.monthly_pct[i]);
    push_flags(out, &state.month_locked[i]);
    text::push_str(out, if state.yearly_locked[i] { " 1" } else { " 0" });
    text::push_str(out, "\n");
    assert(final(out)@ =~= old(out)@ + product_record(*state, i as int, file@));
}

/// The four settings lines of `s`.
pub open spec fn values_text(s: AppState) -> Seq<char> {
    let g = s.settings;
    value_line(StateKey::MinWorkdayHours, g.min_workday_hours) + value_line(StateKey::MinParallel, g.min_parallel)
        + value_line(StateKey::MinMonthlyNetProfit, g.min_monthly_net_profit) + value_line(
        StateKey::TargetYearlyNetProfit,
        g.target_yearly_net_profit,
    )
}

/// The four month-override lines of `s`.
pub open spec fn overrides_text(s: AppState) -> Seq<char> {
    let o = s.month_overrides;
    twelve_line("month_workday"@, o.workday) + twelve_line("month_parallel"@, o.parallel) + twelve_line(
        "month_net_profit"@,
        o.net_profit,
    ) + twelve_line("month_fix_costs"@, o.fix_costs)
}

/// The settings, override and period lines of `s`.
pub open spec fn settings_text(s: AppState) -> Seq<char> {
    values_text(s) + overrides_text(s) + period_line(s.period)
}

/// Appends the four settings lines.
fn push_values(out: &mut String, state: &AppState)
    ensures
        final(out)@ == old(out)@ + values_text(*state),
{
    let g = state.settings;
    let ghost o0 = out@;
    push_value_line(out, "min_workday_hours ", g.min_workday_hours);
    let ghost o1 = out@;
    push_value_line(out, "min_parallel ", g.min_parallel);
    let ghost o2 = out@;
    push_value_line(out, "min_monthly_net_profit ", g.min_monthly_net_profit);
    let ghost o3 = out@;
    push_value_line(out, "target_yearly_net_profit ", g.target_yearly_net_profit);
    proof {
        let a = value_line(StateKey::MinWorkdayHours, g.min_workday_hours);
        let b = value_line(StateKey::MinParallel, g.min_parallel);
        let c = value_line(StateKey::MinMonthlyNetProfit, g.min_monthly_net_profit);
        let d = value_line(StateKey::TargetYearlyNetProfit, g.target_yearly_net_profit);
        assert(o1 =~= o0 + a);
        assert(o2 =~= o1 + b);
        assert(o3 =~= o2 + c);
        assert(out@ =~= o3 + d);
        assert(out@ =~= o0 + (a + b + c + d));
    }
}

/// Appends the four month-override lines.
fn push_overrides(out: &mut String, state: &AppState)
    ensures
        final(out)@ == old(out)@ + overrides_text(*state),
{
    let o = state.month_overrides;
    let ghost o0 = out@;
    push_twelve_line(out, "month_workday", &o.workday);
    let ghost o1 = out@;
    push_twelve_line(out, "month_parallel", &o.parallel);
    let ghost o2 = out@;
    push_twelve_line(out, "month_net_profit", &o.net_profit);
    let ghost o3 = out@;
    push_twelve_line(out, "month_fix_costs", &o.fix_costs);
    proof {
        let a = twelve_line("month_workday"@, o.workday);
        let b = twelve_line("month_parallel"@, o.parallel);
        let c = twelve_line("month_net_profit"@, o.net_profit);
        let d = twelve_line("month_fix_costs"@, o.fix_costs);
        assert(o1 =~= o0 + a);
        assert(o2 =~= o1 + b);
        assert(o3 =~= o2 + c);
        assert(out@ =~= o3 + d);
        assert(out@ =~= o0 + (a + b + c + d));
    }
}

/// Appends the settings, override and period lines.
fn push_settings(out: &mut String, state: &AppState)
    ensures
        final(out)@ == old(out)@ + settings_text(*state),
{
    push_values(out, state);
    push_overrides(out, state);
    let ghost before = out@;
    match state.period {
        Period::FullYear => text::push_str(out, "period FullYear\n"),
        Period::Month(m) => {
            text::push_str(out, "period Month ");
            let t = text::u64_text(m as u64);
            text::push_str(out, t.as_str());
            text::push_str(out, "\n");
        },
    }
    assert(out@ =~= before + period_line(state.period));
    assert(final(out)@ =~= old(out)@ + settings_text(*state));
}

/// The state file text of `state`, each product stored under its file name
/// in `files` (see the module documentation for the format).
pub fn save_state_text(state: &AppState, files: &Vec<String>) -> (out: String)
    requires
        state.wf(),
        files@.len() == state.n(),
    ensures
        out@ == state_text(*state, files@.map_values(|f: String| f@)),
{
    let ghost fv = files@.map_values(|f: String| f@);
    let mut out = String::new();
    text::push_str(&mut out, "# tiny-business-simulator state v2\n# <file> <pct[0..11]> <mlock[0..11]> <ylock>\n");
    assert(out@ =~= state_header() + product_records(*state, fv, 0));
    let n = files.len();
    let mut i: usize = 0;
    while i < n
        invariant
            state.wf(),
            n == state.n(),
            n == files@.len(),
            fv == files@.map_values(|f: String| f@),
            i <= n,
            out@ == state_header() + product_records(*state, fv, i as int),
        decreases n - i,
    {
        push_product_record(&mut out, state, i, files[i].as_str());
        assert(out@ =~= state_header() + product_records(*state, fv, i + 1));
        i = i + 1;
    }
    push_settings(&mut out, state);
    assert(out@ =~= state_text(*state, fv));
    out
}

/// Appends `key`, the value and a line end.
fn push_value_line(out: &mut String, key: &str, v: i64)
    ensures
        final(out)@ == old(out)@ + key@ + text::int_text(v as int) + "\n"@,
{
    text::push_str(out, key);
    let t = text::i64_text(v);
    text::push_str(out, t.as_str());
    text::push_str(out, "\n");
    assert(final(out)@ =~= old(out)@ + key@ + text::int_text(v as int) + "\n"@);
}

/// Appends `key`, the twelve values and a line end.
fn push_twelve_line(out: &mut String, key: &str, a: &[i64; 12])
    ensures
        final(out)@ == old(out)@ + key@ + ints_text(ints(*a)) + "\n"@,
{
    text::push_str(out, key);
    push_ints(out, a);
    text::push_str(out, "\n");
    assert(final(out)@ =~= old(out)@ + key@ + ints_text(ints(*a)) + "\n"@);
}

} // verus!
