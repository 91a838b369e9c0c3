//! Reading back what was written: the state file of a settled state reads
//! back as that state.
use vstd::prelude::*;
use crate::lang::is_digit;
use crate::plan::{valid_period, AppState, Period, PCT_TOTAL};
use crate::state_file::{
    column, load_result, pct_view, seq_sum, settle, LoadedState,
    apply_key, apply_product, file_index, or_int, read_line, read_lines, start_model, twelve, twelve_of, LoadModel,
    ints, flags, overrides_text, period_line, product_record, product_records, settings_text, state_header,
    state_text, twelve_line, value_line, values_text,
    all_digits, digits_value, flags_text, ints_text, key_from, key_order, key_text, parse_i64, parse_usize,
    starts_with, StateKey,
};
use crate::text;
use crate::text::{digit_char, int_text, nat_digits};

verus! {

// ---------------------------------------------------------------------------
// Decimal text reads back as its value
// ---------------------------------------------------------------------------

proof fn lemma_nat_digits(n: nat)
    ensures
        all_digits(nat_digits(n)),
        digits_value(nat_digits(n)) == n,
    decreases n,
{
    if n >= 10 {
        lemma_nat_digits(n / 10);
        let s = nat_digits(n);
        assert(s.drop_last() =~= nat_digits(n / 10));
        assert(s.last() == digit_char(n % 10));
        assert(digit_char(n % 10) as u32 == n % 10 + 48);
        assert(digits_value(s) == digits_value(nat_digits(n / 10)) * 10 + (n % 10));
        assert forall|i: int| 0 <= i < s.len() implies is_digit(#[trigger] s[i]) by {
            if i < s.len() - 1 {
                assert(s[i] == nat_digits(n / 10)[i]);
            }
        }
    } else {
        assert(nat_digits(n).drop_last() =~= Seq::<char>::empty());
        assert(digit_char(n) as u32 == n + 48);
        assert(digits_value(Seq::<char>::empty()) == 0);
    }
}

/// The decimal text of an `i64` parses back to it.
pub proof fn lemma_parse_int_text(v: int)
    requires
        i64::MIN <= v <= i64::MAX,
    ensures
        parse_i64(int_text(v)) == Some(v),
{
    let t = int_text(v);
    if v < 0 {
        lemma_nat_digits((-v) as nat);
        assert(t.skip(1) =~= nat_digits((-v) as nat));
        assert(t[0] == '-');
    } else {
        lemma_nat_digits(v as nat);
        assert(is_digit(t[0]));
    }
}

/// The decimal text of a month index parses back to it as a `usize`.
pub proof fn lemma_parse_usize_text(v: int)
    requires
        0 <= v <= usize::MAX,
    ensures
        parse_usize(int_text(v)) == Some(v),
{
    lemma_nat_digits(v as nat);
    assert(is_digit(int_text(v)[0]));
}

// ---------------------------------------------------------------------------
// Space-separated words read back as themselves
// ---------------------------------------------------------------------------

/// A word: one or more characters, none of them whitespace.
pub open spec fn is_word(w: Seq<char>) -> bool {
    w.len() > 0 && forall|i: int| 0 <= i < w.len() ==> !text::is_ws(#[trigger] w[i])
}

/// Every entry of `ws` is a word.
pub open spec fn all_words(ws: Seq<Seq<char>>) -> bool {
    forall|i: int| 0 <= i < ws.len() ==> is_word(#[trigger] ws[i])
}

/// Each word of `ws` preceded by one space.
pub open spec fn spaced(ws: Seq<Seq<char>>) -> Seq<char>
    decreases ws.len(),
{
    if ws.len() == 0 {
        Seq::empty()
    } else {
        seq![' '] + ws[0] + spaced(ws.drop_first())
    }
}

proof fn lemma_spaced_append(a: Seq<Seq<char>>, b: Seq<Seq<char>>)
    ensures
        spaced(a + b) == spaced(a) + spaced(b),
    decreases a.len(),
{
    if a.len() == 0 {
        assert(a + b =~= b);
    } else {
        assert((a + b).drop_first() =~= a.drop_first() + b);
        lemma_spaced_append(a.drop_first(), b);
    }
}

proof fn lemma_spaced_push(a: Seq<Seq<char>>, w: Seq<char>)
    ensures
        spaced(a.push(w)) == spaced(a) + seq![' '] + w,
{
    lemma_spaced_append(a, seq![w]);
    assert(a.push(w) =~= a + seq![w]);
    assert(seq![w].drop_first() =~= Seq::<Seq<char>>::empty());
    assert(spaced(Seq::<Seq<char>>::empty()) == Seq::<char>::empty());
    assert(spaced(seq![w]) =~= seq![' '] + w);
    assert(spaced(a) + spaced(seq![w]) =~= spaced(a) + seq![' '] + w);
}

/// The words of a word followed by space-separated words are those words.
pub proof fn lemma_words_spaced(w0: Seq<char>, ws: Seq<Seq<char>>)
    requires
        is_word(w0),
        all_words(ws),
    ensures
        text::words(w0 + spaced(ws)) == seq![w0] + ws,
    decreases ws.len(),
{
    let s = w0 + spaced(ws);
    let k = w0.len();
    text::lemma_lead_ws_prefix(s, 0);
    assert(s.skip(0) =~= s);
    if ws.len() > 0 {
        assert(s[k as int] == ' ');
    }
    assert forall|j: int| 0 <= j < k implies !text::is_ws(#[trigger] s[j]) by {
        assert(s[j] == w0[j]);
    }
    text::lemma_run_len_at(s, k);
    assert(s.take(k as int) =~= w0);
    assert(s.skip(k as int) =~= spaced(ws));
    if ws.len() == 0 {
        let e = spaced(ws);
        assert(e.len() == 0);
        assert(text::words(e) == Seq::<Seq<char>>::empty());
        assert(seq![w0] + ws =~= seq![w0]);
    } else {
        let u = spaced(ws);
        let x = ws[0] + spaced(ws.drop_first());
        assert(u =~= seq![' '] + x);
        assert(is_word(ws[0]));
        assert(all_words(ws.drop_first())) by {
            assert forall|i: int| 0 <= i < ws.drop_first().len() implies is_word(#[trigger] ws.drop_first()[i]) by {
                assert(ws.drop_first()[i] == ws[i + 1]);
            }
        }
        lemma_words_spaced(ws[0], ws.drop_first());
        // `u` starts with one space, then the word `ws[0]`.
        assert(u[1] == ws[0][0]);
        text::lemma_lead_ws_prefix(u, 1);
        assert(u.skip(1) =~= x);
        text::lemma_lead_ws_prefix(x, 0);
        assert(x.skip(0) =~= x);
        assert(text::words(u) == text::words(x));
        assert(seq![w0] + ws =~= seq![w0] + (seq![ws[0]] + ws.drop_first()));
    }
}

/// The decimal texts of `a`.
pub open spec fn int_words(a: Seq<int>) -> Seq<Seq<char>> {
    a.map_values(|v: int| int_text(v))
}

/// `1` for a set flag, `0` for a clear one.
pub open spec fn flag_word(b: bool) -> Seq<char> {
    if b { "1"@ } else { "0"@ }
}

/// The flag words of `a`.
pub open spec fn flag_words(a: Seq<bool>) -> Seq<Seq<char>> {
    a.map_values(|b: bool| flag_word(b))
}

/// Decimal text is a word.
pub proof fn lemma_int_text_word(v: int)
    ensures
        is_word(int_text(v)),
{
    let n: nat = if v < 0 { (-v) as nat } else { v as nat };
    lemma_nat_digits(n);
    let t = int_text(v);
    assert forall|i: int| 0 <= i < t.len() implies !text::is_ws(#[trigger] t[i]) by {
        if v < 0 {
            if i > 0 {
                assert(t[i] == nat_digits(n)[i - 1]);
                assert(is_digit(nat_digits(n)[i - 1]));
            }
        } else {
            assert(is_digit(nat_digits(n)[i]));
        }
    }
}

/// A flag word is a word.
pub proof fn lemma_flag_word(b: bool)
    ensures
        is_word(flag_word(b)),
        flag_word(b) == "1"@ <==> b,
{
    reveal_strlit("1");
    reveal_strlit("0");
    if !b {
        assert("0"@[0] != "1"@[0]);
    }
}

proof fn lemma_ints_text(a: Seq<int>)
    ensures
        ints_text(a) == spaced(int_words(a)),
        all_words(int_words(a)),
    decreases a.len(),
{
    if a.len() > 0 {
        lemma_ints_text(a.drop_last());
        assert(int_words(a) =~= int_words(a.drop_last()).push(int_text(a.last())));
        lemma_spaced_push(int_words(a.drop_last()), int_text(a.last()));
        lemma_int_text_word(a.last());
    } else {
        assert(int_words(a) =~= Seq::<Seq<char>>::empty());
    }
    assert forall|i: int| 0 <= i < int_words(a).len() implies is_word(#[trigger] int_words(a)[i]) by {
        lemma_int_text_word(a[i]);
    }
}

proof fn lemma_flags_text(a: Seq<bool>)
    ensures
        flags_text(a) == spaced(flag_words(a)),
        all_words(flag_words(a)),
    decreases a.len(),
{
    reveal_strlit(" 1");
    reveal_strlit(" 0");
    reveal_strlit("1");
    reveal_strlit("0");
    if a.len() > 0 {
        lemma_flags_text(a.drop_last());
        assert(flag_words(a) =~= flag_words(a.drop_last()).push(flag_word(a.last())));
        lemma_spaced_push(flag_words(a.drop_last()), flag_word(a.last()));
        assert((if a.last() { " 1"@ } else { " 0"@ }) =~= seq![' '] + flag_word(a.last()));
    } else {
        assert(flag_words(a) =~= Seq::<Seq<char>>::empty());
    }
    assert forall|i: int| 0 <= i < flag_words(a).len() implies is_word(#[trigger] flag_words(a)[i]) by {
        lemma_flag_word(a[i]);
    }
}

// ---------------------------------------------------------------------------
// Keys
// ---------------------------------------------------------------------------

/// Position of `k` in [`key_order`].
pub open spec fn key_index(k: StateKey) -> int {
    match k {
        StateKey::MinWorkdayHours => 0,
        StateKey::MinParallel => 1,
        StateKey::MinMonthlyNetProfit => 2,
        StateKey::TargetYearlyNetProfit => 3,
        StateKey::MonthWorkday => 4,
        StateKey::MonthParallel => 5,
        StateKey::MonthNetProfit => 6,
        StateKey::MonthFixCosts => 7,
        StateKey::Period => 8,
        StateKey::OldWorkdayHours => 9,
        StateKey::OldParallel => 10,
        StateKey::OldMonthlyGoal => 11,
        StateKey::OldYearlyGoal => 12,
        StateKey::OldSelectedMonth => 13,
    }
}

/// A key's text is a word and one space.
proof fn lemma_key_shape(k: StateKey)
    ensures
        key_text(k).len() >= 2,
        key_text(k).last() == ' ',
        key_text(k)[0] != '#',
        is_word(key_text(k).drop_last()),
        0 <= key_index(k) < 14,
        key_order()[key_index(k)] == k,
{
    reveal_strlit("min_workday_hours ");
    reveal_strlit("min_parallel ");
    reveal_strlit("min_monthly_net_profit ");
    reveal_strlit("target_yearly_net_profit ");
    reveal_strlit("month_workday ");
    reveal_strlit("month_parallel ");
    reveal_strlit("month_net_profit ");
    reveal_strlit("month_fix_costs ");
    reveal_strlit("period ");
    reveal_strlit("workday_hours ");
    reveal_strlit("parallel ");
    reveal_strlit("monthly_goal ");
    reveal_strlit("yearly_goal ");
    reveal_strlit("selected_month ");
    let t = key_text(k);
    assert forall|i: int| 0 <= i < t.len() - 1 implies !text::is_ws(#[trigger] t.drop_last()[i]) by {
        assert(t.drop_last()[i] == t[i]);
    }
}

/// Different keys have different texts.
proof fn lemma_key_injective(a: StateKey, b: StateKey)
    requires
        key_text(a) == key_text(b),
    ensures
        a == b,
{
    reveal_strlit("min_workday_hours ");
    reveal_strlit("min_parallel ");
    reveal_strlit("min_monthly_net_profit ");
    reveal_strlit("target_yearly_net_profit ");
    reveal_strlit("month_workday ");
    reveal_strlit("month_parallel ");
    reveal_strlit("month_net_profit ");
    reveal_strlit("month_fix_costs ");
    reveal_strlit("period ");
    reveal_strlit("workday_hours ");
    reveal_strlit("parallel ");
    reveal_strlit("monthly_goal ");
    reveal_strlit("yearly_goal ");
    reveal_strlit("selected_month ");
    if a != b {
        let ta = key_text(a);
        let tb = key_text(b);
        assert(ta.len() == tb.len());
        assert(forall|i: int| 0 <= i < ta.len() ==> ta[i] == tb[i]);
        assert(ta[0] == tb[0]);
        assert(ta[1] == tb[1]);
        assert(ta[4] == tb[4]);
        assert(ta[5] == tb[5]);
        assert(ta[6] == tb[6]);
        assert(ta[7] == tb[7]);
        assert(ta[8] == tb[8]);
        assert(ta[9] == tb[9]);
    }
}

/// Two key texts that both begin the same line are the same key.
proof fn lemma_keys_prefix(l: Seq<char>, a: StateKey, b: StateKey)
    requires
        starts_with(l, key_text(a)),
        starts_with(l, key_text(b)),
    ensures
        a == b,
{
    lemma_key_shape(a);
    lemma_key_shape(b);
    let ta = key_text(a);
    let tb = key_text(b);
    if ta.len() < tb.len() {
        assert(ta[ta.len() - 1] == l[ta.len() - 1]);
        assert(tb[ta.len() - 1] == l[ta.len() - 1]);
        assert(tb.drop_last()[ta.len() - 1] == tb[ta.len() - 1]);
    } else if tb.len() < ta.len() {
        assert(tb[tb.len() - 1] == l[tb.len() - 1]);
        assert(ta[tb.len() - 1] == l[tb.len() - 1]);
        assert(ta.drop_last()[tb.len() - 1] == ta[tb.len() - 1]);
    } else {
        assert(ta =~= tb) by {
            assert forall|i: int| 0 <= i < ta.len() implies ta[i] == tb[i] by {
                assert(ta[i] == l.take(ta.len() as int)[i]);
                assert(tb[i] == l.take(tb.len() as int)[i]);
            }
        }
        lemma_key_injective(a, b);
    }
}

/// A line that begins with a key's text is a record of that key.
pub proof fn lemma_key_from_keyed(l: Seq<char>, k: StateKey)
    requires
        starts_with(l, key_text(k)),
    ensures
        key_from(l, 0) == Some(k),
{
    lemma_key_shape(k);
    lemma_key_from_upto(l, k, 0);
}

proof fn lemma_key_from_upto(l: Seq<char>, k: StateKey, i: int)
    requires
        starts_with(l, key_text(k)),
        0 <= i <= key_index(k) < 14,
        key_order()[key_index(k)] == k,
    ensures
        key_from(l, i) == Some(k),
    decreases key_index(k) - i,
{
    if starts_with(l, key_text(key_order()[i])) {
        lemma_keys_prefix(l, key_order()[i], k);
    } else {
        lemma_key_from_upto(l, k, i + 1);
    }
}

/// A line whose first word is no key name is no keyed record.
pub proof fn lemma_key_from_unkeyed(l: Seq<char>, w: Seq<char>)
    requires
        is_word(w),
        starts_with(l, w),
        l.len() > w.len() ==> l[w.len() as int] == ' ',
        forall|k: StateKey| key_text(k) != w + seq![' '],
    ensures
        key_from(l, 0) is None,
{
    lemma_key_from_none_from(l, w, 0);
}

proof fn lemma_key_from_none_from(l: Seq<char>, w: Seq<char>, i: int)
    requires
        is_word(w),
        starts_with(l, w),
        l.len() > w.len() ==> l[w.len() as int] == ' ',
        forall|k: StateKey| key_text(k) != w + seq![' '],
        0 <= i,
    ensures
        key_from(l, i) is None,
    decreases 14 - i,
{
    if i < 14 {
        let k = key_order()[i];
        lemma_key_shape(k);
        let t = key_text(k);
        if starts_with(l, t) {
            // The key's only space is its last character; the line's first
            // space is right after `w`.
            if t.len() - 1 < w.len() {
                assert(t[t.len() - 1] == l[t.len() - 1]);
                assert(w[t.len() - 1] == l[t.len() - 1]);
            } else if t.len() - 1 > w.len() {
                assert(t[w.len() as int] == l[w.len() as int]);
                assert(t.drop_last()[w.len() as int] == t[w.len() as int]);
            } else {
                assert(t =~= w + seq![' ']) by {
                    assert forall|j: int| 0 <= j < t.len() implies t[j] == (w + seq![' '])[j] by {
                        assert(t[j] == l.take(t.len() as int)[j]);
                        if j < w.len() {
                            assert(w[j] == l.take(w.len() as int)[j]);
                        }
                    }
                }
                assert(false);
            }
        }
        lemma_key_from_none_from(l, w, i + 1);
    }
}

// ---------------------------------------------------------------------------
// Lines
// ---------------------------------------------------------------------------

/// `s` holds no line end.
pub open spec fn one_line(s: Seq<char>) -> bool {
    forall|i: int| 0 <= i < s.len() ==> #[trigger] s[i] != '\n'
}

/// Each line of `ls` followed by a line end.
pub open spec fn joined(ls: Seq<Seq<char>>) -> Seq<char>
    decreases ls.len(),
{
    if ls.len() == 0 {
        Seq::empty()
    } else {
        ls[0] + seq!['\n'] + joined(ls.drop_first())
    }
}

/// The lines of `ls` with line ends between them (none after the last).
pub open spec fn inner(ls: Seq<Seq<char>>) -> Seq<char>
    decreases ls.len(),
{
    if ls.len() <= 1 {
        if ls.len() == 1 { ls[0] } else { Seq::empty() }
    } else {
        ls[0] + seq!['\n'] + inner(ls.drop_first())
    }
}

proof fn lemma_joined_inner(ls: Seq<Seq<char>>)
    requires
        ls.len() > 0,
    ensures
        joined(ls) == inner(ls) + seq!['\n'],
    decreases ls.len(),
{
    if ls.len() == 1 {
        assert(ls.drop_first() =~= Seq::<Seq<char>>::empty());
        assert(joined(ls.drop_first()).len() == 0);
        assert(joined(ls) =~= ls[0] + seq!['\n']);
    } else {
        lemma_joined_inner(ls.drop_first());
        assert(joined(ls) =~= inner(ls) + seq!['\n']);
    }
}

proof fn lemma_fields_inner(ls: Seq<Seq<char>>)
    requires
        ls.len() > 0,
        forall|i: int| 0 <= i < ls.len() ==> one_line(#[trigger] ls[i]),
    ensures
        text::fields(inner(ls), '\n') == ls,
    decreases ls.len(),
{
    let s = inner(ls);
    let k = ls[0].len();
    assert(one_line(ls[0]));
    if ls.len() == 1 {
        text::lemma_index_of_at(s, '\n', k);
        assert(text::fields(s, '\n') == seq![s]);
        assert(seq![s] =~= ls);
    } else {
        assert forall|j: int| 0 <= j < k implies s[j] != '\n' by {
            assert(s[j] == ls[0][j]);
        }
        assert(s[k as int] == '\n');
        text::lemma_index_of_at(s, '\n', k);
        assert(s.take(k as int) =~= ls[0]);
        assert(s.skip(k + 1int) =~= inner(ls.drop_first()));
        assert forall|i: int| 0 <= i < ls.drop_first().len() implies one_line(#[trigger] ls.drop_first()[i]) by {
            assert(ls.drop_first()[i] == ls[i + 1]);
        }
        lemma_fields_inner(ls.drop_first());
        assert(seq![ls[0]] + ls.drop_first() =~= ls);
    }
}

/// Text made of line-end-free lines, each ended, reads back as those lines.
pub proof fn lemma_lines_joined(ls: Seq<Seq<char>>)
    requires
        forall|i: int| 0 <= i < ls.len() ==> one_line(#[trigger] ls[i]),
    ensures
        text::lines(joined(ls)) == ls,
{
    if ls.len() == 0 {
        assert(joined(ls).len() == 0);
        assert(text::lines(joined(ls)) =~= ls);
    } else {
        lemma_joined_inner(ls);
        let j = joined(ls);
        assert(j.last() == '\n');
        assert(j.drop_last() =~= inner(ls));
        lemma_fields_inner(ls);
    }
}

proof fn lemma_joined_append(a: Seq<Seq<char>>, b: Seq<Seq<char>>)
    ensures
        joined(a + b) == joined(a) + joined(b),
    decreases a.len(),
{
    if a.len() == 0 {
        assert(a + b =~= b);
        assert(joined(a) + joined(b) =~= joined(b));
    } else {
        assert((a + b).drop_first() =~= a.drop_first() + b);
        lemma_joined_append(a.drop_first(), b);
        assert(joined(a + b) =~= joined(a) + joined(b));
    }
}

proof fn lemma_joined_one(l: Seq<char>)
    ensures
        joined(seq![l]) == l + seq!['\n'],
{
    assert(seq![l].drop_first() =~= Seq::<Seq<char>>::empty());
    assert(joined(seq![l].drop_first()).len() == 0);
    assert(joined(seq![l]) =~= l + seq!['\n']);
}

// ---------------------------------------------------------------------------
// The state file as lines
// ---------------------------------------------------------------------------

/// Product `i`'s record, without its line end.
pub open spec fn record_line(s: AppState, i: int, file: Seq<char>) -> Seq<char> {
    file + ints_text(ints(s.monthly_pct@[i])) + flags_text(flags(s.month_locked@[i])) + if s.yearly_locked@[i] {
        " 1"@
    } else {
        " 0"@
    }
}

/// The records of the products below `k`.
pub open spec fn record_lines(s: AppState, files: Seq<Seq<char>>, k: int) -> Seq<Seq<char>> {
    Seq::new(k as nat, |i: int| record_line(s, i, files[i]))
}

/// A settings line without its line end.
pub open spec fn value_content(k: StateKey, v: i64) -> Seq<char> {
    key_text(k) + int_text(v as int)
}

/// A month-override line without its line end.
pub open spec fn twelve_content(key: Seq<char>, a: [i64; 12]) -> Seq<char> {
    key + ints_text(ints(a))
}

/// The period line without its line end.
pub open spec fn period_content(p: Period) -> Seq<char> {
    match p {
        Period::FullYear => "period FullYear"@,
        Period::Month(m) => "period Month "@ + int_text(m as int),
    }
}

/// The two comment lines.
pub open spec fn header_lines() -> Seq<Seq<char>> {
    seq!["# tiny-business-simulator state v2"@, "# <file> <pct[0..11]> <mlock[0..11]> <ylock>"@]
}

/// The settings, override and period lines.
pub open spec fn settings_lines(s: AppState) -> Seq<Seq<char>> {
    let g = s.settings;
    let o = s.month_overrides;
    seq![
        value_content(StateKey::MinWorkdayHours, g.min_workday_hours),
        value_content(StateKey::MinParallel, g.min_parallel),
        value_content(StateKey::MinMonthlyNetProfit, g.min_monthly_net_profit),
        value_content(StateKey::TargetYearlyNetProfit, g.target_yearly_net_profit),
        twelve_content("month_workday"@, o.workday),
        twelve_content("month_parallel"@, o.parallel),
        twelve_content("month_net_profit"@, o.net_profit),
        twelve_content("month_fix_costs"@, o.fix_costs),
        period_content(s.period),
    ]
}

/// Every line of the state file of `s`.
pub open spec fn state_lines(s: AppState, files: Seq<Seq<char>>) -> Seq<Seq<char>> {
    header_lines() + record_lines(s, files, s.n()) + settings_lines(s)
}

proof fn lemma_newline()
    ensures
        "\n"@ == seq!['\n'],
{
    reveal_strlit("\n");
    assert("\n"@ =~= seq!['\n']);
}

proof fn lemma_records_joined(s: AppState, files: Seq<Seq<char>>, k: int)
    requires
        0 <= k,
    ensures
        product_records(s, files, k) == joined(record_lines(s, files, k)),
    decreases k,
{
    if k == 0 {
        assert(record_lines(s, files, 0) =~= Seq::<Seq<char>>::empty());
    } else {
        lemma_records_joined(s, files, k - 1);
        lemma_newline();
        let r = record_line(s, k - 1, files[k - 1]);
        assert(record_lines(s, files, k) =~= record_lines(s, files, k - 1) + seq![r]);
        lemma_joined_append(record_lines(s, files, k - 1), seq![r]);
        lemma_joined_one(r);
        assert(product_record(s, k - 1, files[k - 1]) =~= r + seq!['\n']);
        assert(product_records(s, files, k) =~= joined(record_lines(s, files, k)));
    }
}

proof fn lemma_joined4(a: Seq<char>, b: Seq<char>, c: Seq<char>, d: Seq<char>)
    ensures
        joined(seq![a, b, c, d]) == (a + seq!['\n']) + (b + seq!['\n']) + (c + seq!['\n']) + (d + seq!['\n']),
{
    lemma_joined_one(a);
    lemma_joined_one(b);
    lemma_joined_one(c);
    lemma_joined_one(d);
    lemma_joined_append(seq![a], seq![b]);
    lemma_joined_append(seq![a] + seq![b], seq![c]);
    lemma_joined_append(seq![a] + seq![b] + seq![c], seq![d]);
    assert(seq![a, b, c, d] =~= seq![a] + seq![b] + seq![c] + seq![d]);
    assert(joined(seq![a, b, c, d]) =~= (a + seq!['\n']) + (b + seq!['\n']) + (c + seq!['\n']) + (d + seq!['\n']));
}

proof fn lemma_values_joined(s: AppState)
    ensures
        values_text(s) == joined(settings_lines(s).take(4)),
{
    lemma_newline();
    let ls = settings_lines(s);
    let g = s.settings;
    assert(ls.take(4) =~= seq![ls[0], ls[1], ls[2], ls[3]]);
    lemma_joined4(ls[0], ls[1], ls[2], ls[3]);
    assert(value_line(StateKey::MinWorkdayHours, g.min_workday_hours) =~= ls[0] + seq!['\n']);
    assert(value_line(StateKey::MinParallel, g.min_parallel) =~= ls[1] + seq!['\n']);
    assert(value_line(StateKey::MinMonthlyNetProfit, g.min_monthly_net_profit) =~= ls[2] + seq!['\n']);
    assert(value_line(StateKey::TargetYearlyNetProfit, g.target_yearly_net_profit) =~= ls[3] + seq!['\n']);
}

proof fn lemma_overrides_joined(s: AppState)
    ensures
        overrides_text(s) == joined(settings_lines(s).subrange(4, 8)),
{
    lemma_newline();
    let ls = settings_lines(s);
    let o = s.month_overrides;
    assert(ls.subrange(4, 8) =~= seq![ls[4], ls[5], ls[6], ls[7]]);
    lemma_joined4(ls[4], ls[5], ls[6], ls[7]);
    assert(twelve_line("month_workday"@, o.workday) =~= ls[4] + seq!['\n']);
    assert(twelve_line("month_parallel"@, o.parallel) =~= ls[5] + seq!['\n']);
    assert(twelve_line("month_net_profit"@, o.net_profit) =~= ls[6] + seq!['\n']);
    assert(twelve_line("month_fix_costs"@, o.fix_costs) =~= ls[7] + seq!['\n']);
}

proof fn lemma_settings_joined(s: AppState)
    ensures
        settings_text(s) == joined(settings_lines(s)),
{
    lemma_newline();
    let ls = settings_lines(s);
    reveal_strlit("period FullYear\n");
    reveal_strlit("period FullYear");
    reveal_strlit("period Month ");
    assert(period_line(s.period) =~= period_content(s.period) + seq!['\n']);
    lemma_values_joined(s);
    lemma_overrides_joined(s);
    lemma_joined_one(ls[8]);
    assert(ls =~= ls.take(4) + ls.subrange(4, 8) + seq![ls[8]]);
    lemma_joined_append(ls.take(4), ls.subrange(4, 8));
    lemma_joined_append(ls.take(4) + ls.subrange(4, 8), seq![ls[8]]);
}

proof fn lemma_header_joined()
    ensures
        state_header() == joined(header_lines()),
{
    reveal_strlit("# tiny-business-simulator state v2\n# <file> <pct[0..11]> <mlock[0..11]> <ylock>\n");
    reveal_strlit("# tiny-business-simulator state v2");
    reveal_strlit("# <file> <pct[0..11]> <mlock[0..11]> <ylock>");
    let h = header_lines();
    lemma_joined_one(h[0]);
    lemma_joined_one(h[1]);
    lemma_joined_append(seq![h[0]], seq![h[1]]);
    assert(h =~= seq![h[0]] + seq![h[1]]);
    assert(state_header() =~= (h[0] + seq!['\n']) + (h[1] + seq!['\n']));
}

/// The state file is its lines, each ended.
pub proof fn lemma_state_text_lines(s: AppState, files: Seq<Seq<char>>)
    ensures
        state_text(s, files) == joined(state_lines(s, files)),
{
    lemma_header_joined();
    lemma_records_joined(s, files, s.n());
    lemma_settings_joined(s);
    lemma_joined_append(header_lines(), record_lines(s, files, s.n()));
    lemma_joined_append(header_lines() + record_lines(s, files, s.n()), settings_lines(s));
}

// ---------------------------------------------------------------------------
// Reading the lines back
// ---------------------------------------------------------------------------

/// The model after reading the lines `ls` on from `st`.
pub open spec fn read_on(st: LoadModel, ls: Seq<Seq<char>>, files: Seq<Seq<char>>) -> LoadModel
    decreases ls.len(),
{
    if ls.len() == 0 {
        st
    } else {
        read_line(read_on(st, ls.drop_last(), files), ls.last(), files)
    }
}

proof fn lemma_read_lines_on(ls: Seq<Seq<char>>, files: Seq<Seq<char>>)
    ensures
        read_lines(ls, files) == read_on(start_model(files.len()), ls, files),
    decreases ls.len(),
{
    if ls.len() > 0 {
        lemma_read_lines_on(ls.drop_last(), files);
    }
}

proof fn lemma_read_on_append(st: LoadModel, a: Seq<Seq<char>>, b: Seq<Seq<char>>, files: Seq<Seq<char>>)
    ensures
        read_on(st, a + b, files) == read_on(read_on(st, a, files), b, files),
    decreases b.len(),
{
    if b.len() == 0 {
        assert(a + b =~= a);
    } else {
        assert((a + b).drop_last() =~= a + b.drop_last());
        assert((a + b).last() == b.last());
        lemma_read_on_append(st, a, b.drop_last(), files);
    }
}

/// A line that starts and ends with non-whitespace is its own trim.
proof fn lemma_trim_id(l: Seq<char>)
    requires
        l.len() > 0,
        !text::is_ws(l[0]),
        !text::is_ws(l.last()),
    ensures
        text::trim(l) == l,
{
    text::lemma_lead_ws_prefix(l, 0);
    assert(l.skip(0) =~= l);
    text::lemma_trail_ws_suffix(l, 0);
    assert(l.take(l.len() as int) =~= l);
}

/// A word's last character is no whitespace.
proof fn lemma_word_ends(w: Seq<char>)
    requires
        is_word(w),
    ensures
        !text::is_ws(w.last()),
        !text::is_ws(w[0]),
{
    assert(w.last() == w[w.len() - 1]);
}

/// A comment line changes nothing.
proof fn lemma_read_comment(st: LoadModel, l: Seq<char>, files: Seq<Seq<char>>)
    requires
        l.len() > 0,
        l[0] == '#',
        !text::is_ws(l.last()),
    ensures
        read_line(st, l, files) == st,
{
    lemma_trim_id(l);
}

proof fn lemma_read_header(st: LoadModel, files: Seq<Seq<char>>)
    ensures
        read_on(st, header_lines(), files) == st,
{
    reveal_strlit("# tiny-business-simulator state v2");
    reveal_strlit("# <file> <pct[0..11]> <mlock[0..11]> <ylock>");
    let h = header_lines();
    assert(h[0].last() == '2');
    assert(h[1].last() == '>');
    lemma_read_comment(st, h[0], files);
    assert(h.drop_last() =~= seq![h[0]]);
    assert(h.drop_last().drop_last() =~= Seq::<Seq<char>>::empty());
    assert(read_on(st, h.drop_last().drop_last(), files) == st);
    assert(read_on(st, h.drop_last(), files) == read_line(st, h[0], files));
    lemma_read_comment(st, h[1], files);
    assert(h.last() == h[1]);
}

/// A word holds no line end.
proof fn lemma_word_one_line(w: Seq<char>)
    requires
        is_word(w),
    ensures
        one_line(w),
{
    assert forall|i: int| 0 <= i < w.len() implies #[trigger] w[i] != '\n' by {
        assert(!text::is_ws(w[i]));
    }
}

proof fn lemma_one_line_add(a: Seq<char>, b: Seq<char>)
    requires
        one_line(a),
        one_line(b),
    ensures
        one_line(a + b),
{
    assert forall|i: int| 0 <= i < (a + b).len() implies #[trigger] (a + b)[i] != '\n' by {
        if i < a.len() {
            assert((a + b)[i] == a[i]);
        } else {
            assert((a + b)[i] == b[i - a.len()]);
        }
    }
}

/// Space-separated words hold no line end.
proof fn lemma_spaced_one_line(ws: Seq<Seq<char>>)
    requires
        all_words(ws),
    ensures
        one_line(spaced(ws)),
    decreases ws.len(),
{
    if ws.len() > 0 {
        assert(is_word(ws[0]));
        assert forall|i: int| 0 <= i < ws.drop_first().len() implies is_word(#[trigger] ws.drop_first()[i]) by {
            assert(ws.drop_first()[i] == ws[i + 1]);
        }
        lemma_spaced_one_line(ws.drop_first());
        lemma_word_one_line(ws[0]);
        assert(one_line(seq![' ']));
        lemma_one_line_add(seq![' '], ws[0]);
        lemma_one_line_add(seq![' '] + ws[0], spaced(ws.drop_first()));
    }
}

/// The last character of space-separated words is that of the last word.
proof fn lemma_spaced_last(ws: Seq<Seq<char>>)
    requires
        ws.len() > 0,
        all_words(ws),
    ensures
        spaced(ws).len() > 0,
        spaced(ws).last() == ws.last().last(),
{
    lemma_spaced_push(ws.drop_last(), ws.last());
    assert(ws.drop_last().push(ws.last()) =~= ws);
    assert(is_word(ws[ws.len() - 1]));
}

// ---------------------------------------------------------------------------
// Reading the product records
// ---------------------------------------------------------------------------

/// File names that a state file gives back as themselves: each a word that
/// starts no comment and is no key, and no two alike.
pub open spec fn storable(files: Seq<Seq<char>>) -> bool {
    &&& forall|i: int| 0 <= i < files.len() ==> is_word(#[trigger] files[i])
    &&& forall|i: int| 0 <= i < files.len() ==> (#[trigger] files[i])[0] != '#'
    &&& forall|i: int, k: StateKey| 0 <= i < files.len() ==> #[trigger] key_text(k) != #[trigger] files[i] + seq![' ']
    &&& forall|i: int, j: int| 0 <= i < j < files.len() ==> files[i] != files[j]
}

/// The model after the records of the products below `k` were read.
pub open spec fn records_model(s: AppState, k: int) -> LoadModel {
    let n = s.n() as nat;
    LoadModel {
        pct: Seq::new(n, |i: int| if i < k { ints(s.monthly_pct@[i]) } else { twelve_of(0int) }),
        mlock: Seq::new(n, |i: int| if i < k { flags(s.month_locked@[i]) } else { twelve_of(false) }),
        ylock: Seq::new(n, |i: int| if i < k { s.yearly_locked@[i] } else { false }),
        found: k > 0,
        ..start_model(n)
    }
}

/// Among names no two alike, a name is found where it stands.
proof fn lemma_file_index_at(files: Seq<Seq<char>>, k: int, j: int)
    requires
        0 <= j <= k < files.len(),
        forall|a: int, b: int| 0 <= a < b < files.len() ==> files[a] != files[b],
    ensures
        file_index(files, files[k], j) == Some(k),
    decreases k - j,
{
    if j < k {
        assert(files[j] != files[k]);
        lemma_file_index_at(files, k, j + 1);
    }
}

/// The record of product `k` sets that product's row.
/// Law: a product record is matched to its product by file name, wherever
/// it stands in the file: reading the record of product `k` (under a name
/// the file can hold) into any reader state sets row `k` of the shares,
/// month locks and yearly locks to the record's values and changes no other
/// row or setting.
pub proof fn lemma_record_sets_its_row(s: AppState, files: Seq<Seq<char>>, k: int, st: LoadModel)
    requires
        s.wf(),
        files.len() == s.n(),
        storable(files),
        0 <= k < s.n(),
        st.pct.len() == s.n(),
        st.mlock.len() == s.n(),
        st.ylock.len() == s.n(),
    ensures
        read_line(st, record_line(s, k, files[k]), files) == (LoadModel {
            pct: st.pct.update(k, ints(s.monthly_pct@[k])),
            mlock: st.mlock.update(k, flags(s.month_locked@[k])),
            ylock: st.ylock.update(k, s.yearly_locked@[k]),
            found: true,
            ..st
        }),
{
    let f = files[k];
    let a = ints(s.monthly_pct@[k]);
    let b = flags(s.month_locked@[k]);
    let y = s.yearly_locked@[k];
    let yw = seq![flag_word(y)];
    lemma_ints_text(a);
    lemma_flags_text(b);
    lemma_flag_word(y);
    reveal_strlit(" 1");
    reveal_strlit(" 0");
    reveal_strlit("1");
    reveal_strlit("0");
    assert(yw.drop_first() =~= Seq::<Seq<char>>::empty());
    assert(spaced(yw.drop_first()) == Seq::<char>::empty());
    assert(spaced(yw) =~= seq![' '] + flag_word(y));
    assert((if y { " 1"@ } else { " 0"@ }) =~= spaced(yw));
    let ws = int_words(a) + flag_words(b) + yw;
    lemma_spaced_append(int_words(a), flag_words(b));
    lemma_spaced_append(int_words(a) + flag_words(b), yw);
    let l = record_line(s, k, f);
    assert(l =~= f + spaced(ws));
    assert(ws.len() == 25);
    assert forall|i: int| 0 <= i < ws.len() implies is_word(#[trigger] ws[i]) by {
        if i < 12 {
            assert(ws[i] == int_words(a)[i]);
        } else if i < 24 {
            assert(ws[i] == flag_words(b)[i - 12]);
        } else {
            assert(ws[i] == flag_word(y));
        }
    }
    assert(is_word(f));
    lemma_words_spaced(f, ws);
    let w = text::words(l);
    assert(w == seq![f] + ws);
    // The line is its own trim and no comment.
    lemma_word_ends(f);
    lemma_spaced_last(ws);
    assert(ws.last() == flag_word(y));
    lemma_word_ends(flag_word(y));
    assert(l.last() == spaced(ws).last());
    assert(l[0] == f[0]);
    lemma_trim_id(l);
    // No key begins it.
    assert(l.take(f.len() as int) =~= f);
    assert(l[f.len() as int] == ' ');
    assert forall|kk: StateKey| key_text(kk) != f + seq![' '] by {
        assert(key_text(kk) != files[k] + seq![' ']);
    }
    lemma_key_from_unkeyed(l, f);
    lemma_file_index_at(files, k, 0);
    assert(w.len() == 26);
    assert(w[0] == f);
    let r = apply_product(st, l, files);
    assert(read_line(st, l, files) == r);
    let row = Seq::new(12, |m: int| or_int(parse_i64(w[1 + m]), 0));
    assert forall|m: int| 0 <= m < 12 implies #[trigger] row[m] == a[m] by {
        assert(w[1 + m] == int_words(a)[m]);
        lemma_parse_int_text(a[m]);
    }
    assert(row =~= a);
    let lrow = Seq::new(12, |m: int| w[13 + m] == "1"@);
    assert forall|m: int| 0 <= m < 12 implies #[trigger] lrow[m] == b[m] by {
        assert(w[13 + m] == flag_words(b)[m]);
        lemma_flag_word(b[m]);
    }
    assert(lrow =~= b);
    assert(w[25] == flag_word(y));
}

/// The record of product `k` sets that product's row.
proof fn lemma_read_record(s: AppState, files: Seq<Seq<char>>, k: int)
    requires
        s.wf(),
        files.len() == s.n(),
        storable(files),
        0 <= k < s.n(),
    ensures
        read_line(records_model(s, k), record_line(s, k, files[k]), files) == records_model(s, k + 1),
{
    let st = records_model(s, k);
    lemma_record_sets_its_row(s, files, k, st);
    let r = read_line(st, record_line(s, k, files[k]), files);
    let next = records_model(s, k + 1);
    assert(r.pct =~= next.pct);
    assert(r.mlock =~= next.mlock);
    assert(r.ylock =~= next.ylock);
}

/// The records of the products below `k` set those rows.
proof fn lemma_read_records(s: AppState, files: Seq<Seq<char>>, k: int)
    requires
        s.wf(),
        files.len() == s.n(),
        storable(files),
        0 <= k <= s.n(),
    ensures
        read_on(start_model(files.len()), record_lines(s, files, k), files) == records_model(s, k),
    decreases k,
{
    let st = start_model(files.len());
    if k == 0 {
        assert(record_lines(s, files, 0) =~= Seq::<Seq<char>>::empty());
        let r = records_model(s, 0);
        assert(r.pct =~= st.pct);
        assert(r.mlock =~= st.mlock);
        assert(r.ylock =~= st.ylock);
    } else {
        lemma_read_records(s, files, k - 1);
        assert(record_lines(s, files, k).drop_last() =~= record_lines(s, files, k - 1));
        assert(record_lines(s, files, k).last() == record_line(s, k - 1, files[k - 1]));
        lemma_read_record(s, files, k - 1);
    }
}

// ---------------------------------------------------------------------------
// Reading the settings, overrides and period
// ---------------------------------------------------------------------------

/// A keyed line is its own trim, no comment, and read as its key.
proof fn lemma_read_keyed(st: LoadModel, k: StateKey, rest: Seq<char>, files: Seq<Seq<char>>)
    requires
        rest.len() > 0,
        !text::is_ws(rest.last()),
    ensures
        read_line(st, key_text(k) + rest, files) == apply_key(st, k, rest),
{
    lemma_key_shape(k);
    let t = key_text(k);
    let l = t + rest;
    assert(is_word(t.drop_last()));
    assert(l[0] == t.drop_last()[0]);
    assert(l.last() == rest.last());
    lemma_trim_id(l);
    assert(l.take(t.len() as int) =~= t);
    lemma_key_from_keyed(l, k);
    assert(l.skip(t.len() as int) =~= rest);
}

/// A settings line sets its value.
proof fn lemma_read_value(st: LoadModel, k: StateKey, v: i64, files: Seq<Seq<char>>)
    ensures
        read_line(st, value_content(k, v), files) == apply_key(st, k, int_text(v as int)),
        parse_i64(text::trim(int_text(v as int))) == Some(v as int),
{
    let t = int_text(v as int);
    lemma_int_text_word(v as int);
    lemma_word_ends(t);
    lemma_read_keyed(st, k, t, files);
    lemma_trim_id(t);
    lemma_parse_int_text(v as int);
}

/// A month-override line sets its twelve values.
proof fn lemma_read_twelve(st: LoadModel, k: StateKey, key: Seq<char>, a: [i64; 12], files: Seq<Seq<char>>)
    requires
        key + seq![' '] == key_text(k),
    ensures
        read_line(st, twelve_content(key, a), files) == apply_key(
            st,
            k,
            twelve_content(key, a).skip(key_text(k).len() as int),
        ),
        twelve(twelve_content(key, a).skip(key_text(k).len() as int)) == Some(ints(a)),
        k == StateKey::MonthWorkday ==> read_line(st, twelve_content(key, a), files) == (LoadModel {
            workday: ints(a),
            found: true,
            ..st
        }),
        k == StateKey::MonthParallel ==> read_line(st, twelve_content(key, a), files) == (LoadModel {
            parallel: ints(a),
            found: true,
            ..st
        }),
        k == StateKey::MonthNetProfit ==> read_line(st, twelve_content(key, a), files) == (LoadModel {
            net_profit: ints(a),
            found: true,
            ..st
        }),
        k == StateKey::MonthFixCosts ==> read_line(st, twelve_content(key, a), files) == (LoadModel {
            fix_costs: ints(a),
            found: true,
            ..st
        }),
{
    let iw = int_words(ints(a));
    lemma_ints_text(ints(a));
    assert(iw.len() == 12);
    let rest = iw[0] + spaced(iw.drop_first());
    assert(spaced(iw) == seq![' '] + iw[0] + spaced(iw.drop_first()));
    assert(twelve_content(key, a) =~= key_text(k) + rest);
    assert(is_word(iw[0]));
    assert forall|i: int| 0 <= i < iw.drop_first().len() implies is_word(#[trigger] iw.drop_first()[i]) by {
        assert(iw.drop_first()[i] == iw[i + 1]);
    }
    lemma_words_spaced(iw[0], iw.drop_first());
    assert(seq![iw[0]] + iw.drop_first() =~= iw);
    lemma_spaced_last(iw);
    lemma_word_ends(iw[11]);
    assert(rest.last() == iw[11].last()) by {
        if iw.drop_first().len() > 0 {
            lemma_spaced_last(iw.drop_first());
            assert(iw.drop_first().last() == iw[11]);
        }
    }
    lemma_read_keyed(st, k, rest, files);
    assert((key_text(k) + rest).skip(key_text(k).len() as int) =~= rest);
    let vals = Seq::new(12, |m: int| or_int(parse_i64(text::words(rest)[m]), 0));
    assert forall|m: int| 0 <= m < 12 implies #[trigger] vals[m] == ints(a)[m] by {
        lemma_parse_int_text(ints(a)[m]);
    }
    assert(vals =~= ints(a));
}

/// The period line sets the period.
proof fn lemma_read_period(st: LoadModel, p: Period, files: Seq<Seq<char>>)
    requires
        valid_period(p),
    ensures
        read_line(st, period_content(p), files) == (LoadModel { period: p, found: true, ..st }),
{
    reveal_strlit("period ");
    reveal_strlit("period FullYear");
    reveal_strlit("period Month ");
    reveal_strlit("FullYear");
    reveal_strlit("Month ");
    match p {
        Period::FullYear => {
            let rest = "FullYear"@;
            assert(period_content(p) =~= key_text(StateKey::Period) + rest);
            lemma_read_keyed(st, StateKey::Period, rest, files);
            lemma_trim_id(rest);
        },
        Period::Month(m) => {
            let t = int_text(m as int);
            let rest = "Month "@ + t;
            assert(period_content(p) =~= key_text(StateKey::Period) + rest);
            lemma_int_text_word(m as int);
            lemma_word_ends(t);
            assert(rest.last() == t.last());
            lemma_read_keyed(st, StateKey::Period, rest, files);
            lemma_trim_id(rest);
            assert(rest != "FullYear"@) by {
                assert(rest[0] == 'M');
            }
            assert(rest.take(6) =~= "Month "@);
            assert(rest.skip(6) =~= t);
            lemma_trim_id(t);
            lemma_parse_usize_text(m as int);
        },
    }
}

/// Four lines read one after another.
proof fn lemma_read_four(st: LoadModel, a: Seq<char>, b: Seq<char>, c: Seq<char>, d: Seq<char>, files: Seq<Seq<char>>)
    ensures
        read_on(st, seq![a, b, c, d], files) == read_line(
            read_line(read_line(read_line(st, a, files), b, files), c, files),
            d,
            files,
        ),
{
    let e = Seq::<Seq<char>>::empty();
    let s1 = seq![a];
    let s2 = seq![a, b];
    let s3 = seq![a, b, c];
    let s4 = seq![a, b, c, d];
    assert(s1.drop_last() =~= e);
    assert(s2.drop_last() =~= s1);
    assert(s3.drop_last() =~= s2);
    assert(s4.drop_last() =~= s3);
    assert(read_on(st, e, files) == st);
    assert(read_on(st, s1, files) == read_line(st, a, files));
    assert(read_on(st, s2, files) == read_line(read_on(st, s1, files), b, files));
    assert(read_on(st, s3, files) == read_line(read_on(st, s2, files), c, files));
    assert(read_on(st, s4, files) == read_line(read_on(st, s3, files), d, files));
}

/// The four settings lines set the settings.
proof fn lemma_read_values(s: AppState, st: LoadModel, files: Seq<Seq<char>>)
    ensures
        read_on(st, settings_lines(s).take(4), files) == (LoadModel {
            min_workday: s.settings.min_workday_hours as int,
            min_parallel: s.settings.min_parallel as int,
            min_net_profit: s.settings.min_monthly_net_profit as int,
            target_yearly: s.settings.target_yearly_net_profit as int,
            found: true,
            ..st
        }),
{
    let g = s.settings;
    let ls = settings_lines(s);
    assert(ls.take(4) =~= seq![ls[0], ls[1], ls[2], ls[3]]);
    lemma_read_four(st, ls[0], ls[1], ls[2], ls[3], files);
    lemma_read_value(st, StateKey::MinWorkdayHours, g.min_workday_hours, files);
    let st1 = read_line(st, ls[0], files);
    lemma_read_value(st1, StateKey::MinParallel, g.min_parallel, files);
    let st2 = read_line(st1, ls[1], files);
    lemma_read_value(st2, StateKey::MinMonthlyNetProfit, g.min_monthly_net_profit, files);
    let st3 = read_line(st2, ls[2], files);
    lemma_read_value(st3, StateKey::TargetYearlyNetProfit, g.target_yearly_net_profit, files);
}

/// The override keys are the override names and a space.
proof fn lemma_override_keys()
    ensures
        "month_workday"@ + seq![' '] == key_text(StateKey::MonthWorkday),
        "month_parallel"@ + seq![' '] == key_text(StateKey::MonthParallel),
        "month_net_profit"@ + seq![' '] == key_text(StateKey::MonthNetProfit),
        "month_fix_costs"@ + seq![' '] == key_text(StateKey::MonthFixCosts),
{
    reveal_strlit("month_workday");
    reveal_strlit("month_parallel");
    reveal_strlit("month_net_profit");
    reveal_strlit("month_fix_costs");
    reveal_strlit("month_workday ");
    reveal_strlit("month_parallel ");
    reveal_strlit("month_net_profit ");
    reveal_strlit("month_fix_costs ");
    assert("month_workday"@ + seq![' '] =~= key_text(StateKey::MonthWorkday));
    assert("month_parallel"@ + seq![' '] =~= key_text(StateKey::MonthParallel));
    assert("month_net_profit"@ + seq![' '] =~= key_text(StateKey::MonthNetProfit));
    assert("month_fix_costs"@ + seq![' '] =~= key_text(StateKey::MonthFixCosts));
}

/// The four override lines set the overrides.
proof fn lemma_read_overrides(s: AppState, st: LoadModel, files: Seq<Seq<char>>)
    ensures
        read_on(st, settings_lines(s).subrange(4, 8), files) == (LoadModel {
            workday: ints(s.month_overrides.workday),
            parallel: ints(s.month_overrides.parallel),
            net_profit: ints(s.month_overrides.net_profit),
            fix_costs: ints(s.month_overrides.fix_costs),
            found: true,
            ..st
        }),
{
    let o = s.month_overrides;
    let ls = settings_lines(s);
    assert(ls.subrange(4, 8) =~= seq![ls[4], ls[5], ls[6], ls[7]]);
    lemma_read_four(st, ls[4], ls[5], ls[6], ls[7], files);
    lemma_override_keys();
    lemma_read_twelve(st, StateKey::MonthWorkday, "month_workday"@, o.workday, files);
    let st1 = read_line(st, ls[4], files);
    lemma_read_twelve(st1, StateKey::MonthParallel, "month_parallel"@, o.parallel, files);
    let st2 = read_line(st1, ls[5], files);
    lemma_read_twelve(st2, StateKey::MonthNetProfit, "month_net_profit"@, o.net_profit, files);
    let st3 = read_line(st2, ls[6], files);
    lemma_read_twelve(st3, StateKey::MonthFixCosts, "month_fix_costs"@, o.fix_costs, files);
}

/// The settings, override and period lines set what they name.
proof fn lemma_read_settings(s: AppState, st: LoadModel, files: Seq<Seq<char>>)
    requires
        valid_period(s.period),
    ensures
        read_on(st, settings_lines(s), files) == (LoadModel {
            min_workday: s.settings.min_workday_hours as int,
            min_parallel: s.settings.min_parallel as int,
            min_net_profit: s.settings.min_monthly_net_profit as int,
            target_yearly: s.settings.target_yearly_net_profit as int,
            workday: ints(s.month_overrides.workday),
            parallel: ints(s.month_overrides.parallel),
            net_profit: ints(s.month_overrides.net_profit),
            fix_costs: ints(s.month_overrides.fix_costs),
            period: s.period,
            found: true,
            ..st
        }),
{
    let ls = settings_lines(s);
    assert(ls =~= ls.take(4) + ls.subrange(4, 8) + seq![ls[8]]);
    lemma_read_on_append(st, ls.take(4) + ls.subrange(4, 8), seq![ls[8]], files);
    lemma_read_on_append(st, ls.take(4), ls.subrange(4, 8), files);
    lemma_read_values(s, st, files);
    let st1 = read_on(st, ls.take(4), files);
    lemma_read_overrides(s, st1, files);
    let st2 = read_on(st1, ls.subrange(4, 8), files);
    lemma_read_period(st2, s.period, files);
    assert(seq![ls[8]].drop_last() =~= Seq::<Seq<char>>::empty());
    assert(read_on(st2, Seq::<Seq<char>>::empty(), files) == st2);
    assert(read_on(st2, seq![ls[8]], files) == read_line(st2, ls[8], files));
    assert(read_on(st, ls, files) == read_line(st2, ls[8], files));
}

/// What the state file of `s` reads back as: its share and lock tables,
/// settings, month overrides and period.
pub open spec fn saved_model(s: AppState) -> LoadModel {
    (LoadedState {
        monthly_pct: s.monthly_pct,
        month_locked: s.month_locked,
        yearly_locked: s.yearly_locked,
        settings: s.settings,
        month_overrides: s.month_overrides,
        period: s.period,
    }).model(true, None)
}

/// Every month's shares add up to [`PCT_TOTAL`] (when there are products),
/// and every month override is at least its minimum: what loading
/// otherwise restores.
pub open spec fn settled(s: AppState) -> bool {
    &&& s.n() > 0 ==> forall|m: int| 0 <= m < 12 ==> #[trigger] s.column_sum(m, s.n()) == PCT_TOTAL
    &&& forall|m: int| 0 <= m < 12 ==> s.settings.min_workday_hours <= #[trigger] s.month_overrides.workday[m]
    &&& forall|m: int| 0 <= m < 12 ==> s.settings.min_parallel <= #[trigger] s.month_overrides.parallel[m]
    &&& forall|m: int|
        0 <= m < 12 ==> s.settings.min_monthly_net_profit <= #[trigger] s.month_overrides.net_profit[m]
}

/// Month `m` of the products below `k`, as read back, adds up as in the state.
proof fn lemma_column_sum(s: AppState, m: int, k: int)
    requires
        s.wf(),
        0 <= k <= s.n(),
        0 <= m < 12,
    ensures
        seq_sum(column(pct_view(s.monthly_pct@).take(k), m)) == s.column_sum(m, k),
    decreases k,
{
    if k > 0 {
        lemma_column_sum(s, m, k - 1);
        let p = pct_view(s.monthly_pct@);
        assert(column(p.take(k), m).drop_last() =~= column(p.take(k - 1), m));
    }
}

/// Settling changes nothing of a settled state's model.
proof fn lemma_settle_saved(s: AppState)
    requires
        s.wf(),
        settled(s),
    ensures
        settle(saved_model(s)) == saved_model(s),
{
    let st = saved_model(s);
    let r = settle(st);
    let p = st.pct;
    assert(p.len() == s.n());
    assert forall|i: int| 0 <= i < p.len() implies #[trigger] r.pct[i] =~= p[i] by {
        assert forall|m: int| 0 <= m < 12 implies #[trigger] r.pct[i][m] == p[i][m] by {
            lemma_column_sum(s, m, s.n());
            assert(p.take(s.n()) =~= p);
            assert(seq_sum(column(p, m)) == PCT_TOTAL);
        }
    }
    assert(r.pct =~= p);
    let o = s.month_overrides;
    assert(r.workday =~= st.workday);
    assert(r.parallel =~= st.parallel);
    assert(r.net_profit =~= st.net_profit);
}

// ---------------------------------------------------------------------------
// The round trip
// ---------------------------------------------------------------------------

proof fn lemma_header_one_line()
    ensures
        forall|i: int| 0 <= i < header_lines().len() ==> one_line(#[trigger] header_lines()[i]),
{
    reveal_strlit("# tiny-business-simulator state v2");
    reveal_strlit("# <file> <pct[0..11]> <mlock[0..11]> <ylock>");
    let h = header_lines();
    assert forall|j: int| 0 <= j < h[0].len() implies #[trigger] h[0][j] != '\n' by {}
    assert forall|j: int| 0 <= j < h[1].len() implies #[trigger] h[1][j] != '\n' by {}
}

/// A key's text holds no line end.
proof fn lemma_key_one_line(k: StateKey)
    ensures
        one_line(key_text(k)),
{
    lemma_key_shape(k);
    let t = key_text(k);
    lemma_word_one_line(t.drop_last());
    assert(one_line(seq![' ']));
    assert(t =~= t.drop_last() + seq![' ']);
    lemma_one_line_add(t.drop_last(), seq![' ']);
}

proof fn lemma_twelve_one_line(k: StateKey, key: Seq<char>, a: [i64; 12])
    requires
        key + seq![' '] == key_text(k),
    ensures
        one_line(twelve_content(key, a)),
{
    lemma_key_one_line(k);
    assert forall|j: int| 0 <= j < key.len() implies #[trigger] key[j] != '\n' by {
        assert(key[j] == key_text(k)[j]);
    }
    lemma_ints_text(ints(a));
    lemma_spaced_one_line(int_words(ints(a)));
    lemma_one_line_add(key, ints_text(ints(a)));
}

proof fn lemma_settings_one_line(s: AppState)
    ensures
        forall|i: int| 0 <= i < settings_lines(s).len() ==> one_line(#[trigger] settings_lines(s)[i]),
{
    let ls = settings_lines(s);
    let g = s.settings;
    let o = s.month_overrides;
    assert forall|k: StateKey, v: i64| one_line(#[trigger] value_content(k, v)) by {
        lemma_key_one_line(k);
        lemma_int_text_word(v as int);
        lemma_word_one_line(int_text(v as int));
        lemma_one_line_add(key_text(k), int_text(v as int));
    }
    lemma_override_keys();
    lemma_twelve_one_line(StateKey::MonthWorkday, "month_workday"@, o.workday);
    lemma_twelve_one_line(StateKey::MonthParallel, "month_parallel"@, o.parallel);
    lemma_twelve_one_line(StateKey::MonthNetProfit, "month_net_profit"@, o.net_profit);
    lemma_twelve_one_line(StateKey::MonthFixCosts, "month_fix_costs"@, o.fix_costs);
    assert(one_line(twelve_content("month_workday"@, o.workday)));
    assert(one_line(twelve_content("month_parallel"@, o.parallel)));
    assert(one_line(twelve_content("month_net_profit"@, o.net_profit)));
    assert(one_line(twelve_content("month_fix_costs"@, o.fix_costs)));
    reveal_strlit("period FullYear");
    reveal_strlit("period Month ");
    match s.period {
        Period::FullYear => {
            assert forall|j: int| 0 <= j < ls[8].len() implies #[trigger] ls[8][j] != '\n' by {}
        },
        Period::Month(m) => {
            assert(one_line("period Month "@)) by {
                assert forall|j: int| 0 <= j < "period Month "@.len() implies #[trigger] "period Month "@[j] != '\n' by {}
            }
            lemma_int_text_word(m as int);
            lemma_word_one_line(int_text(m as int));
            lemma_one_line_add("period Month "@, int_text(m as int));
        },
    }
    assert forall|i: int| 0 <= i < ls.len() implies one_line(#[trigger] ls[i]) by {
        if i < 4 {
        } else if i < 8 {
        } else {
        }
    }
}

proof fn lemma_records_one_line(s: AppState, files: Seq<Seq<char>>)
    requires
        files.len() == s.n(),
        storable(files),
    ensures
        forall|i: int| 0 <= i < s.n() ==> one_line(#[trigger] record_lines(s, files, s.n())[i]),
{
    reveal_strlit(" 1");
    reveal_strlit(" 0");
    assert forall|i: int| 0 <= i < s.n() implies one_line(#[trigger] record_lines(s, files, s.n())[i]) by {
        let f = files[i];
        lemma_word_one_line(f);
        lemma_ints_text(ints(s.monthly_pct@[i]));
        lemma_spaced_one_line(int_words(ints(s.monthly_pct@[i])));
        lemma_flags_text(flags(s.month_locked@[i]));
        lemma_spaced_one_line(flag_words(flags(s.month_locked@[i])));
        let y = if s.yearly_locked@[i] { " 1"@ } else { " 0"@ };
        assert forall|j: int| 0 <= j < y.len() implies #[trigger] y[j] != '\n' by {}
        lemma_one_line_add(f, ints_text(ints(s.monthly_pct@[i])));
        lemma_one_line_add(f + ints_text(ints(s.monthly_pct@[i])), flags_text(flags(s.month_locked@[i])));
        lemma_one_line_add(
            f + ints_text(ints(s.monthly_pct@[i])) + flags_text(flags(s.month_locked@[i])),
            y,
        );
    }
}

/// A state written to its file and read back is that state: the share and
/// lock tables, the settings, the month overrides and the period all come
/// back unchanged. This holds for file names that the file can hold (see
/// [`storable`]), a valid period, and a settled state (see [`settled`]);
/// loading settles any other state.
pub proof fn lemma_state_roundtrip(s: AppState, files: Seq<Seq<char>>)
    requires
        s.wf(),
        files.len() == s.n(),
        storable(files),
        valid_period(s.period),
        settled(s),
    ensures
        load_result(state_text(s, files), files) == Some(saved_model(s)),
{
    let n = s.n();
    let h = header_lines();
    let rs = record_lines(s, files, n);
    let ss = settings_lines(s);
    let ls = state_lines(s, files);
    lemma_state_text_lines(s, files);
    lemma_header_one_line();
    lemma_records_one_line(s, files);
    lemma_settings_one_line(s);
    assert forall|i: int| 0 <= i < ls.len() implies one_line(#[trigger] ls[i]) by {
        if i < 2 {
            assert(ls[i] == h[i]);
        } else if i < 2 + n {
            assert(ls[i] == rs[i - 2]);
        } else {
            assert(ls[i] == ss[i - 2 - n]);
        }
    }
    lemma_lines_joined(ls);
    lemma_read_lines_on(ls, files);
    let st0 = start_model(files.len());
    lemma_read_on_append(st0, h + rs, ss, files);
    lemma_read_on_append(st0, h, rs, files);
    lemma_read_header(st0, files);
    lemma_read_records(s, files, n);
    let rm = records_model(s, n);
    lemma_read_settings(s, rm, files);
    let read = read_on(st0, ls, files);
    let sm = saved_model(s);
    assert(read.pct =~= sm.pct);
    assert(read.mlock =~= sm.mlock);
    assert(read.ylock =~= sm.ylock);
    assert(read == sm);
    lemma_settle_saved(s);
}

} // verus!
