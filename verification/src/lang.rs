//! Interface languages, the message dictionary, and the runtime template
//! renderer used for every user-facing string.
//!
//! Every message is a template with `{0}`..`{9}` positional placeholders that
//! [`fmt`] fills from pre-rendered argument strings; the alignment helpers
//! ([`pad_to`], [`pad_left`], [`fmt_aligned`], [`fmt_block`]) pad labels and
//! value columns by display width ([`str_width`]).
use vstd::prelude::*;
use crate::text;
use crate::text::{chars_of, count_trail_ws, push_char, push_str, width_of_range};

pub mod en;
pub mod es;
pub mod zh;
pub mod de;
pub mod ru;
pub mod fr;

verus! {

broadcast use vstd::string::group_string_axioms;

// ---------------------------------------------------------------------------
// Dictionary
// ---------------------------------------------------------------------------

/// Every user-facing message of one language, as `{n}` templates.
#[derive(Clone, Copy)]
pub struct Dict {
    // --- command line
    pub usage_label: &'static str,
    pub usage_interactive: &'static str,
    pub usage_list: &'static str,
    pub usage_lang: &'static str,
    pub no_txt_files: &'static str,
    pub cannot_read_file: &'static str,
    pub file_colon_msg: &'static str,
    pub parsed_products_header: &'static str,
    pub no_valid_products: &'static str,
    pub file_label: &'static str,
    pub not_a_directory: &'static str,
    pub unknown_lang: &'static str,

    // --- product definitions : Display + errors
    pub cost_display: &'static str,
    pub product_label: &'static str,
    pub sale_price_label: &'static str,
    pub production_time_label: &'static str,
    pub costs_header: &'static str,
    pub no_costs: &'static str,
    pub time_mins: &'static str,
    pub time_hours: &'static str,
    pub err_duplicate_product_line: &'static str,
    pub err_line_prefix: &'static str,
    pub err_unexpected_line: &'static str,
    pub err_missing_product_line: &'static str,
    pub err_product_sections: &'static str,
    pub err_product_plus: &'static str,
    pub err_empty_product_name: &'static str,
    pub err_sale_section: &'static str,
    pub err_invalid_sale_price: &'static str,
    pub err_invalid_sale_currency: &'static str,
    pub err_time_section: &'static str,
    pub err_invalid_prod_time: &'static str,
    pub err_invalid_time_unit: &'static str,
    pub err_cost_minus: &'static str,
    pub err_cost_tokens: &'static str,
    pub err_invalid_cost_price: &'static str,
    pub err_invalid_cost_currency: &'static str,

    // --- result files : result file + stats
    pub result_product: &'static str,
    pub result_sale_price: &'static str,
    pub result_total_cost: &'static str,
    pub result_net_profit_unit: &'static str,
    pub result_profit_margin: &'static str,
    pub result_prod_time: &'static str,
    pub result_monthly_goal: &'static str,
    pub result_monthly_time: &'static str,
    pub result_month_row: &'static str,
    pub result_annual_goal: &'static str,
    pub result_annual_time: &'static str,
    pub result_workday: &'static str,
    pub result_parallel: &'static str,
    pub required_sales_needle: &'static str,

    // --- result files : interactive prompts + warnings
    pub warn_net_profit_nonpositive: &'static str,
    pub prompt_monthly_goal: &'static str,
    pub prompt_annual_goal: &'static str,
    pub prompt_monthly_goal_plain: &'static str,
    pub prompt_annual_goal_plain: &'static str,
    pub err_read_monthly_goal: &'static str,
    pub err_read_annual_goal: &'static str,
    pub prompt_workday_hours: &'static str,
    pub validate_workday_range: &'static str,
    pub err_read_workday: &'static str,
    pub prompt_parallel_products: &'static str,
    pub validate_parallel_range: &'static str,
    pub err_read_parallel: &'static str,
    pub sales_needed_header: &'static str,
    pub monthly_label: &'static str,
    pub annual_label: &'static str,
    pub err_write_result_file: &'static str,

    // --- result files : multi-product split
    pub warn_product_excluded: &'static str,
    pub warn_no_positive_products: &'static str,
    pub random_split_header: &'static str,
    pub split_item: &'static str,
    pub per_product_header: &'static str,
    pub per_product_monthly: &'static str,
    pub per_product_annual: &'static str,
    pub totals_header: &'static str,
    pub total_monthly_sales: &'static str,
    pub total_month_row: &'static str,
    pub total_annual_sales: &'static str,
    pub err_write_result_file_for: &'static str,
    pub err_write_totals_file: &'static str,

    // --- result files : menu + file selection
    pub warn_no_txt_files: &'static str,
    pub menu_prompt: &'static str,
    pub err_menu: &'static str,
    pub warn_no_selection: &'static str,
    pub err_read_file: &'static str,

    // --- result files : one-line result summary
    pub summary_net_profit: &'static str,
    pub summary_margin: &'static str,
    pub summary_monthly: &'static str,
    pub summary_annual: &'static str,

    // --- interactive screen : tabs, sidebar titles, slider labels
    pub tui_tab_products: &'static str,
    pub tui_tab_graph: &'static str,
    pub tui_sidebar_month: &'static str,
    pub tui_sidebar_settings: &'static str,
    pub tui_sidebar_totals: &'static str,
    pub tui_products_yearly: &'static str,
    pub tui_month_pct_sales: &'static str,
    pub tui_slider_workday: &'static str,
    pub tui_slider_parallel: &'static str,
    pub tui_slider_monthly_goal: &'static str,
    pub tui_slider_yearly_goal: &'static str,
    pub tui_slider_month: &'static str,
    pub tui_parallel_label: &'static str,
    pub tui_lock_year: &'static str,
    pub tui_lock_month: &'static str,

    // --- interactive screen : chart legend / stats
    pub tui_yearly_sales: &'static str,
    pub tui_legend_units: &'static str,
    pub tui_legend_profit: &'static str,
    pub tui_legend_cost: &'static str,
    pub tui_axis_max: &'static str,
    pub tui_max: &'static str,
    pub tui_profit: &'static str,
    pub tui_yearly: &'static str,

    // --- interactive screen : donut captions
    pub tui_donut_margin: &'static str,
    pub tui_donut_vs_year: &'static str,

    // --- interactive screen : totals column labels
    pub tui_label_monthly: &'static str,
    pub tui_label_yearly: &'static str,
    pub tui_label_settings: &'static str,
    pub tui_label_sales: &'static str,
    pub tui_label_min: &'static str,
    pub tui_label_hours: &'static str,
    pub tui_label_workdays: &'static str,
    pub tui_label_workday: &'static str,
    pub tui_label_parallel: &'static str,
    pub tui_label_yearly_ref: &'static str,
    pub tui_label_12x_mo: &'static str,
    pub tui_label_goal: &'static str,
    pub tui_suffix_hours: &'static str,

    // --- interactive screen : footer / status / regions
    pub tui_region_main: &'static str,
    pub tui_region_sidebar: &'static str,
    pub tui_footer: &'static str,
    pub tui_footer_status: &'static str,
    pub tui_export_error: &'static str,
    pub tui_export_error_totals: &'static str,
    pub tui_exported: &'static str,
    pub tui_no_products: &'static str,

    // --- interactive screen : help screen (Ctrl+H)
    pub tui_help_title: &'static str,
    pub tui_help_text: &'static str,
}

// ---------------------------------------------------------------------------
// Language selector
// ---------------------------------------------------------------------------

/// The interface languages.
#[derive(Debug, Clone, Copy, PartialEq, Eq, Structural)]
pub enum Lang {
    En,
    Es,
    Zh,
    De,
    Ru,
    Fr,
}

/// The language code of each language.
pub open spec fn lang_code(l: Lang) -> Seq<char> {
    match l {
        Lang::En => "en"@,
        Lang::Es => "es"@,
        Lang::Zh => "zh"@,
        Lang::De => "de"@,
        Lang::Ru => "ru"@,
        Lang::Fr => "fr"@,
    }
}

/// The language whose code is `code`, if any.
pub open spec fn lang_of_code(code: Seq<char>) -> Option<Lang> {
    if code == "en"@ {
        Some(Lang::En)
    } else if code == "es"@ {
        Some(Lang::Es)
    } else if code == "zh"@ {
        Some(Lang::Zh)
    } else if code == "de"@ {
        Some(Lang::De)
    } else if code == "ru"@ {
        Some(Lang::Ru)
    } else if code == "fr"@ {
        Some(Lang::Fr)
    } else {
        None
    }
}

/// Whether the characters of `a` and `b` are the same.
pub(crate) fn same_text(a: &str, b: &str) -> (r: bool)
    ensures
        r == (a@ == b@),
{
    let x = chars_of(a);
    let y = chars_of(b);
    if x.len() != y.len() {
        return false;
    }
    let mut i: usize = 0;
    while i < x.len()
        invariant
            x@ == a@,
            y@ == b@,
            x@.len() == y@.len(),
            i <= x@.len(),
            forall|j: int| 0 <= j < i ==> x@[j] == y@[j],
        decreases x@.len() - i,
    {
        if x[i] != y[i] {
            return false;
        }
        i += 1;
    }
    assert(x@ =~= y@);
    true
}

impl Lang {
    /// The language used when `--lang` is not supplied.
    pub const DEFAULT: Lang = Lang::En;

    /// Parse a CLI language code (`en`, `es`, ...) into a [`Lang`].
    pub fn from_code(code: &str) -> (r: Option<Lang>)
        ensures
            r == lang_of_code(code@),
    {
        if same_text(code, "en") {
            Some(Lang::En)
        } else if same_text(code, "es") {
            Some(Lang::Es)
        } else if same_text(code, "zh") {
            Some(Lang::Zh)
        } else if same_text(code, "de") {
            Some(Lang::De)
        } else if same_text(code, "ru") {
            Some(Lang::Ru)
        } else if same_text(code, "fr") {
            Some(Lang::Fr)
        } else {
            None
        }
    }

    /// Canonical short code (`en`, `es`, ...).
    pub fn code(&self) -> (c: &'static str)
        ensures
            c@ == lang_code(*self),
    {
        match self {
            Lang::En => "en",
            Lang::Es => "es",
            Lang::Zh => "zh",
            Lang::De => "de",
            Lang::Ru => "ru",
            Lang::Fr => "fr",
        }
    }
}

/// The dictionary of each language.
pub open spec fn spec_dict(l: Lang) -> Dict {
    match l {
        Lang::En => en::table(),
        Lang::Es => es::table(),
        Lang::Zh => zh::table(),
        Lang::De => de::table(),
        Lang::Ru => ru::table(),
        Lang::Fr => fr::table(),
    }
}

/// The month abbreviations (January to December) of each language.
pub open spec fn spec_months(l: Lang) -> Seq<&'static str> {
    match l {
        Lang::En => seq!["Jan", "Feb", "Mar", "Apr", "May", "Jun", "Jul", "Aug", "Sep", "Oct", "Nov", "Dec"],
        Lang::Es => seq!["Ene", "Feb", "Mar", "Abr", "May", "Jun", "Jul", "Ago", "Sep", "Oct", "Nov", "Dic"],
        Lang::Zh => seq!["1月", "2月", "3月", "4月", "5月", "6月", "7月", "8月", "9月", "10月", "11月", "12月"],
        Lang::De => seq!["Jan", "Feb", "Mär", "Apr", "Mai", "Jun", "Jul", "Aug", "Sep", "Okt", "Nov", "Dez"],
        Lang::Ru => seq!["Янв", "Фев", "Мар", "Апр", "Май", "Июн", "Июл", "Авг", "Сен", "Окт", "Ноя", "Дек"],
        Lang::Fr => seq!["janv", "févr", "mars", "avr", "mai", "juin", "juil", "août", "sept", "oct", "nov", "déc"],
    }
}

impl Lang {
    /// This language's dictionary.
    pub fn dict(&self) -> (d: Dict)
        ensures
            d == spec_dict(*self),
    {
        match self {
            Lang::En => en::make(),
            Lang::Es => es::make(),
            Lang::Zh => zh::make(),
            Lang::De => de::make(),
            Lang::Ru => ru::make(),
            Lang::Fr => fr::make(),
        }
    }

    /// Localized month abbreviations (12 entries, Jan..Dec).
    pub fn months_abbr(&self) -> (m: [&'static str; 12])
        ensures
            m@ == spec_months(*self),
    {
        let m = match self {
            Lang::En => ["Jan", "Feb", "Mar", "Apr", "May", "Jun", "Jul", "Aug", "Sep", "Oct", "Nov", "Dec"],
            Lang::Es => ["Ene", "Feb", "Mar", "Abr", "May", "Jun", "Jul", "Ago", "Sep", "Oct", "Nov", "Dic"],
            Lang::Zh => ["1月", "2月", "3月", "4月", "5月", "6月", "7月", "8月", "9月", "10月", "11月", "12月"],
            Lang::De => ["Jan", "Feb", "Mär", "Apr", "Mai", "Jun", "Jul", "Aug", "Sep", "Okt", "Nov", "Dez"],
            Lang::Ru => ["Янв", "Фев", "Мар", "Апр", "Май", "Июн", "Июл", "Авг", "Сен", "Окт", "Ноя", "Дек"],
            Lang::Fr => ["janv", "févr", "mars", "avr", "mai", "juin", "juil", "août", "sept", "oct", "nov", "déc"],
        };
        assert(m@ =~= spec_months(*self));
        m
    }
}

/// Reading back a language's own code gives the language.
pub proof fn lemma_code_roundtrip(l: Lang)
    ensures
        lang_of_code(lang_code(l)) == Some(l),
{
    reveal_strlit("en");
    reveal_strlit("es");
    reveal_strlit("zh");
    reveal_strlit("de");
    reveal_strlit("ru");
    reveal_strlit("fr");
    let codes = seq!["en"@, "es"@, "zh"@, "de"@, "ru"@, "fr"@];
    assert forall|i: int, j: int| 0 <= i < j < 6 implies codes[i] != codes[j] by {
        if codes[i] == codes[j] {
            assert(codes[i][0] == codes[j][0]);
            assert(codes[i][1] == codes[j][1]);
        }
    }
    assert(codes[0] != codes[1] && codes[0] != codes[2] && codes[0] != codes[3] && codes[0]
        != codes[4] && codes[0] != codes[5]);
    assert(codes[1] != codes[2] && codes[1] != codes[3] && codes[1] != codes[4] && codes[1]
        != codes[5]);
    assert(codes[2] != codes[3] && codes[2] != codes[4] && codes[2] != codes[5]);
    assert(codes[3] != codes[4] && codes[3] != codes[5]);
    assert(codes[4] != codes[5]);
}

// ---------------------------------------------------------------------------
// Runtime template formatting
// ---------------------------------------------------------------------------

/// Whether `c` is an ASCII decimal digit.
pub open spec fn is_digit(c: char) -> bool {
    48 <= (c as u32) <= 57
}

/// Argument `d` if it exists, else nothing.
pub open spec fn arg_text(args: Seq<Seq<char>>, d: int) -> Seq<char> {
    if 0 <= d < args.len() {
        args[d]
    } else {
        Seq::empty()
    }
}

/// Whether a `{n}` placeholder (one digit) starts at the head of `t`.
pub open spec fn placeholder_at_head(t: Seq<char>) -> bool {
    t.len() >= 3 && t[0] == '{' && is_digit(t[1]) && t[2] == '}'
}

/// A template rendered against arguments: each `{n}` becomes argument `n`
/// (nothing when there is no such argument); every other character,
/// including a `{` that does not open a placeholder, is copied.
pub open spec fn render(t: Seq<char>, args: Seq<Seq<char>>) -> Seq<char>
    decreases t.len(),
{
    if t.len() == 0 {
        Seq::empty()
    } else if placeholder_at_head(t) {
        arg_text(args, (t[1] as u32) - 48) + render(t.skip(3), args)
    } else {
        seq![t[0]] + render(t.skip(1), args)
    }
}

/// The characters of each argument.
pub open spec fn arg_views(args: Seq<&str>) -> Seq<Seq<char>> {
    args.map_values(|a: &str| a@)
}

/// Appends `render(cs[from..], args)` to `out`.
fn render_into(out: &mut String, cs: &Vec<char>, from: usize, args: &[&str])
    requires
        from <= cs@.len(),
    ensures
        final(out)@ == old(out)@ + render(cs@.skip(from as int), arg_views(args@)),
{
    let ghost a = arg_views(args@);
    let mut i = from;
    while i < cs.len()
        invariant
            from <= i <= cs@.len(),
            a == arg_views(args@),
            out@ + render(cs@.skip(i as int), a) == old(out)@ + render(cs@.skip(from as int), a),
        decreases cs@.len() - i,
    {
        let ghost before = out@;
        let ghost t = cs@.skip(i as int);
        if cs[i] == '{' && cs.len() - i > 2 && (cs[i + 1] as u32) >= 48 && (cs[i + 1] as u32) <= 57
            && cs[i + 2] == '}' {
            let idx = ((cs[i + 1] as u32) - 48) as usize;
            assert(placeholder_at_head(t));
            if idx < args.len() {
                push_str(out, args[idx]);
            }
            assert(t.skip(3) =~= cs@.skip(i + 3));
            assert(out@ == before + arg_text(a, (t[1] as u32) - 48));
            assert(out@ + render(cs@.skip(i + 3), a) =~= before + render(t, a));
            i += 3;
        } else {
            push_char(out, cs[i]);
            assert(!placeholder_at_head(t));
            assert(t.skip(1) =~= cs@.skip(i + 1));
            assert(out@ + render(cs@.skip(i + 1), a) =~= before + render(t, a));
            i += 1;
        }
    }
    assert(cs@.skip(cs@.len() as int) =~= Seq::<char>::empty());
    assert(out@ =~= out@ + render(cs@.skip(i as int), a));
}

/// Render a `{n}`-placeholder template against a slice of pre-formatted
/// argument strings.
///
/// Placeholders are written as `{0}`, `{1}`, ... (single digit, 0-9). A bare
/// `{` with no following digit is emitted literally; a placeholder whose
/// argument is missing renders as nothing.
pub fn fmt(template: &str, args: &[&str]) -> (s: String)
    ensures
        s@ == render(template@, arg_views(args@)),
{
    let cs = chars_of(template);
    let mut out = String::new();
    render_into(&mut out, &cs, 0, args);
    assert(cs@.skip(0) =~= template@);
    out
}

/// [`fmt`] with one argument.
pub(crate) fn fmt1(template: &str, a: &str) -> (s: String)
    ensures
        s@ == render(template@, seq![a@]),
{
    let v: Vec<&str> = vec![a];
    assert(arg_views(v@) =~= seq![a@]);
    fmt(template, v.as_slice())
}

/// [`fmt`] with two arguments.
pub(crate) fn fmt2(template: &str, a: &str, b: &str) -> (s: String)
    ensures
        s@ == render(template@, seq![a@, b@]),
{
    let v: Vec<&str> = vec![a, b];
    assert(arg_views(v@) =~= seq![a@, b@]);
    fmt(template, v.as_slice())
}

// ---------------------------------------------------------------------------
// Label alignment helpers
// ---------------------------------------------------------------------------

/// ASCII text is as wide as it is long.
proof fn lemma_ascii_width(a: Seq<char>)
    requires
        forall|i: int| 0 <= i < a.len() ==> (#[trigger] a[i] as u32) < 128,
    ensures
        text::width(a) == a.len(),
    decreases a.len(),
{
    if a.len() > 0 {
        assert(a.last() == a[a.len() - 1]);
        lemma_ascii_width(a.drop_last());
    }
}

/// Law of the display width ([`str_width`]): the width of joined text is
/// the sum of the parts' widths; ASCII text is as wide as it is long; text
/// is at least as wide as its number of characters and at most twice that;
/// every non-ASCII character (CJK, emoji, Cyrillic alike) takes two cells.
pub proof fn lemma_str_width_laws(a: Seq<char>, b: Seq<char>)
    ensures
        text::width(a + b) == text::width(a) + text::width(b),
        (forall|i: int| 0 <= i < a.len() ==> (#[trigger] a[i] as u32) < 128) ==> text::width(a) == a.len(),
        a.len() <= text::width(a) <= 2 * a.len(),
        forall|c: char| (c as u32) >= 128 ==> #[trigger] text::width(seq![c]) == 2,
{
    text::lemma_width_append(a, b);
    text::lemma_width_bounds(a);
    if forall|i: int| 0 <= i < a.len() ==> (#[trigger] a[i] as u32) < 128 {
        lemma_ascii_width(a);
    }
    assert forall|c: char| (c as u32) >= 128 implies #[trigger] text::width(seq![c]) == 2 by {
        let t = seq![c];
        assert(t.drop_last() =~= Seq::<char>::empty());
        assert(text::width(t.drop_last()) == 0);
        assert(t.last() == c);
        assert(text::char_width(c) == 2);
    }
}

/// Approximate display width of a string: 1 column per ASCII char, 2 columns
/// per non-ASCII char (right for CJK and emoji, one column too many for
/// accented Latin and Cyrillic letters, which is acceptable for label
/// alignment: `"Цена"` counts 8). [`lemma_str_width_laws`] gives the rules
/// that follow.
pub fn str_width(s: &str) -> (w: usize)
    requires
        s@.len() <= isize::MAX,
    ensures
        w == text::width(s@),
{
    let cs = chars_of(s);
    let w = width_of_range(&cs, 0, cs.len());
    assert(cs@.subrange(0, cs@.len() as int) =~= s@);
    w
}

/// `s` followed by spaces up to display width `w` (unchanged when already
/// that wide).
pub open spec fn pad_right(s: Seq<char>, w: nat) -> Seq<char> {
    if text::width(s) >= w {
        s
    } else {
        s + text::spaces((w - text::width(s)) as nat)
    }
}

/// `s` preceded by spaces up to display width `w` (unchanged when already
/// that wide).
pub open spec fn pad_left_text(s: Seq<char>, w: nat) -> Seq<char> {
    if text::width(s) >= w {
        s
    } else {
        text::spaces((w - text::width(s)) as nat) + s
    }
}

/// Padding on the right gives at least `w` cells, and no more than needed.
pub proof fn lemma_pad_right_width(s: Seq<char>, w: nat)
    ensures
        text::width(pad_right(s, w)) == if text::width(s) >= w { text::width(s) } else { w },
{
    if text::width(s) < w {
        text::lemma_width_append(s, text::spaces((w - text::width(s)) as nat));
        text::lemma_width_spaces((w - text::width(s)) as nat);
    }
}

/// Padding on the left gives at least `w` cells, and no more than needed.
pub proof fn lemma_pad_left_width(s: Seq<char>, w: nat)
    ensures
        text::width(pad_left_text(s, w)) == if text::width(s) >= w { text::width(s) } else { w },
{
    if text::width(s) < w {
        text::lemma_width_append(text::spaces((w - text::width(s)) as nat), s);
        text::lemma_width_spaces((w - text::width(s)) as nat);
    }
}

/// Appends `n` spaces.
fn push_spaces(out: &mut String, n: usize)
    ensures
        final(out)@ == old(out)@ + text::spaces(n as nat),
{
    let mut i: usize = 0;
    while i < n
        invariant
            i <= n,
            out@ == old(out)@ + text::spaces(i as nat),
        decreases n - i,
    {
        push_char(out, ' ');
        i += 1;
        assert(out@ =~= old(out)@ + text::spaces(i as nat));
    }
}

/// Appends `cs[from..to]`.
fn push_range(out: &mut String, cs: &Vec<char>, from: usize, to: usize)
    requires
        from <= to <= cs@.len(),
    ensures
        final(out)@ == old(out)@ + cs@.subrange(from as int, to as int),
{
    let mut i = from;
    while i < to
        invariant
            from <= i <= to <= cs@.len(),
            out@ == old(out)@ + cs@.subrange(from as int, i as int),
        decreases to - i,
    {
        push_char(out, cs[i]);
        i += 1;
        assert(out@ =~= old(out)@ + cs@.subrange(from as int, i as int));
    }
}

/// Appends `pad_right(cs[from..to], w)`.
fn push_padded_right(out: &mut String, cs: &Vec<char>, from: usize, to: usize, w: usize)
    requires
        from <= to <= cs@.len(),
        cs@.len() <= isize::MAX,
    ensures
        final(out)@ == old(out)@ + pad_right(cs@.subrange(from as int, to as int), w as nat),
{
    let sw = width_of_range(cs, from, to);
    push_range(out, cs, from, to);
    if sw < w {
        push_spaces(out, w - sw);
    }
    assert(final(out)@ =~= old(out)@ + pad_right(cs@.subrange(from as int, to as int), w as nat));
}

/// Left-justify `s`, padding with spaces so its display width reaches `width`.
/// Strings already at or beyond `width` are returned unchanged.
pub fn pad_to(s: &str, width: usize) -> (r: String)
    requires
        s@.len() <= isize::MAX,
    ensures
        r@ == pad_right(s@, width as nat),
{
    let cs = chars_of(s);
    let mut out = String::new();
    push_padded_right(&mut out, &cs, 0, cs.len(), width);
    assert(cs@.subrange(0, cs@.len() as int) =~= s@);
    assert(out@ =~= pad_right(s@, width as nat));
    out
}

/// Right-justify `s`, padding on the left with spaces so its display width
/// reaches `width`. Used to align numeric columns.
pub fn pad_left(s: &str, width: usize) -> (r: String)
    requires
        s@.len() <= isize::MAX,
    ensures
        r@ == pad_left_text(s@, width as nat),
{
    let w = str_width(s);
    let mut out = String::new();
    if w < width {
        push_spaces(&mut out, width - w);
    }
    push_str(&mut out, s);
    assert(out@ =~= pad_left_text(s@, width as nat));
    out
}

/// Whether a `{0}` placeholder starts at position `i` of `t`.
pub open spec fn value_at(t: Seq<char>, i: int) -> bool {
    0 <= i && i + 3 <= t.len() && t[i] == '{' && t[i + 1] == '0' && t[i + 2] == '}'
}

/// Position of the first `{0}` placeholder of `t` at or after `i`.
pub open spec fn find_value_from(t: Seq<char>, i: int) -> Option<int>
    decreases t.len() - i,
{
    if i < 0 || i + 3 > t.len() {
        None
    } else if value_at(t, i) {
        Some(i)
    } else {
        find_value_from(t, i + 1)
    }
}

/// The value position found from `j` is the first one from `j` on.
pub proof fn lemma_find_value_from(t: Seq<char>, j: int)
    requires
        0 <= j,
    ensures
        find_value_from(t, j) matches Some(i) ==> j <= i && i + 3 <= t.len() && value_at(t, i)
            && forall|k: int| j <= k < i ==> !value_at(t, k),
        find_value_from(t, j) is None ==> forall|k: int| j <= k ==> !value_at(t, k),
    decreases t.len() - j,
{
    if j >= 0 && j + 3 <= t.len() && !value_at(t, j) {
        lemma_find_value_from(t, j + 1);
    }
}

/// Position of the first `{0}` placeholder of `t` (`str::find("{0}")`).
pub open spec fn find_value(t: Seq<char>) -> Option<int> {
    find_value_from(t, 0)
}

/// The label portion of a template: the text before the first `{0}` (the
/// whole template when there is none), without trailing whitespace.
pub open spec fn label_of(t: Seq<char>) -> Seq<char> {
    match find_value(t) {
        Some(i) => text::trim_end(t.take(i)),
        None => text::trim_end(t),
    }
}

/// Finds the first `{0}` of `cs`, as [`find_value`] describes.
fn find_value_in(cs: &Vec<char>) -> (r: Option<usize>)
    ensures
        r == (match find_value(cs@) {
            Some(i) => Some(i as usize),
            None => None::<usize>,
        }),
        r matches Some(i) ==> i + 3 <= cs@.len(),
        find_value(cs@) matches Some(i) ==> 0 <= i && i + 3 <= cs@.len(),
{
    proof {
        lemma_find_value_from(cs@, 0);
    }
    let mut i: usize = 0;
    while cs.len() >= 3 && i <= cs.len() - 3
        invariant
            i <= cs@.len(),
            find_value(cs@) == find_value_from(cs@, i as int),
        decreases cs@.len() - i,
    {
        if cs[i] == '{' && cs[i + 1] == '0' && cs[i + 2] == '}' {
            return Some(i);
        }
        i += 1;
    }
    None
}

/// The label portion of a template: everything before the first `{0}`
/// placeholder, with any trailing whitespace (spaces or tabs) stripped.
pub fn prefix_before_value(template: &str) -> (r: &str)
    ensures
        r@ == label_of(template@),
{
    let cs = chars_of(template);
    let end = match find_value_in(&cs) {
        Some(i) => i,
        None => cs.len(),
    };
    let k = count_trail_ws(&cs, 0, end);
    let ghost x = template@.take(end as int);
    assert(x =~= cs@.subrange(0, end as int));
    assert(template@.take(template@.len() as int) =~= template@);
    assert(label_of(template@) == text::trim_end(x));
    assert(text::trim_end(x) =~= template@.subrange(0, end - k));
    template.substring_char(0, end - k)
}

/// The aligned rendering: the label (text before the first `{0}`, trailing
/// whitespace removed; nothing when there is no `{0}`) padded to `w`
/// columns, followed by the rest of the template rendered.
pub open spec fn aligned(t: Seq<char>, args: Seq<Seq<char>>, w: nat) -> Seq<char> {
    let idx = match find_value(t) {
        Some(i) => i,
        None => 0,
    };
    pad_right(text::trim_end(t.take(idx)), w) + render(t.skip(idx), args)
}

/// Law: an aligned line starts its value at display column `w`: it is the
/// template's label (the text before `{0}`, trailing blanks and tabs
/// dropped), then plain spaces up to `w` cells, then the rest of the
/// template from `{0}` on, filled in. So two lines aligned to the same `w`
/// start their values in the same column.
pub proof fn lemma_aligned_value_column(t: Seq<char>, args: Seq<Seq<char>>, w: nat)
    requires
        find_value(t) is Some,
        text::width(text::trim_end(t.take(find_value(t)->0))) <= w,
    ensures
        ({
            let i = find_value(t)->0;
            let label = text::trim_end(t.take(i));
            let pre = label + text::spaces((w - text::width(label)) as nat);
            &&& aligned(t, args, w) == pre + render(t.skip(i), args)
            &&& text::width(pre) == w
        }),
{
    let i = find_value(t)->0;
    let label = text::trim_end(t.take(i));
    let sp = text::spaces((w - text::width(label)) as nat);
    text::lemma_width_append(label, sp);
    text::lemma_width_spaces((w - text::width(label)) as nat);
    if text::width(label) == w {
        assert(sp =~= Seq::<char>::empty());
        assert(label + sp =~= label);
    }
}

/// Like [`fmt`], but the label prefix (text before `{0}`) is right-padded
/// with spaces to `label_width` columns, replacing any tabs/whitespace that
/// were baked into the template.
pub fn fmt_aligned(template: &str, args: &[&str], label_width: usize) -> (s: String)
    requires
        template@.len() <= isize::MAX,
    ensures
        s@ == aligned(template@, arg_views(args@), label_width as nat),
{
    let cs = chars_of(template);
    let idx = match find_value_in(&cs) {
        Some(i) => i,
        None => 0,
    };
    let k = count_trail_ws(&cs, 0, idx);
    let mut out = String::new();
    push_padded_right(&mut out, &cs, 0, idx - k, label_width);
    render_into(&mut out, &cs, idx, args);
    assert(cs@.subrange(0, idx as int) =~= template@.take(idx as int));
    assert(cs@.subrange(0, (idx - k) as int) =~= text::trim_end(template@.take(idx as int)));
    assert(out@ =~= aligned(template@, arg_views(args@), label_width as nat));
    out
}

/// Like [`fmt_aligned`] but with a caller-supplied prefix string (padded to
/// `label_width`) instead of extracting the prefix from the template.
pub fn fmt_prefixed(template: &str, prefix: &str, args: &[&str], label_width: usize) -> (s: String)
    requires
        prefix@.len() <= isize::MAX,
    ensures
        s@ == pad_right(prefix@, label_width as nat) + render(template@, arg_views(args@)),
{
    let mut out = pad_to(prefix, label_width);
    let cs = chars_of(template);
    render_into(&mut out, &cs, 0, args);
    assert(cs@.skip(0) =~= template@);
    out
}

/// The values of each row of a block, as characters.
pub open spec fn block_values(rows: Seq<(&str, Vec<String>)>) -> Seq<Seq<Seq<char>>> {
    rows.map_values(|r: (&str, Vec<String>)| r.1@.map_values(|v: String| v@))
}

/// Width of value column `i` of a block: the widest value in that column
/// (0 when no row has one).
pub open spec fn col_width(vals: Seq<Seq<Seq<char>>>, i: int) -> nat
    decreases vals.len(),
{
    if vals.len() == 0 {
        0
    } else {
        let r = vals.last();
        let w = if 0 <= i < r.len() {
            text::width(r[i])
        } else {
            0
        };
        let rest = col_width(vals.drop_last(), i);
        if rest >= w {
            rest
        } else {
            w
        }
    }
}

/// Row `k` of a block with each value right-aligned to its column width.
pub open spec fn padded_row(vals: Seq<Seq<Seq<char>>>, k: int) -> Seq<Seq<char>> {
    Seq::new(vals[k].len(), |i: int| pad_left_text(vals[k][i], col_width(vals, i)))
}

/// A value is never wider than its column.
pub proof fn lemma_col_width_bound(vals: Seq<Seq<Seq<char>>>, k: int, i: int)
    requires
        0 <= k < vals.len(),
        0 <= i < vals[k].len(),
    ensures
        text::width(vals[k][i]) <= col_width(vals, i),
    decreases vals.len(),
{
    if k < vals.len() - 1 {
        assert(vals.drop_last()[k] == vals[k]);
        lemma_col_width_bound(vals.drop_last(), k, i);
    }
}

/// A block of rows is aligned column by column: in each row, value `i` is
/// padded on the left to exactly the width of the widest value of column
/// `i` across all rows, so every column ends at the same display column.
pub proof fn lemma_block_columns_align(vals: Seq<Seq<Seq<char>>>, k: int, i: int)
    requires
        0 <= k < vals.len(),
        0 <= i < vals[k].len(),
    ensures
        text::width(padded_row(vals, k)[i]) == col_width(vals, i),
{
    lemma_col_width_bound(vals, k, i);
    lemma_pad_left_width(vals[k][i], col_width(vals, i));
}

/// Whether every template and value of a block fits the machine's string
/// size limit.
pub open spec fn block_fits(rows: Seq<(&str, Vec<String>)>) -> bool {
    forall|k: int|
        0 <= k < rows.len() ==> {
            &&& (#[trigger] rows[k]).0@.len() <= isize::MAX
            &&& forall|i: int| 0 <= i < rows[k].1@.len() ==> (#[trigger] rows[k].1@[i])@.len() <= isize::MAX
        }
}

/// Render a block of rows that share a common column structure, right-aligning
/// each value column to the maximum display width across all rows for that
/// column, and space-padding the label prefix to `label_width`.
///
/// Each entry is `(template, row)` where `row` is the list of pre-formatted
/// argument strings for the template's `{0}`..`{n}` placeholders.
pub fn fmt_block(rows: &[(&str, Vec<String>)], label_width: usize) -> (out: Vec<String>)
    requires
        block_fits(rows@),
    ensures
        out@.len() == rows@.len(),
        forall|k: int|
            0 <= k < rows@.len() ==> (#[trigger] out@[k])@ == aligned(
                rows@[k].0@,
                padded_row(block_values(rows@), k),
                label_width as nat,
            ),
{
    let ghost vals = block_values(rows@);
    // Number of value columns: the longest row.
    let mut n_cols: usize = 0;
    let mut k: usize = 0;
    while k < rows.len()
        invariant
            k <= rows@.len(),
            forall|j: int| 0 <= j < k ==> rows@[j].1@.len() <= n_cols,
        decreases rows@.len() - k,
    {
        if rows[k].1.len() > n_cols {
            n_cols = rows[k].1.len();
        }
        k += 1;
    }
    // Widest value of each column.
    let mut col_w: Vec<usize> = Vec::new();
    while col_w.len() < n_cols
        invariant
            col_w@.len() <= n_cols,
            forall|i: int| 0 <= i < col_w@.len() ==> col_w@[i] == 0,
        decreases n_cols - col_w@.len(),
    {
        col_w.push(0);
    }
    let mut k: usize = 0;
    while k < rows.len()
        invariant
            k <= rows@.len(),
            vals == block_values(rows@),
            block_fits(rows@),
            col_w@.len() == n_cols,
            forall|j: int| 0 <= j < rows@.len() ==> rows@[j].1@.len() <= n_cols,
            forall|i: int| 0 <= i < n_cols ==> col_w@[i] == col_width(vals.take(k as int), i),
        decreases rows@.len() - k,
    {
        let row = &rows[k].1;
        let ghost prev = col_w@;
        assert(vals.take(k + 1).drop_last() =~= vals.take(k as int));
        assert(vals.take(k + 1).last() == vals[k as int]);
        assert(vals[k as int].len() == row@.len());
        let mut i: usize = 0;
        while i < row.len()
            invariant
                k < rows@.len(),
                i <= row@.len(),
                row == rows@[k as int].1,
                vals == block_values(rows@),
                block_fits(rows@),
                row@.len() <= n_cols,
                col_w@.len() == n_cols,
                vals.take(k + 1).drop_last() == vals.take(k as int),
                vals.take(k + 1).last() == vals[k as int],
                vals.take(k + 1).len() == k + 1,
                vals[k as int].len() == row@.len(),
                prev.len() == n_cols,
                forall|j: int| 0 <= j < n_cols ==> prev[j] == col_width(vals.take(k as int), j),
                forall|j: int| 0 <= j < i ==> col_w@[j] == col_width(vals.take(k + 1), j),
                forall|j: int| i <= j < n_cols ==> col_w@[j] == prev[j],
            decreases row@.len() - i,
        {
            assert(rows@[k as int].1@[i as int]@.len() <= isize::MAX);
            let w = str_width(row[i].as_str());
            assert(vals[k as int][i as int] == row@[i as int]@);
            if w > col_w[i] {
                col_w.set(i, w);
            }
            proof {
                let t1 = vals.take(k + 1);
                assert(t1.len() > 0);
                assert(t1.last() == vals[k as int]);
                assert(0 <= i < t1.last().len());
                assert(text::width(t1.last()[i as int]) == w);
                assert(col_width(t1.drop_last(), i as int) == prev[i as int]);
                assert(col_width(t1, i as int) == (if prev[i as int] >= w { prev[i as int] as nat } else { w as nat }));
            }
            assert(col_w@[i as int] == col_width(vals.take(k + 1), i as int));
            i += 1;
        }
        assert forall|j: int| 0 <= j < n_cols implies col_w@[j] == col_width(vals.take(k + 1), j) by {
            if j >= row@.len() {
                let t1 = vals.take(k + 1);
                assert(t1.len() > 0);
                assert(t1.last() == vals[k as int]);
                assert(!(0 <= j < t1.last().len()));
                assert(col_width(t1.drop_last(), j) == prev[j]);
                assert(col_width(t1, j) == prev[j]);
            }
        }
        k += 1;
    }
    assert(vals.take(rows@.len() as int) =~= vals);
    // Render each row with its values right-aligned.
    let mut out: Vec<String> = Vec::new();
    let mut k: usize = 0;
    while k < rows.len()
        invariant
            k <= rows@.len(),
            out@.len() == k,
            vals == block_values(rows@),
            block_fits(rows@),
            col_w@.len() == n_cols,
            forall|j: int| 0 <= j < rows@.len() ==> rows@[j].1@.len() <= n_cols,
            forall|i: int| 0 <= i < n_cols ==> col_w@[i] == col_width(vals, i),
            forall|j: int|
                0 <= j < k ==> (#[trigger] out@[j])@ == aligned(
                    rows@[j].0@,
                    padded_row(vals, j),
                    label_width as nat,
                ),
        decreases rows@.len() - k,
    {
        let (t, row) = (rows[k].0, &rows[k].1);
        let mut padded: Vec<String> = Vec::new();
        let mut i: usize = 0;
        while i < row.len()
            invariant
                k < rows@.len(),
                i <= row@.len(),
                row == rows@[k as int].1,
                vals == block_values(rows@),
                block_fits(rows@),
                row@.len() <= n_cols,
                col_w@.len() == n_cols,
                forall|i: int| 0 <= i < n_cols ==> col_w@[i] == col_width(vals, i),
                padded@.len() == i,
                forall|j: int| 0 <= j < i ==> (#[trigger] padded@[j])@ == padded_row(vals, k as int)[j],
            decreases row@.len() - i,
        {
            assert(rows@[k as int].1@[i as int]@.len() <= isize::MAX);
            assert(vals[k as int][i as int] == row@[i as int]@);
            padded.push(pad_left(row[i].as_str(), col_w[i]));
            i += 1;
        }
        let mut refs: Vec<&str> = Vec::new();
        let mut i: usize = 0;
        while i < padded.len()
            invariant
                i <= padded@.len(),
                refs@.len() == i,
                forall|j: int| 0 <= j < i ==> (#[trigger] refs@[j])@ == padded@[j]@,
            decreases padded@.len() - i,
        {
            refs.push(padded[i].as_str());
            i += 1;
        }
        assert(arg_views(refs@) =~= padded_row(vals, k as int));
        let line = fmt_aligned(t, refs.as_slice(), label_width);
        out.push(line);
        k += 1;
    }
    out
}

} // verus!
