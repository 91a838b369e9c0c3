//! Layout arithmetic for the text screen: chart bar widths, slider tracks,
//! braille dots and word wrapping.
use vstd::prelude::*;
use crate::lang::{spec_dict, spec_months, Lang};
use crate::plan::AppState;
use crate::plan::round_div;
use crate::slider::Slider;
use crate::text;
use crate::text::{char_cols, chars_of, push_char, split_range, string_of, width_of_range, words_range};

verus! {

broadcast use vstd::string::group_string_axioms;

/// Localized month abbreviations of `lang`.
pub fn months(lang: &Lang) -> (m: [&'static str; 12])
    ensures
        m@ == spec_months(*lang),
{
    lang.months_abbr()
}

/// Bar width that lets the twelve two-bar month groups fill `chart_width`
/// cells: `(chart_width - 12 * bar_gap - 11 * group_gap) / 24`, at least 1.
pub fn fit_bar_width(chart_width: u16, bar_gap: u16, group_gap: u16) -> (w: u16)
    requires
        12 * bar_gap + 11 * group_gap <= u16::MAX,
    ensures
        ({
            let fixed = 12 * bar_gap + 11 * group_gap;
            let remaining = if chart_width > fixed { chart_width - fixed } else { 0 };
            w == if remaining / 24 > 1 { remaining / 24 } else { 1 }
        }),
{
    let fixed: u16 = 12u16 * bar_gap + 11 * group_gap;
    let remaining: u16 = chart_width.saturating_sub(fixed);
    let w: u16 = remaining / (12 * 2);
    if w > 1 {
        w
    } else {
        1
    }
}

/// The braille dot bit of sub-cell column `dc` (0 left, 1 right) and row
/// `dr` (0..4) in the U+2800 block, where dots 1, 2, 3 and 7 run down the
/// left column and dots 4, 5, 6 and 8 down the right one; 0 outside the
/// cell.
pub open spec fn braille_dot(dc: int, dr: int) -> int {
    if 0 <= dr < 4 && 0 <= dc < 2 {
        if dc == 0 {
            if dr == 0 { 0x01 } else if dr == 1 { 0x02 } else if dr == 2 { 0x04 } else { 0x40 }
        } else {
            if dr == 0 { 0x08 } else if dr == 1 { 0x10 } else if dr == 2 { 0x20 } else { 0x80 }
        }
    } else {
        0
    }
}

/// Braille dot bit for sub-cell column `dc` and row `dr`.
pub fn braille_bit(dc: usize, dr: usize) -> (b: u8)
    ensures
        b == braille_dot(dc as int, dr as int),
{
    match (dr, dc) {
        (0, 0) => 0x01,
        (0, 1) => 0x08,
        (1, 0) => 0x02,
        (1, 1) => 0x10,
        (2, 0) => 0x04,
        (2, 1) => 0x20,
        (3, 0) => 0x40,
        (3, 1) => 0x80,
        _ => 0,
    }
}

/// Number of filled cells of a `w`-cell slider track: the slider's position
/// in its range times `w`, rounded to the nearest cell (halves up), kept
/// within `0..=w`.
pub open spec fn track_filled(value: int, min: int, max: int, w: int) -> int {
    let span = if max - min > 1 { max - min } else { 1 };
    let f = round_div((value - min) * w, span);
    if f < 0 { 0 } else if f > w { w } else { f }
}

/// The track: `filled` full blocks, then light-shade blocks up to `w`.
pub open spec fn track_text(filled: int, w: int) -> Seq<char> {
    Seq::new(w as nat, |i: int| if i < filled { '\u{2588}' } else { '\u{2591}' })
}

/// `t` is a track of `f` full blocks followed by light-shade blocks.
pub open spec fn is_track(t: Seq<char>, f: int) -> bool {
    &&& 0 <= f <= t.len()
    &&& forall|i: int| 0 <= i < f ==> t[i] == '\u{2588}'
    &&& forall|i: int| f <= i < t.len() ==> t[i] == '\u{2591}'
}

/// A `width`-cell slider track (at least one cell) whose filled part is
/// proportional to the value's position within `[min, max]`.
pub fn slider_track(s: &Slider, width: usize) -> (r: String)
    requires
        i64::MIN <= s.value - s.min <= i64::MAX,
        i64::MIN <= s.max - s.min <= i64::MAX,
    ensures
        ({
            let w = if width < 1 { 1 } else { width as int };
            r@ == track_text(track_filled(s.value as int, s.min as int, s.max as int, w), w)
        }),
        ({
            let w = if width < 1 { 1 } else { width as int };
            let span = s.max - s.min;
            &&& r@.len() == w
            &&& exists|f: int|
                #![trigger is_track(r@, f)]
                is_track(r@, f) && (s.min <= s.value <= s.max && span > 1 ==> -span <= 2 * (f * span - (s.value
                    - s.min) * w) <= span)
        }),
{
    let w: usize = if width < 1 { 1 } else { width };
    let diff: i64 = s.max - s.min;
    let span: i64 = if diff > 1 { diff } else { 1 };
    let d: i64 = s.value - s.min;
    let filled: usize = if d <= 0 {
        0
    } else if d >= span {
        w
    } else {
        assert(2 * (d as int) * (w as int) + span < 0xffff_ffff_ffff_ffff_ffff_ffff_ffff_ffff) by (nonlinear_arith)
            requires
                0 < d < span, span <= 0x7fff_ffff_ffff_ffff, w <= 0xffff_ffff_ffff_ffff;
        assert(2 * (d as int) <= 0xffff_ffff_ffff_ffff);
        assert(2 * (d as int) * (w as int) <= 0xffff_ffff_ffff_ffff_ffff_ffff_ffff_ffff) by (nonlinear_arith)
            requires
                0 < d < span, span <= 0x7fff_ffff_ffff_ffff, w <= 0xffff_ffff_ffff_ffff;
        let num: u128 = 2 * (d as u128) * (w as u128) + (span as u128);
        let f: u128 = num / (2 * (span as u128));
        proof {
            assert(f <= w) by (nonlinear_arith)
                requires
                    0 < d < span,
                    f == (2 * (d as int) * (w as int) + span) / (2 * span);
            assert(f == round_div((d as int) * (w as int), span as int)) by (nonlinear_arith)
                requires
                    0 < d,
                    span > 0,
                    f == (2 * (d as int) * (w as int) + span) / (2 * span);
        }
        f as usize
    };
    proof {
        let ghost tf = track_filled(s.value as int, s.min as int, s.max as int, w as int);
        if d <= 0 {
            assert(round_div((d as int) * (w as int), span as int) <= 0) by (nonlinear_arith)
                requires d <= 0, span > 0, w >= 1;
        } else if d >= span {
            assert(round_div((d as int) * (w as int), span as int) >= w) by (nonlinear_arith)
                requires d >= span, span > 0, w >= 1;
        }
        assert(filled == tf);
    }
    let mut out = String::new();
    let mut i: usize = 0;
    while i < w
        invariant
            i <= w,
            filled <= w,
            out@ == track_text(filled as int, w as int).take(i as int),
        decreases w - i,
    {
        if i < filled {
            push_char(&mut out, '\u{2588}');
        } else {
            push_char(&mut out, '\u{2591}');
        }
        i = i + 1;
        assert(out@ =~= track_text(filled as int, w as int).take(i as int));
    }
    assert(out@ =~= track_text(filled as int, w as int));
    proof {
        assert(is_track(out@, filled as int));
        if s.min <= s.value <= s.max && s.max - s.min > 1 {
            crate::plan::lemma_round_div_nearest((d as int) * (w as int), span as int);
            let q = round_div((d as int) * (w as int), span as int);
            assert(0 <= q <= w) by (nonlinear_arith)
                requires
                    -span <= 2 * (q * span - (d as int) * (w as int)) <= span,
                    0 <= d <= span,
                    span > 1,
                    w >= 1;
            assert(filled == q);
        }
    }
    out
}

// ---------------------------------------------------------------------------
// Word wrapping
// ---------------------------------------------------------------------------

/// Length of the longest prefix of `w`, from `k` on, whose width fits in
/// `width` cells (characters are taken one by one until the next one would
/// overflow).
pub open spec fn fit_from(w: Seq<char>, width: nat, k: nat) -> nat
    decreases w.len() - k,
{
    if k < w.len() && text::width(w.take(k + 1int)) <= width {
        fit_from(w, width, k + 1)
    } else {
        k
    }
}

/// A word wider than `width` cut into `width`-cell pieces: the full pieces,
/// and the last part (which fits). A character wider than a whole line makes
/// a piece of its own.
pub open spec fn hard_split(w: Seq<char>, width: nat) -> (Seq<Seq<char>>, Seq<char>)
    decreases w.len(),
{
    if text::width(w) <= width {
        (Seq::empty(), w)
    } else {
        let f = fit_from(w, width, 0);
        let k = if f == 0 { 1 } else { f };
        if k > w.len() {
            (Seq::empty(), w)
        } else {
            let r = hard_split(w.skip(k as int), width);
            (seq![w.take(k as int)] + r.0, r.1)
        }
    }
}

/// Start a new current line with `word` after the finished `lines`,
/// cutting the word when it is wider than the line.
pub open spec fn place_word(lines: Seq<Seq<char>>, word: Seq<char>, width: nat) -> (Seq<Seq<char>>, Seq<char>) {
    if text::width(word) <= width {
        (lines, word)
    } else {
        let h = hard_split(word, width);
        (lines + h.0, h.1)
    }
}

/// One word of the greedy wrap: joined to the current line with a space
/// when it fits, else the current line is finished and the word starts the
/// next one.
pub open spec fn wrap_step(st: (Seq<Seq<char>>, Seq<char>), word: Seq<char>, width: nat) -> (Seq<Seq<char>>, Seq<char>) {
    if st.1.len() == 0 {
        place_word(st.0, word, width)
    } else if text::width(st.1) + 1 + text::width(word) <= width {
        (st.0, st.1 + seq![' '] + word)
    } else {
        place_word(st.0.push(st.1), word, width)
    }
}

/// The finished lines and the current line after wrapping `ws` in order.
pub open spec fn wrap_words(ws: Seq<Seq<char>>, width: nat) -> (Seq<Seq<char>>, Seq<char>)
    decreases ws.len(),
{
    if ws.len() == 0 {
        (Seq::empty(), Seq::empty())
    } else {
        wrap_step(wrap_words(ws.drop_last(), width), ws.last(), width)
    }
}

/// Greedy word wrap of `t` to lines of at most `width` cells, breaking at
/// whitespace; a word wider than a line is cut. Width 0 leaves the text
/// whole; an empty result is one empty line.
pub open spec fn wrapped(t: Seq<char>, width: nat) -> Seq<Seq<char>> {
    if width == 0 {
        seq![t]
    } else {
        let st = wrap_words(text::words(t), width);
        let ls = if st.1.len() > 0 { st.0.push(st.1) } else { st.0 };
        if ls.len() == 0 { seq![Seq::<char>::empty()] } else { ls }
    }
}

/// The strings' characters.
pub open spec fn string_views(v: Seq<String>) -> Seq<Seq<char>> {
    v.map_values(|s: String| s@)
}

/// Longest prefix of `cs[a..b]` that fits in `width` cells.
fn fit_count(cs: &Vec<char>, a: usize, b: usize, width: usize) -> (k: usize)
    requires
        a <= b <= cs@.len(),
    ensures
        k == fit_from(cs@.subrange(a as int, b as int), width as nat, 0),
        k <= b - a,
{
    let ghost w = cs@.subrange(a as int, b as int);
    let mut k: usize = 0;
    let mut wl: usize = 0;
    while a + k < b
        invariant
            a <= b <= cs@.len(),
            w == cs@.subrange(a as int, b as int),
            k <= b - a,
            wl == text::width(w.take(k as int)),
            wl <= width,
            fit_from(w, width as nat, 0) == fit_from(w, width as nat, k as nat),
        decreases b - a - k,
    {
        let cw = char_cols(cs[a + k]);
        proof {
            text::lemma_width_take_step(w, k as int);
        }
        if cw > width - wl {
            return k;
        }
        wl = wl + cw;
        k = k + 1;
    }
    k
}

/// `fit_from` never goes back and never passes the end.
proof fn lemma_fit_from_bounds(w: Seq<char>, width: nat, k: nat)
    requires
        k <= w.len(),
    ensures
        k <= fit_from(w, width, k) <= w.len(),
    decreases w.len() - k,
{
    if k < w.len() && text::width(w.take(k + 1int)) <= width {
        lemma_fit_from_bounds(w, width, k + 1);
    }
}

/// Appends `cs[a..b]` to `v`.
fn append_range(v: &mut Vec<char>, cs: &Vec<char>, a: usize, b: usize)
    requires
        a <= b <= cs@.len(),
    ensures
        final(v)@ == old(v)@ + cs@.subrange(a as int, b as int),
{
    let mut j = a;
    while j < b
        invariant
            a <= j <= b <= cs@.len(),
            v@ == old(v)@ + cs@.subrange(a as int, j as int),
        decreases b - j,
    {
        v.push(cs[j]);
        j = j + 1;
        assert(v@ =~= old(v)@ + cs@.subrange(a as int, j as int));
    }
}

/// Start a new current line with the word `cs[a..b]`, cutting it into
/// `width`-cell pieces (appended to `lines`) when it is wider than a line.
fn place(cs: &Vec<char>, a: usize, b: usize, width: usize, lines: &mut Vec<String>, cur: &mut Vec<char>) -> (cur_w: usize)
    requires
        a <= b <= cs@.len(),
        cs@.len() <= isize::MAX,
        width >= 1,
        old(cur)@.len() == 0,
    ensures
        (string_views(final(lines)@), final(cur)@) == place_word(
            string_views(old(lines)@),
            cs@.subrange(a as int, b as int),
            width as nat,
        ),
        cur_w == text::width(final(cur)@),
        cur_w <= width,
{
    let ghost word = cs@.subrange(a as int, b as int);
    let ghost l0 = string_views(lines@);
    let ww = width_of_range(&cs, a, b);
    if ww <= width {
        append_range(cur, &cs, a, b);
        assert(cur@ =~= word);
        return ww;
    }
    let mut x = a;
    assert(text::width(Seq::<char>::empty()) == 0);
    loop
        invariant
            a <= x <= b <= cs@.len(),
            cs@.len() <= isize::MAX,
            width >= 1,
            word == cs@.subrange(a as int, b as int),
            string_views(lines@) + hard_split(cs@.subrange(x as int, b as int), width as nat).0 == l0 + hard_split(word, width as nat).0,
            hard_split(cs@.subrange(x as int, b as int), width as nat).1 == hard_split(word, width as nat).1,
            cur@.len() == 0,
        ensures
            a <= x <= b,
            text::width(cs@.subrange(x as int, b as int)) <= width,
            string_views(lines@) + hard_split(cs@.subrange(x as int, b as int), width as nat).0 == l0 + hard_split(word, width as nat).0,
            hard_split(cs@.subrange(x as int, b as int), width as nat).1 == hard_split(word, width as nat).1,
            cur@.len() == 0,
        decreases b - x,
    {
        let ghost rest = cs@.subrange(x as int, b as int);
        let wx = width_of_range(&cs, x, b);
        if wx <= width {
            break;
        }
        proof {
            if x == b {
                assert(rest =~= Seq::<char>::empty());
            }
        }
        let f = fit_count(&cs, x, b, width);
        let k = if f == 0 { 1 } else { f };
        proof {
            assert(x < b);
            assert(1 <= k <= b - x);
            assert(rest.skip(k as int) =~= cs@.subrange(x + k, b as int));
            assert(rest.take(k as int) =~= cs@.subrange(x as int, x + k));
        }
        let piece = string_of(&cs, x, x + k);
        let ghost before = string_views(lines@);
        lines.push(piece);
        assert(string_views(lines@) =~= before.push(rest.take(k as int)));
        assert(string_views(lines@) + hard_split(cs@.subrange(x + k, b as int), width as nat).0 =~= before
            + hard_split(rest, width as nat).0);
        x = x + k;
    }
    append_range(cur, &cs, x, b);
    let ghost tail = cs@.subrange(x as int, b as int);
    assert(cur@ =~= tail);
    assert(hard_split(tail, width as nat).0 =~= Seq::<Seq<char>>::empty());
    assert(string_views(lines@) =~= string_views(lines@) + hard_split(tail, width as nat).0);
    width_of_range(&cs, x, b)
}

/// Greedy word wrap of `text` to lines of at most `width` display cells,
/// breaking at whitespace; a word wider than `width` is cut at `width`, and
/// a character wider than `width` stands on a line of its own.
pub fn word_wrap(text: &str, width: usize) -> (lines: Vec<String>)
    requires
        text@.len() <= isize::MAX,
    ensures
        string_views(lines@) == wrapped(text@, width as nat),
{
    let cs = chars_of(text);
    if width == 0 {
        let mut v: Vec<String> = Vec::new();
        let t = string_of(&cs, 0, cs.len());
        assert(t@ =~= text@);
        v.push(t);
        assert(string_views(v@) =~= seq![text@]);
        return v;
    }
    let ws = words_range(&cs, 0, cs.len());
    let ghost all = cs@.subrange(0, cs@.len() as int);
    assert(all =~= text@);
    let ghost wds = text::words(all);
    let mut lines: Vec<String> = Vec::new();
    let mut cur: Vec<char> = Vec::new();
    let mut cur_w: usize = 0;
    let mut i: usize = 0;
    assert(wds.take(0) =~= Seq::<Seq<char>>::empty());
    assert(string_views(lines@) =~= Seq::<Seq<char>>::empty());
    assert(text::width(Seq::<char>::empty()) == 0);
    while i < ws.len()
        invariant
            cs@ == text@,
            cs@.len() <= isize::MAX,
            width >= 1,
            wds == text::words(all),
            text::ranges_within(ws@, 0, cs@.len() as int),
            text::range_texts(cs@, ws@) == wds,
            forall|k: int, q: int| #![trigger ws@[k], cs@[q]] 0 <= k < ws@.len() && ws@[k].0 <= q < ws@[k].1 ==> !text::is_ws(cs@[q]),
            i <= ws@.len(),
            wrap_words(wds.take(i as int), width as nat) == (string_views(lines@), cur@),
            cur_w == text::width(cur@),
            cur_w <= width,
        decreases ws@.len() - i,
    {
        let (a, b) = ws[i];
        let ghost word = cs@.subrange(a as int, b as int);
        let ghost st = (string_views(lines@), cur@);
        assert(word == wds[i as int]);
        assert(wds.take(i + 1).drop_last() =~= wds.take(i as int));
        assert(wds.take(i + 1).last() == word);
        let ww = width_of_range(&cs, a, b);
        if cur.len() > 0 && cur_w < width && ww <= width - cur_w - 1 {
            let ghost old_cur = cur@;
            cur.push(' ');
            append_range(&mut cur, &cs, a, b);
            proof {
                text::lemma_width_append(old_cur + seq![' '], word);
                text::lemma_width_append(old_cur, seq![' ']);
                text::lemma_width_spaces(1);
                assert(text::spaces(1) =~= seq![' ']);
                assert(text::width(seq![' ']) == 1);
                assert(cur@ =~= old_cur + seq![' '] + word);
            }
            cur_w = cur_w + 1 + ww;
        } else {
            if cur.len() > 0 {
                let line = string_of(&cur, 0, cur.len());
                assert(line@ =~= cur@);
                lines.push(line);
                assert(string_views(lines@) =~= st.0.push(st.1));
            }
            cur = Vec::new();
            cur_w = place(&cs, a, b, width, &mut lines, &mut cur);
        }
        i = i + 1;
    }
    assert(wds.take(ws@.len() as int) =~= wds);
    if cur.len() > 0 {
        let line = string_of(&cur, 0, cur.len());
        assert(line@ =~= cur@);
        let ghost before = string_views(lines@);
        lines.push(line);
        assert(string_views(lines@) =~= before.push(cur@));
    }
    if lines.len() == 0 {
        let e = String::new();
        lines.push(e);
        assert(string_views(lines@) =~= seq![Seq::<char>::empty()]);
    }
    lines
}

/// `l` fits in `width` cells, or is one character wider than that.
pub open spec fn line_fits(l: Seq<char>, width: nat) -> bool {
    text::width(l) <= width || l.len() == 1
}

/// Taking characters while they fit keeps the taken prefix within `width`.
proof fn lemma_fit_from_fits(w: Seq<char>, width: nat, k: nat)
    requires
        k <= w.len(),
        text::width(w.take(k as int)) <= width,
    ensures
        text::width(w.take(fit_from(w, width, k) as int)) <= width,
    decreases w.len() - k,
{
    if k < w.len() && text::width(w.take(k + 1int)) <= width {
        lemma_fit_from_fits(w, width, k + 1);
    }
}

/// Every piece of a cut word fits the line (or is one over-wide character),
/// and what is left fits.
proof fn lemma_hard_split_fits(w: Seq<char>, width: nat)
    ensures
        forall|i: int| 0 <= i < hard_split(w, width).0.len() ==> line_fits(#[trigger] hard_split(w, width).0[i], width),
        text::width(hard_split(w, width).1) <= width,
    decreases w.len(),
{
    if text::width(w) > width {
        if w.len() == 0 {
            assert(text::width(w) == 0);
        }
        let f = fit_from(w, width, 0);
        lemma_fit_from_bounds(w, width, 0);
        assert(w.take(0) =~= Seq::<char>::empty());
        lemma_fit_from_fits(w, width, 0);
        let k = if f == 0 { 1 } else { f };
        let piece = w.take(k as int);
        assert(line_fits(piece, width));
        lemma_hard_split_fits(w.skip(k as int), width);
        let r = hard_split(w.skip(k as int), width);
        assert(hard_split(w, width).0 == seq![piece] + r.0);
        assert forall|i: int| 0 <= i < hard_split(w, width).0.len() implies line_fits(
            #[trigger] hard_split(w, width).0[i],
            width,
        ) by {
            if i > 0 {
                assert(hard_split(w, width).0[i] == r.0[i - 1]);
            }
        }
    }
}

/// The finished lines of a wrap fit the line, and so does the current one.
proof fn lemma_wrap_words_fit(ws: Seq<Seq<char>>, width: nat)
    requires
        width > 0,
    ensures
        forall|i: int| 0 <= i < wrap_words(ws, width).0.len() ==> line_fits(#[trigger] wrap_words(ws, width).0[i], width),
        text::width(wrap_words(ws, width).1) <= width,
    decreases ws.len(),
{
    if ws.len() > 0 {
        lemma_wrap_words_fit(ws.drop_last(), width);
        let st = wrap_words(ws.drop_last(), width);
        let word = ws.last();
        let res = wrap_words(ws, width);
        assert(res == wrap_step(st, word, width));
        lemma_hard_split_fits(word, width);
        let h = hard_split(word, width);
        if st.1.len() == 0 {
            if text::width(word) > width {
                assert forall|i: int| 0 <= i < res.0.len() implies line_fits(#[trigger] res.0[i], width) by {
                    if i >= st.0.len() {
                        assert(res.0[i] == h.0[i - st.0.len()]);
                    } else {
                        assert(res.0[i] == st.0[i]);
                    }
                }
            }
        } else if text::width(st.1) + 1 + text::width(word) <= width {
            text::lemma_width_append(st.1 + seq![' '], word);
            text::lemma_width_append(st.1, seq![' ']);
            text::lemma_width_spaces(1);
            assert(text::spaces(1) =~= seq![' ']);
        } else {
            let l0 = st.0.push(st.1);
            assert forall|i: int| 0 <= i < l0.len() implies line_fits(#[trigger] l0[i], width) by {
                if i < st.0.len() {
                    assert(l0[i] == st.0[i]);
                }
            }
            if text::width(word) > width {
                assert forall|i: int| 0 <= i < res.0.len() implies line_fits(#[trigger] res.0[i], width) by {
                    if i >= l0.len() {
                        assert(res.0[i] == h.0[i - l0.len()]);
                    } else {
                        assert(res.0[i] == l0[i]);
                    }
                }
            }
        }
    }
}

/// Law: wrapping to a width of one cell or more gives lines that fit the
/// width counted in display cells (a double-width character takes two), the
/// only exception being a line of one character wider than the whole width.
pub proof fn lemma_wrapped_lines_fit(t: Seq<char>, width: nat)
    requires
        width > 0,
    ensures
        forall|i: int| 0 <= i < wrapped(t, width).len() ==> line_fits(#[trigger] wrapped(t, width)[i], width),
{
    let st = wrap_words(text::words(t), width);
    lemma_wrap_words_fit(text::words(t), width);
    let ls = if st.1.len() > 0 { st.0.push(st.1) } else { st.0 };
    assert forall|i: int| 0 <= i < ls.len() implies line_fits(#[trigger] ls[i], width) by {
        if i < st.0.len() {
            assert(ls[i] == st.0[i]);
        }
    }
    if ls.len() == 0 {
        assert(text::width(Seq::<char>::empty()) == 0);
        assert(wrapped(t, width) == seq![Seq::<char>::empty()]);
    }
}

/// The lines `ls` one after another, with nothing between them.
pub open spec fn concat(ls: Seq<Seq<char>>) -> Seq<char>
    decreases ls.len(),
{
    if ls.len() == 0 {
        Seq::empty()
    } else {
        ls[0] + concat(ls.drop_first())
    }
}

/// `s` without its space characters.
pub open spec fn drop_spaces(s: Seq<char>) -> Seq<char>
    decreases s.len(),
{
    if s.len() == 0 {
        Seq::empty()
    } else {
        drop_spaces(s.drop_last()) + if s.last() == ' ' { Seq::empty() } else { seq![s.last()] }
    }
}

proof fn lemma_concat_append(a: Seq<Seq<char>>, b: Seq<Seq<char>>)
    ensures
        concat(a + b) == concat(a) + concat(b),
    decreases a.len(),
{
    if a.len() == 0 {
        assert(a + b =~= b);
        assert(concat(a) + concat(b) =~= concat(b));
    } else {
        assert((a + b).drop_first() =~= a.drop_first() + b);
        lemma_concat_append(a.drop_first(), b);
        assert(concat(a + b) =~= concat(a) + concat(b));
    }
}

proof fn lemma_concat_push(a: Seq<Seq<char>>, x: Seq<char>)
    ensures
        concat(a.push(x)) == concat(a) + x,
{
    lemma_concat_append(a, seq![x]);
    assert(a.push(x) =~= a + seq![x]);
    assert(seq![x].drop_first() =~= Seq::<Seq<char>>::empty());
    assert(concat(seq![x].drop_first()) == Seq::<char>::empty());
    assert(concat(seq![x]) =~= x);
}

proof fn lemma_drop_spaces_append(a: Seq<char>, b: Seq<char>)
    ensures
        drop_spaces(a + b) == drop_spaces(a) + drop_spaces(b),
    decreases b.len(),
{
    if b.len() == 0 {
        assert(a + b =~= a);
        assert(drop_spaces(a) + drop_spaces(b) =~= drop_spaces(a));
    } else {
        assert((a + b).drop_last() =~= a + b.drop_last());
        lemma_drop_spaces_append(a, b.drop_last());
        assert(drop_spaces(a + b) =~= drop_spaces(a) + drop_spaces(b));
    }
}

/// Text without spaces is its own space-free form.
proof fn lemma_drop_spaces_none(s: Seq<char>)
    requires
        forall|j: int| 0 <= j < s.len() ==> #[trigger] s[j] != ' ',
    ensures
        drop_spaces(s) == s,
    decreases s.len(),
{
    if s.len() > 0 {
        assert(s.last() == s[s.len() - 1]);
        lemma_drop_spaces_none(s.drop_last());
        assert(s.drop_last() + seq![s.last()] =~= s);
    }
}

/// The words of a text hold no whitespace.
proof fn lemma_words_have_no_ws(s: Seq<char>)
    ensures
        forall|i: int, j: int|
            0 <= i < text::words(s).len() && 0 <= j < text::words(s)[i].len() ==> !text::is_ws(
                #[trigger] text::words(s)[i][j],
            ),
    decreases s.len(),
{
    let t = s.skip(text::lead_ws(s) as int);
    if !(text::lead_ws(s) > s.len() || t.len() == 0) {
        let k = text::run_len(t);
        text::lemma_run_len(t);
        if k > 0 {
            text::lemma_lead_ws_bound(s);
            lemma_words_have_no_ws(t.skip(k as int));
            let rest = text::words(t.skip(k as int));
            assert(text::words(s) == seq![t.take(k as int)] + rest);
            assert forall|i: int, j: int|
                0 <= i < text::words(s).len() && 0 <= j < text::words(s)[i].len() implies !text::is_ws(
                #[trigger] text::words(s)[i][j],
            ) by {
                if i == 0 {
                    assert(text::words(s)[0][j] == t[j]);
                } else {
                    assert(text::words(s)[i] == rest[i - 1]);
                }
            }
        }
    }
}

/// A cut word is its pieces and its rest, one after another.
proof fn lemma_hard_split_concat(w: Seq<char>, width: nat)
    ensures
        concat(hard_split(w, width).0) + hard_split(w, width).1 == w,
    decreases w.len(),
{
    if text::width(w) <= width {
        assert(concat(Seq::<Seq<char>>::empty()) + w =~= w);
    } else {
        let f = fit_from(w, width, 0);
        lemma_fit_from_bounds(w, width, 0);
        let k = if f == 0 { 1 } else { f };
        if k <= w.len() {
            let r = hard_split(w.skip(k as int), width);
            lemma_hard_split_concat(w.skip(k as int), width);
            let pieces = seq![w.take(k as int)] + r.0;
            assert(pieces.drop_first() =~= r.0);
            assert(concat(pieces) == w.take(k as int) + concat(r.0));
            assert(concat(r.0) + r.1 == w.skip(k as int));
            assert(w.take(k as int) + w.skip(k as int) =~= w);
            assert(concat(pieces) + r.1 =~= w.take(k as int) + (concat(r.0) + r.1));
        } else {
            assert(concat(Seq::<Seq<char>>::empty()) + w =~= w);
        }
    }
}

/// Wrapping keeps the words: the finished lines and the current line, with
/// spaces left out, are the words one after another.
proof fn lemma_wrap_words_keep(ws: Seq<Seq<char>>, width: nat)
    requires
        forall|i: int, j: int| 0 <= i < ws.len() && 0 <= j < ws[i].len() ==> #[trigger] ws[i][j] != ' ',
    ensures
        drop_spaces(concat(wrap_words(ws, width).0) + wrap_words(ws, width).1) == concat(ws),
    decreases ws.len(),
{
    if ws.len() == 0 {
        assert(concat(Seq::<Seq<char>>::empty()) + Seq::<char>::empty() =~= Seq::<char>::empty());
        assert(drop_spaces(Seq::<char>::empty()) == Seq::<char>::empty());
    } else {
        let prev = ws.drop_last();
        assert forall|i: int, j: int| 0 <= i < prev.len() && 0 <= j < prev[i].len() implies #[trigger] prev[i][j] != ' ' by {
            assert(prev[i] == ws[i]);
        }
        lemma_wrap_words_keep(prev, width);
        let st = wrap_words(prev, width);
        let word = ws.last();
        assert forall|j: int| 0 <= j < word.len() implies #[trigger] word[j] != ' ' by {
            assert(word[j] == ws[ws.len() - 1][j]);
        }
        lemma_drop_spaces_none(word);
        lemma_concat_push(prev, word);
        assert(prev.push(word) =~= ws);
        let before = concat(st.0) + st.1;
        let res = wrap_words(ws, width);
        lemma_hard_split_concat(word, width);
        let h = hard_split(word, width);
        // After the step, the lines and current line are `before` followed by
        // the word (with at most one space between them).
        if st.1.len() == 0 {
            assert(before =~= concat(st.0));
            if text::width(word) <= width {
                assert(concat(res.0) + res.1 == before + word);
            } else {
                lemma_concat_append(st.0, h.0);
                assert(concat(res.0) + res.1 =~= before + (concat(h.0) + h.1));
            }
            lemma_drop_spaces_append(before, word);
        } else if text::width(st.1) + 1 + text::width(word) <= width {
            assert(concat(res.0) + res.1 =~= before + seq![' '] + word);
            lemma_drop_spaces_append(before + seq![' '], word);
            lemma_drop_spaces_append(before, seq![' ']);
            assert(seq![' '].drop_last() =~= Seq::<char>::empty());
            assert(drop_spaces(seq![' '].drop_last()) == Seq::<char>::empty());
            assert(drop_spaces(seq![' ']) =~= Seq::<char>::empty());
        } else {
            let l0 = st.0.push(st.1);
            lemma_concat_push(st.0, st.1);
            if text::width(word) <= width {
                assert(concat(res.0) + res.1 == concat(l0) + word);
            } else {
                lemma_concat_append(l0, h.0);
                assert(concat(res.0) + res.1 =~= concat(l0) + (concat(h.0) + h.1));
            }
            lemma_drop_spaces_append(before, word);
        }
    }
}

/// Law: wrapping to a width of one cell or more loses and adds nothing but
/// spaces: the lines, put one after another with their spaces left out, are
/// the words of the text one after another.
pub proof fn lemma_wrapped_keeps_words(t: Seq<char>, width: nat)
    requires
        width > 0,
    ensures
        drop_spaces(concat(wrapped(t, width))) == concat(text::words(t)),
{
    let ws = text::words(t);
    lemma_words_have_no_ws(t);
    assert forall|i: int, j: int| 0 <= i < ws.len() && 0 <= j < ws[i].len() implies #[trigger] ws[i][j] != ' ' by {
        assert(!text::is_ws(ws[i][j]));
    }
    lemma_wrap_words_keep(ws, width);
    let st = wrap_words(ws, width);
    if st.1.len() > 0 {
        lemma_concat_push(st.0, st.1);
    } else {
        assert(concat(st.0) + st.1 =~= concat(st.0));
    }
    let ls = if st.1.len() > 0 { st.0.push(st.1) } else { st.0 };
    if ls.len() == 0 {
        let e = seq![Seq::<char>::empty()];
        assert(e.drop_first() =~= Seq::<Seq<char>>::empty());
        assert(concat(e.drop_first()) == Seq::<char>::empty());
        assert(concat(e) =~= Seq::<char>::empty());
        assert(concat(ls) =~= Seq::<char>::empty());
    }
}

/// `raw` starts with the section mark `## `.
pub open spec fn is_section(raw: Seq<char>) -> bool {
    raw.len() >= 3 && raw[0] == '#' && raw[1] == '#' && raw[2] == ' '
}

/// The rows of the help overlay for the lines `ls`, each a flag (`true`
/// for a section header) and its text: a line that starts with `## ` is a
/// header without that mark, preceded by an empty row unless it is the
/// first row; any other line is shown as it stands.
pub open spec fn help_rows(ls: Seq<Seq<char>>) -> Seq<(bool, Seq<char>)>
    decreases ls.len(),
{
    if ls.len() == 0 {
        Seq::empty()
    } else {
        let prev = help_rows(ls.drop_last());
        let raw = ls.last();
        if is_section(raw) {
            let lead = if prev.len() > 0 { prev.push((false, Seq::<char>::empty())) } else { prev };
            lead.push((true, raw.skip(3)))
        } else {
            prev.push((false, raw))
        }
    }
}

/// The rows with their texts as characters.
pub open spec fn row_views(v: Seq<(bool, String)>) -> Seq<(bool, Seq<char>)> {
    v.map_values(|r: (bool, String)| (r.0, r.1@))
}

/// The rows of the help overlay in the state's language: its help text cut
/// at each line end, then read as [`help_rows`] says.
pub fn build_help_lines(state: &AppState) -> (out: Vec<(bool, String)>)
    ensures
        row_views(out@) == help_rows(text::fields(spec_dict(state.lang).tui_help_text@, '\n')),
{
    let help = state.lang.dict().tui_help_text;
    let cs = chars_of(help);
    let rs = split_range(&cs, 0, cs.len(), '\n');
    let ghost ls = text::range_texts(cs@, rs@);
    assert(cs@.subrange(0, cs@.len() as int) =~= help@);
    let mut out: Vec<(bool, String)> = Vec::new();
    let mut i: usize = 0;
    while i < rs.len()
        invariant
            i <= rs@.len(),
            ls == text::range_texts(cs@, rs@),
            text::ranges_within(rs@, 0, cs@.len() as int),
            row_views(out@) == help_rows(ls.take(i as int)),
        decreases rs@.len() - i,
    {
        let (a, b) = rs[i];
        proof {
            assert(0 <= rs@[i as int].0 <= rs@[i as int].1 <= cs@.len());
        }
        let ghost raw = ls[i as int];
        assert(raw == cs@.subrange(a as int, b as int));
        assert(ls.take(i + 1) .drop_last() =~= ls.take(i as int));
        assert(ls.take(i + 1).last() == raw);
        let ghost prev = out@;
        if b - a >= 3 && cs[a] == '#' && cs[a + 1] == '#' && cs[a + 2] == ' ' {
            assert(is_section(raw));
            if out.len() > 0 {
                out.push((false, String::new()));
                assert(row_views(out@) =~= row_views(prev).push((false, Seq::<char>::empty())));
            } else {
                assert(row_views(out@) =~= row_views(prev));
            }
            let ghost mid = out@;
            let t = string_of(&cs, a + 3, b);
            assert(t@ =~= raw.skip(3));
            out.push((true, t));
            assert(row_views(out@) =~= row_views(mid).push((true, raw.skip(3))));
        } else {
            assert(!is_section(raw));
            let t = string_of(&cs, a, b);
            out.push((false, t));
            assert(row_views(out@) =~= row_views(prev).push((false, raw)));
        }
        i = i + 1;
    }
    assert(ls.take(rs@.len() as int) =~= ls);
    out
}

} // verus!
