//! Character-level building blocks shared by the rest of the library:
//! reading a `&str` as characters, growing a `String`, display widths,
//! whitespace trimming and decimal integers.
use vstd::prelude::*;

verus! {

broadcast use vstd::string::group_string_axioms;

/// Appends one character to a `String` (`String::push`).
///
/// Trusted: the standard library documents that `push` appends the given
/// `char` to the end of the string, which is what the `ensures` states.
#[verifier::external_body]
pub(crate) fn push_char(s: &mut String, c: char)
    ensures
        final(s)@ == old(s)@.push(c),
{
    s.push(c);
}

/// Appends a string slice to a `String`.
pub(crate) fn push_str(s: &mut String, t: &str)
    ensures
        final(s)@ == old(s)@ + t@,
{
    s.append(t);
}

/// The characters of `s`, in order.
pub(crate) fn chars_of(s: &str) -> (v: Vec<char>)
    ensures
        v@ == s@,
{
    let n = s.unicode_len();
    let mut v: Vec<char> = Vec::new();
    let mut i: usize = 0;
    while i < n
        invariant
            n == s@.len(),
            i <= n,
            v@ == s@.take(i as int),
        decreases n - i,
    {
        v.push(s.get_char(i));
        i += 1;
    }
    v
}

/// A `String` holding the characters `cs[from..to]`.
pub(crate) fn string_of(cs: &Vec<char>, from: usize, to: usize) -> (s: String)
    requires
        from <= to <= cs@.len(),
    ensures
        s@ == cs@.subrange(from as int, to as int),
{
    let mut s = String::new();
    let mut i = from;
    while i < to
        invariant
            from <= i <= to <= cs@.len(),
            s@ == cs@.subrange(from as int, i as int),
        decreases to - i,
    {
        push_char(&mut s, cs[i]);
        i += 1;
        assert(s@ =~= cs@.subrange(from as int, i as int));
    }
    s
}

// ---------------------------------------------------------------------------
// Display width
// ---------------------------------------------------------------------------

/// Display width of one character: 1 column for ASCII, 2 for anything else.
pub open spec fn char_width(c: char) -> nat {
    if (c as u32) < 128 {
        1
    } else {
        2
    }
}

/// Display width of a character sequence: the sum of its characters' widths.
pub open spec fn width(s: Seq<char>) -> nat
    decreases s.len(),
{
    if s.len() == 0 {
        0
    } else {
        width(s.drop_last()) + char_width(s.last())
    }
}

/// `n` space characters.
pub open spec fn spaces(n: nat) -> Seq<char> {
    Seq::new(n, |i: int| ' ')
}

/// Widths add up over concatenation.
pub proof fn lemma_width_append(a: Seq<char>, b: Seq<char>)
    ensures
        width(a + b) == width(a) + width(b),
    decreases b.len(),
{
    if b.len() == 0 {
        assert(a + b =~= a);
    } else {
        assert((a + b).drop_last() =~= a + b.drop_last());
        lemma_width_append(a, b.drop_last());
    }
}

/// Every character takes one or two cells.
pub proof fn lemma_width_bounds(s: Seq<char>)
    ensures
        s.len() <= width(s) <= 2 * s.len(),
    decreases s.len(),
{
    if s.len() > 0 {
        lemma_width_bounds(s.drop_last());
    }
}

/// `n` spaces take `n` cells.
pub proof fn lemma_width_spaces(n: nat)
    ensures
        width(spaces(n)) == n,
    decreases n,
{
    if n > 0 {
        assert(spaces(n).drop_last() =~= spaces((n - 1) as nat));
        lemma_width_spaces((n - 1) as nat);
    }
}

/// Width of the first `i` characters, extended by one more character.
pub proof fn lemma_width_take_step(s: Seq<char>, i: int)
    requires
        0 <= i < s.len(),
    ensures
        width(s.take(i + 1)) == width(s.take(i)) + char_width(s[i]),
{
    assert(s.take(i + 1).drop_last() =~= s.take(i));
}

/// Display width of a character as computed at run time.
pub(crate) fn char_cols(c: char) -> (w: usize)
    ensures
        w == char_width(c),
{
    if (c as u32) < 128 {
        1
    } else {
        2
    }
}

/// Display width of a character vector's range `[from, to)`.
pub(crate) fn width_of_range(cs: &Vec<char>, from: usize, to: usize) -> (w: usize)
    requires
        from <= to <= cs@.len(),
        cs@.len() <= isize::MAX,
    ensures
        w == width(cs@.subrange(from as int, to as int)),
{
    let mut w: usize = 0;
    let mut i = from;
    let ghost sub = cs@.subrange(from as int, to as int);
    while i < to
        invariant
            from <= i <= to <= cs@.len(),
            cs@.len() <= isize::MAX,
            sub == cs@.subrange(from as int, to as int),
            w == width(sub.take(i - from)),
            w <= 2 * (i - from),
        decreases to - i,
    {
        proof {
            lemma_width_take_step(sub, i - from);
        }
        w = w + char_cols(cs[i]);
        i += 1;
    }
    assert(sub.take(to - from) =~= sub);
    w
}

// ---------------------------------------------------------------------------
// Whitespace
// ---------------------------------------------------------------------------

/// The Unicode `White_Space` property, which is what `char::is_whitespace`
/// tests.
pub open spec fn is_ws(c: char) -> bool {
    let u = c as u32;
    ||| 0x9 <= u <= 0xd
    ||| u == 0x20
    ||| u == 0x85
    ||| u == 0xa0
    ||| u == 0x1680
    ||| 0x2000 <= u <= 0x200a
    ||| u == 0x2028
    ||| u == 0x2029
    ||| u == 0x202f
    ||| u == 0x205f
    ||| u == 0x3000
}

pub(crate) fn is_ws_char(c: char) -> (b: bool)
    ensures
        b == is_ws(c),
{
    let u = c as u32;
    (0x9 <= u && u <= 0xd) || u == 0x20 || u == 0x85 || u == 0xa0 || u == 0x1680 || (0x2000 <= u
        && u <= 0x200a) || u == 0x2028 || u == 0x2029 || u == 0x202f || u == 0x205f || u == 0x3000
}

/// Number of leading whitespace characters of `s`.
pub open spec fn lead_ws(s: Seq<char>) -> nat
    decreases s.len(),
{
    if s.len() > 0 && is_ws(s[0]) {
        1 + lead_ws(s.drop_first())
    } else {
        0
    }
}

/// Number of trailing whitespace characters of `s`.
pub open spec fn trail_ws(s: Seq<char>) -> nat
    decreases s.len(),
{
    if s.len() > 0 && is_ws(s.last()) {
        1 + trail_ws(s.drop_last())
    } else {
        0
    }
}

/// `s` without its trailing whitespace (`str::trim_end`).
pub open spec fn trim_end(s: Seq<char>) -> Seq<char> {
    s.take(s.len() - trail_ws(s))
}

/// `s` without leading and trailing whitespace (`str::trim`).
pub open spec fn trim(s: Seq<char>) -> Seq<char> {
    trim_end(s.skip(lead_ws(s) as int))
}

/// The leading whitespace count stops at the first non-whitespace character.
pub proof fn lemma_lead_ws_bound(s: Seq<char>)
    ensures
        lead_ws(s) <= s.len(),
        forall|i: int| 0 <= i < lead_ws(s) ==> is_ws(#[trigger] s[i]),
        lead_ws(s) < s.len() ==> !is_ws(s[lead_ws(s) as int]),
    decreases s.len(),
{
    if s.len() > 0 && is_ws(s[0]) {
        lemma_lead_ws_bound(s.drop_first());
        assert forall|i: int| 0 <= i < lead_ws(s) implies is_ws(#[trigger] s[i]) by {
            if i > 0 {
                assert(s[i] == s.drop_first()[i - 1]);
            }
        }
    }
}

/// The trailing whitespace count stops at the last non-whitespace character.
pub proof fn lemma_trail_ws_bound(s: Seq<char>)
    ensures
        trail_ws(s) <= s.len(),
        forall|i: int| s.len() - trail_ws(s) <= i < s.len() ==> is_ws(#[trigger] s[i]),
        trail_ws(s) < s.len() ==> !is_ws(s[s.len() - trail_ws(s) - 1]),
    decreases s.len(),
{
    if s.len() > 0 && is_ws(s.last()) {
        lemma_trail_ws_bound(s.drop_last());
        assert forall|i: int| s.len() - trail_ws(s) <= i < s.len() implies is_ws(#[trigger] s[i]) by {
            if i < s.len() - 1 {
                assert(s[i] == s.drop_last()[i]);
            }
        }
    }
}

/// Leading whitespace count of the range `[from, to)` of `cs`.
pub(crate) fn count_lead_ws(cs: &Vec<char>, from: usize, to: usize) -> (k: usize)
    requires
        from <= to <= cs@.len(),
    ensures
        k == lead_ws(cs@.subrange(from as int, to as int)),
        from + k <= to,
{
    let ghost sub = cs@.subrange(from as int, to as int);
    let mut i = from;
    while i < to && is_ws_char(cs[i])
        invariant
            from <= i <= to <= cs@.len(),
            sub == cs@.subrange(from as int, to as int),
            forall|j: int| from <= j < i ==> is_ws(#[trigger] cs@[j]),
        decreases to - i,
    {
        i += 1;
    }
    proof {
        lemma_lead_ws_prefix(sub, (i - from) as nat);
    }
    i - from
}

/// If the first `k` characters are whitespace and the next is not (or the
/// sequence ends), the leading whitespace count is `k`.
pub proof fn lemma_lead_ws_prefix(s: Seq<char>, k: nat)
    requires
        k <= s.len(),
        forall|j: int| 0 <= j < k ==> is_ws(#[trigger] s[j]),
        k < s.len() ==> !is_ws(s[k as int]),
    ensures
        lead_ws(s) == k,
    decreases k,
{
    if k > 0 {
        assert forall|j: int| 0 <= j < k - 1 implies is_ws(#[trigger] s.drop_first()[j]) by {
            assert(s.drop_first()[j] == s[j + 1]);
        }
        if k < s.len() {
            assert(s.drop_first()[k - 1] == s[k as int]);
        }
        lemma_lead_ws_prefix(s.drop_first(), (k - 1) as nat);
    }
}

/// If the last `k` characters are whitespace and the one before is not (or
/// the sequence starts there), the trailing whitespace count is `k`.
pub proof fn lemma_trail_ws_suffix(s: Seq<char>, k: nat)
    requires
        k <= s.len(),
        forall|j: int| s.len() - k <= j < s.len() ==> is_ws(#[trigger] s[j]),
        k < s.len() ==> !is_ws(s[s.len() - k - 1]),
    ensures
        trail_ws(s) == k,
    decreases k,
{
    if k > 0 {
        assert forall|j: int| s.len() - 1 - (k - 1) <= j < s.len() - 1 implies is_ws(
            #[trigger] s.drop_last()[j],
        ) by {
            assert(s.drop_last()[j] == s[j]);
        }
        if k < s.len() {
            assert(s.drop_last()[s.len() - 1 - (k - 1) - 1] == s[s.len() - k - 1]);
        }
        lemma_trail_ws_suffix(s.drop_last(), (k - 1) as nat);
    }
}

/// Trailing whitespace count of the range `[from, to)` of `cs`.
pub(crate) fn count_trail_ws(cs: &Vec<char>, from: usize, to: usize) -> (k: usize)
    requires
        from <= to <= cs@.len(),
    ensures
        k == trail_ws(cs@.subrange(from as int, to as int)),
        k <= to - from,
{
    let ghost sub = cs@.subrange(from as int, to as int);
    let mut i = to;
    while i > from && is_ws_char(cs[i - 1])
        invariant
            from <= i <= to <= cs@.len(),
            sub == cs@.subrange(from as int, to as int),
            forall|j: int| i <= j < to ==> is_ws(#[trigger] cs@[j]),
        decreases i - from,
    {
        i -= 1;
    }
    proof {
        lemma_trail_ws_suffix(sub, (to - i) as nat);
    }
    to - i
}

// ---------------------------------------------------------------------------
// Decimal integers
// ---------------------------------------------------------------------------

/// The character of a decimal digit `0..=9`.
pub open spec fn digit_char(d: nat) -> char {
    ((d + 48) as u32) as char
}

/// Decimal digits of `n` without leading zeros (`"0"` for zero).
pub open spec fn nat_digits(n: nat) -> Seq<char>
    decreases n,
{
    if n < 10 {
        seq![digit_char(n)]
    } else {
        nat_digits(n / 10).push(digit_char(n % 10))
    }
}

/// Decimal rendering of an integer, with a leading `-` when negative
/// (what `Display` prints for Rust integers).
pub open spec fn int_text(n: int) -> Seq<char> {
    if n < 0 {
        seq!['-'] + nat_digits((-n) as nat)
    } else {
        nat_digits(n as nat)
    }
}

fn digit_to_char(d: u64) -> (c: char)
    requires
        d < 10,
    ensures
        c == digit_char(d as nat),
{
    let c = match d {
        0 => '0',
        1 => '1',
        2 => '2',
        3 => '3',
        4 => '4',
        5 => '5',
        6 => '6',
        7 => '7',
        8 => '8',
        _ => '9',
    };
    c
}

/// Decimal text of `n` appended to `out`.
pub(crate) fn push_u64(out: &mut String, n: u64)
    ensures
        final(out)@ == old(out)@ + nat_digits(n as nat),
    decreases n,
{
    if n < 10 {
        push_char(out, digit_to_char(n));
        assert(final(out)@ =~= old(out)@ + nat_digits(n as nat));
    } else {
        push_u64(out, n / 10);
        push_char(out, digit_to_char(n % 10));
        assert(final(out)@ =~= old(out)@ + nat_digits(n as nat));
    }
}

/// Decimal text of an unsigned integer (`n.to_string()`).
pub fn u64_text(n: u64) -> (s: String)
    ensures
        s@ == nat_digits(n as nat),
{
    let mut s = String::new();
    push_u64(&mut s, n);
    assert(s@ =~= nat_digits(n as nat));
    s
}

/// Decimal text of a signed integer (`n.to_string()`).
pub fn i64_text(n: i64) -> (s: String)
    ensures
        s@ == int_text(n as int),
{
    let mut s = String::new();
    if n < 0 {
        push_char(&mut s, '-');
        let m: u64 = if n == i64::MIN {
            9223372036854775808u64
        } else {
            (-n) as u64
        };
        push_u64(&mut s, m);
    } else {
        push_u64(&mut s, n as u64);
    }
    assert(s@ =~= int_text(n as int));
    s
}

// ---------------------------------------------------------------------------
// Splitting
// ---------------------------------------------------------------------------

/// Index of the first `c` in `s`, or `s.len()` when there is none.
pub open spec fn index_of(s: Seq<char>, c: char) -> nat
    decreases s.len(),
{
    if s.len() == 0 {
        0
    } else if s[0] == c {
        0
    } else {
        1 + index_of(s.drop_first(), c)
    }
}

/// The first `c` of `s`, or its end when there is none.
pub proof fn lemma_index_of(s: Seq<char>, c: char)
    ensures
        index_of(s, c) <= s.len(),
        forall|j: int| 0 <= j < index_of(s, c) ==> s[j] != c,
        index_of(s, c) < s.len() ==> s[index_of(s, c) as int] == c,
    decreases s.len(),
{
    if s.len() > 0 && s[0] != c {
        lemma_index_of(s.drop_first(), c);
        assert forall|j: int| 0 <= j < index_of(s, c) implies s[j] != c by {
            if j > 0 {
                assert(s[j] == s.drop_first()[j - 1]);
            }
        }
    }
}

/// If `s[..k]` holds no `c` and `s[k]` is `c` (or `k` is the end), then the
/// first `c` is at `k`.
pub proof fn lemma_index_of_at(s: Seq<char>, c: char, k: nat)
    requires
        k <= s.len(),
        forall|j: int| 0 <= j < k ==> s[j] != c,
        k < s.len() ==> s[k as int] == c,
    ensures
        index_of(s, c) == k,
    decreases k,
{
    if k > 0 {
        assert forall|j: int| 0 <= j < k - 1 implies s.drop_first()[j] != c by {
            assert(s.drop_first()[j] == s[j + 1]);
        }
        if k < s.len() {
            assert(s.drop_first()[k - 1] == s[k as int]);
        }
        lemma_index_of_at(s.drop_first(), c, (k - 1) as nat);
    }
}

/// `s` split at every `c` (`str::split(c)`): one more piece than there are
/// `c`s.
pub open spec fn fields(s: Seq<char>, c: char) -> Seq<Seq<char>>
    decreases s.len(),
{
    let i = index_of(s, c);
    if i >= s.len() {
        seq![s]
    } else {
        seq![s.take(i as int)] + fields(s.skip((i + 1) as int), c)
    }
}

/// The lines of `s` as `str::lines` cuts them, before any trimming: split
/// at `\n`, a final line ending being optional.
pub open spec fn lines(s: Seq<char>) -> Seq<Seq<char>> {
    if s.len() == 0 {
        Seq::empty()
    } else if s.last() == '\n' {
        fields(s.drop_last(), '\n')
    } else {
        fields(s, '\n')
    }
}

/// Number of leading non-whitespace characters of `s`.
pub open spec fn run_len(s: Seq<char>) -> nat
    decreases s.len(),
{
    if s.len() > 0 && !is_ws(s[0]) {
        1 + run_len(s.drop_first())
    } else {
        0
    }
}

/// A run is the non-whitespace characters up to the first whitespace.
pub proof fn lemma_run_len(s: Seq<char>)
    ensures
        run_len(s) <= s.len(),
        s.len() > 0 && !is_ws(s[0]) ==> run_len(s) >= 1,
        forall|j: int| 0 <= j < run_len(s) ==> !is_ws(#[trigger] s[j]),
        run_len(s) < s.len() ==> is_ws(s[run_len(s) as int]),
    decreases s.len(),
{
    if s.len() > 0 && !is_ws(s[0]) {
        lemma_run_len(s.drop_first());
        assert forall|j: int| 0 <= j < run_len(s) implies !is_ws(#[trigger] s[j]) by {
            if j > 0 {
                assert(s[j] == s.drop_first()[j - 1]);
            }
        }
    }
}

/// A run of `k` non-whitespace characters ended by whitespace (or the end)
/// has length `k`.
pub proof fn lemma_run_len_at(s: Seq<char>, k: nat)
    requires
        k <= s.len(),
        forall|j: int| 0 <= j < k ==> !is_ws(#[trigger] s[j]),
        k < s.len() ==> is_ws(s[k as int]),
    ensures
        run_len(s) == k,
    decreases k,
{
    if k > 0 {
        assert forall|j: int| 0 <= j < k - 1 implies !is_ws(#[trigger] s.drop_first()[j]) by {
            assert(s.drop_first()[j] == s[j + 1]);
        }
        if k < s.len() {
            assert(s.drop_first()[k - 1] == s[k as int]);
        }
        lemma_run_len_at(s.drop_first(), (k - 1) as nat);
    }
}

/// The whitespace-separated words of `s` (`str::split_whitespace`).
pub open spec fn words(s: Seq<char>) -> Seq<Seq<char>>
    decreases s.len(),
{
    let t = s.skip(lead_ws(s) as int);
    if lead_ws(s) > s.len() || t.len() == 0 {
        Seq::empty()
    } else {
        let k = run_len(t);
        proof {
            lemma_run_len(t);
        }
        if k == 0 {
            Seq::empty()
        } else {
            seq![t.take(k as int)] + words(t.skip(k as int))
        }
    }
}

/// `ws` joined with single spaces.
pub open spec fn join_spaced(ws: Seq<Seq<char>>) -> Seq<char>
    decreases ws.len(),
{
    if ws.len() == 0 {
        Seq::empty()
    } else if ws.len() == 1 {
        ws[0]
    } else {
        join_spaced(ws.drop_last()) + seq![' '] + ws.last()
    }
}

/// A half-open range `[from, to)` of a character vector.
pub open spec fn range_text(cs: Seq<char>, r: (usize, usize)) -> Seq<char> {
    cs.subrange(r.0 as int, r.1 as int)
}

/// Every range lies within `[from, to]` of a vector of length `n`.
pub open spec fn ranges_within(rs: Seq<(usize, usize)>, from: int, to: int) -> bool {
    forall|k: int| 0 <= k < rs.len() ==> from <= (#[trigger] rs[k]).0 <= rs[k].1 <= to
}

/// The texts of a list of ranges.
pub open spec fn range_texts(cs: Seq<char>, rs: Seq<(usize, usize)>) -> Seq<Seq<char>> {
    rs.map_values(|r: (usize, usize)| range_text(cs, r))
}

/// The range `[a, b)` of `cs` trimmed of whitespace on both ends.
pub(crate) fn trim_range(cs: &Vec<char>, from: usize, to: usize) -> (r: (usize, usize))
    requires
        from <= to <= cs@.len(),
    ensures
        from <= r.0 <= r.1 <= to,
        cs@.subrange(r.0 as int, r.1 as int) == trim(cs@.subrange(from as int, to as int)),
{
    let a = from + count_lead_ws(cs, from, to);
    let k = count_trail_ws(cs, a, to);
    let ghost s = cs@.subrange(from as int, to as int);
    assert(s.skip(lead_ws(s) as int) =~= cs@.subrange(a as int, to as int));
    assert(cs@.subrange(a as int, (to - k) as int) =~= trim(s));
    (a, to - k)
}

/// The pieces of `cs[from..to]` between occurrences of `c`.
pub(crate) fn split_range(cs: &Vec<char>, from: usize, to: usize, c: char) -> (rs: Vec<(usize, usize)>)
    requires
        from <= to <= cs@.len(),
    ensures
        ranges_within(rs@, from as int, to as int),
        range_texts(cs@, rs@) == fields(cs@.subrange(from as int, to as int), c),
{
    let mut rs: Vec<(usize, usize)> = Vec::new();
    let mut start = from;
    let mut i = from;
    loop
        invariant
            from <= start <= i <= to <= cs@.len(),
            ranges_within(rs@, from as int, to as int),
            forall|j: int| start <= j < i ==> cs@[j] != c,
            range_texts(cs@, rs@) + fields(cs@.subrange(start as int, to as int), c) == fields(
                cs@.subrange(from as int, to as int),
                c,
            ),
        decreases to - i,
    {
        let ghost rest = cs@.subrange(start as int, to as int);
        if i == to || cs[i] == c {
            proof {
                assert forall|j: int| 0 <= j < i - start implies rest[j] != c by {
                    assert(rest[j] == cs@[start + j]);
                }
                lemma_index_of_at(rest, c, (i - start) as nat);
            }
            let ghost old_rs = rs@;
            rs.push((start, i));
            assert(range_text(cs@, (start, i)) =~= rest.take(i - start));
            assert(range_texts(cs@, rs@) =~= range_texts(cs@, old_rs) + seq![rest.take(i - start)]);
            if i == to {
                assert(rest.take(i - start) =~= rest);
                assert(fields(rest, c) == seq![rest]);
                assert(range_texts(cs@, rs@) =~= range_texts(cs@, old_rs) + fields(rest, c));
                return rs;
            }
            assert(rest.skip(i - start + 1) =~= cs@.subrange(i + 1, to as int));
            assert(range_texts(cs@, old_rs) + fields(rest, c) =~= range_texts(cs@, rs@) + fields(
                cs@.subrange(i + 1, to as int),
                c,
            ));
            start = i + 1;
            i = i + 1;
        } else {
            i += 1;
        }
    }
}

/// The whitespace-separated words of `cs[from..to]`.
pub(crate) fn words_range(cs: &Vec<char>, from: usize, to: usize) -> (rs: Vec<(usize, usize)>)
    requires
        from <= to <= cs@.len(),
    ensures
        ranges_within(rs@, from as int, to as int),
        range_texts(cs@, rs@) == words(cs@.subrange(from as int, to as int)),
        forall|k: int, q: int| #![trigger rs@[k], cs@[q]] 0 <= k < rs@.len() && rs@[k].0 <= q < rs@[k].1 ==> !is_ws(cs@[q]),
{
    let mut rs: Vec<(usize, usize)> = Vec::new();
    let mut i = from;
    loop
        invariant
            from <= i <= to <= cs@.len(),
            ranges_within(rs@, from as int, to as int),
            forall|k: int, q: int| #![trigger rs@[k], cs@[q]] 0 <= k < rs@.len() && rs@[k].0 <= q < rs@[k].1 ==> !is_ws(cs@[q]),
            range_texts(cs@, rs@) + words(cs@.subrange(i as int, to as int)) == words(
                cs@.subrange(from as int, to as int),
            ),
        decreases to - i,
    {
        let ghost s = cs@.subrange(i as int, to as int);
        let j = i + count_lead_ws(cs, i, to);
        proof {
            lemma_lead_ws_bound(s);
        }
        let ghost t = s.skip(lead_ws(s) as int);
        assert(t =~= cs@.subrange(j as int, to as int));
        if j == to {
            assert(t.len() == 0);
            assert(words(s) == Seq::<Seq<char>>::empty());
            assert(range_texts(cs@, rs@) =~= range_texts(cs@, rs@) + words(s));
            return rs;
        }
        let mut k = j;
        while k < to && !is_ws_char(cs[k])
            invariant
                j <= k <= to <= cs@.len(),
                forall|q: int| j <= q < k ==> !is_ws(#[trigger] cs@[q]),
            decreases to - k,
        {
            k += 1;
        }
        proof {
            assert forall|q: int| 0 <= q < k - j implies !is_ws(#[trigger] t[q]) by {
                assert(t[q] == cs@[j + q]);
            }
            if k < to {
                assert(t[k - j] == cs@[k as int]);
            }
            lemma_run_len_at(t, (k - j) as nat);
            assert(!is_ws(cs@[j as int]));
        }
        let ghost old_rs = rs@;
        rs.push((j, k));
        assert(range_text(cs@, (j, k)) =~= cs@.subrange(j as int, k as int));
        assert(t.take(k - j) =~= cs@.subrange(j as int, k as int));
        assert(t.skip(k - j) =~= cs@.subrange(k as int, to as int));
        assert(words(s) == seq![t.take(k - j)] + words(t.skip(k - j)));
        assert(range_texts(cs@, rs@) =~= range_texts(cs@, old_rs) + seq![t.take(k - j)]);
        assert(range_texts(cs@, old_rs) + words(s) =~= range_texts(cs@, rs@) + words(
            cs@.subrange(k as int, to as int),
        ));
        i = k;
    }
}

} // verus!
