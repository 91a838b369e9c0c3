//! Product definition files.
//!
//! A product file is a product line followed by cost lines:
//!
//! ```text
//! + <name> : <sale_price> <currency> : <production_time> <unit>
//!   - <cost_price> <currency> <description>
//! ```
//!
//! Numbers are kept exactly as written once they are known to be valid
//! decimal literals; turning them into floating-point values is left to the
//! caller.
use vstd::prelude::*;
use crate::lang::{self, Dict, Lang};
use crate::text;
use crate::text::{chars_of, push_char, split_range, string_of, trim_range, u64_text, words_range};

verus! {

broadcast use vstd::string::group_string_axioms;

// ---------------------------------------------------------------------------
// Decimal literals
// ---------------------------------------------------------------------------

/// A sign character.
pub open spec fn is_sign(c: char) -> bool {
    c == '+' || c == '-'
}

/// ASCII lowercase of a character.
pub open spec fn lower(c: char) -> char {
    if 65 <= (c as u32) <= 90 {
        ((c as u32) + 32) as char
    } else {
        c
    }
}

/// `s` without one leading sign character.
pub open spec fn unsigned_part(s: Seq<char>) -> Seq<char> {
    if s.len() > 0 && is_sign(s[0]) {
        s.skip(1)
    } else {
        s
    }
}

/// `inf`, `infinity` or `nan`, in any letter case.
pub open spec fn is_special(t: Seq<char>) -> bool {
    let l = t.map_values(|c: char| lower(c));
    ||| l == seq!['i', 'n', 'f']
    ||| l == seq!['i', 'n', 'f', 'i', 'n', 'i', 't', 'y']
    ||| l == seq!['n', 'a', 'n']
}

/// Number of decimal digits in `m`.
pub open spec fn digit_count(m: Seq<char>) -> nat
    decreases m.len(),
{
    if m.len() == 0 {
        0
    } else {
        digit_count(m.drop_last()) + if lang::is_digit(m.last()) {
            1nat
        } else {
            0nat
        }
    }
}

/// Number of `.` characters in `m`.
pub open spec fn dot_count(m: Seq<char>) -> nat
    decreases m.len(),
{
    if m.len() == 0 {
        0
    } else {
        dot_count(m.drop_last()) + if m.last() == '.' {
            1nat
        } else {
            0nat
        }
    }
}

/// The digits-and-point part of a number: `Digit+`, `Digit+ '.' Digit*` or
/// `Digit* '.' Digit+`.
pub open spec fn is_mantissa(m: Seq<char>) -> bool {
    &&& forall|i: int| 0 <= i < m.len() ==> lang::is_digit(#[trigger] m[i]) || m[i] == '.'
    &&& dot_count(m) <= 1
    &&& digit_count(m) >= 1
}

/// An exponent after the `e`: `Sign? Digit+`.
pub open spec fn is_exponent(x: Seq<char>) -> bool {
    let y = unsigned_part(x);
    y.len() > 0 && forall|i: int| 0 <= i < y.len() ==> lang::is_digit(#[trigger] y[i])
}

/// Index of the first `e` or `E` of `t`, or `t.len()`.
pub open spec fn exp_index(t: Seq<char>) -> nat {
    let a = text::index_of(t, 'e');
    let b = text::index_of(t, 'E');
    if a <= b {
        a
    } else {
        b
    }
}

/// The floating-point literal grammar of `f64::from_str`:
/// `Sign? ('inf' | 'infinity' | 'nan' | Number)` where
/// `Number ::= (Digit+ | Digit+ '.' Digit* | Digit* '.' Digit+) Exp?` and
/// `Exp ::= 'e' Sign? Digit+`, letters in any case.
pub open spec fn is_float_literal(s: Seq<char>) -> bool {
    let t = unsigned_part(s);
    ||| is_special(t)
    ||| {
        let e = exp_index(t);
        &&& is_mantissa(t.take(e as int))
        &&& (e >= t.len() || is_exponent(t.skip((e + 1) as int)))
    }
}

fn lower_char(c: char) -> (r: char)
    ensures
        r == lower(c),
{
    let u = c as u32;
    if 65 <= u && u <= 90 {
        let v: u32 = u + 32;
        // Letters 'a'..='z' are valid characters.
        match v {
            97 => 'a', 98 => 'b', 99 => 'c', 100 => 'd', 101 => 'e', 102 => 'f', 103 => 'g',
            104 => 'h', 105 => 'i', 106 => 'j', 107 => 'k', 108 => 'l', 109 => 'm', 110 => 'n',
            111 => 'o', 112 => 'p', 113 => 'q', 114 => 'r', 115 => 's', 116 => 't', 117 => 'u',
            118 => 'v', 119 => 'w', 120 => 'x', 121 => 'y', _ => 'z',
        }
    } else {
        c
    }
}

/// Whether `cs[from..to]`, lowercased, is exactly `word`.
fn lowered_is(cs: &Vec<char>, from: usize, to: usize, word: &Vec<char>) -> (b: bool)
    requires
        from <= to <= cs@.len(),
    ensures
        b == (cs@.subrange(from as int, to as int).map_values(|c: char| lower(c)) == word@),
{
    let ghost l = cs@.subrange(from as int, to as int).map_values(|c: char| lower(c));
    if to - from != word.len() {
        return false;
    }
    let mut i: usize = 0;
    while i < word.len()
        invariant
            from <= to <= cs@.len(),
            to - from == word@.len(),
            l == cs@.subrange(from as int, to as int).map_values(|c: char| lower(c)),
            i <= word@.len(),
            forall|j: int| 0 <= j < i ==> l[j] == word@[j],
        decreases word@.len() - i,
    {
        if lower_char(cs[from + i]) != word[i] {
            assert(l[i as int] == lower(cs@[from + i]));
            return false;
        }
        i += 1;
    }
    assert(l =~= word@);
    true
}

fn is_digit_char(c: char) -> (b: bool)
    ensures
        b == lang::is_digit(c),
{
    let u = c as u32;
    48 <= u && u <= 57
}

/// Checks `cs[from..to]` against [`is_mantissa`].
fn mantissa_ok(cs: &Vec<char>, from: usize, to: usize) -> (b: bool)
    requires
        from <= to <= cs@.len(),
    ensures
        b == is_mantissa(cs@.subrange(from as int, to as int)),
{
    let ghost m = cs@.subrange(from as int, to as int);
    let mut digits: usize = 0;
    let mut dots: usize = 0;
    let mut i = from;
    while i < to
        invariant
            from <= i <= to <= cs@.len(),
            m == cs@.subrange(from as int, to as int),
            digits == digit_count(m.take(i - from)),
            dots == dot_count(m.take(i - from)),
            dots <= 1,
            digits <= i - from,
            forall|j: int| 0 <= j < i - from ==> lang::is_digit(#[trigger] m[j]) || m[j] == '.',
        decreases to - i,
    {
        assert(m.take(i - from + 1).drop_last() =~= m.take(i - from));
        assert(m[i - from] == cs@[i as int]);
        if is_digit_char(cs[i]) {
            digits += 1;
        } else if cs[i] == '.' {
            if dots == 1 {
                proof {
                    lemma_dot_count_prefix(m, i - from + 1);
                }
                return false;
            }
            dots += 1;
        } else {
            return false;
        }
        i += 1;
    }
    assert(m.take(to - from) =~= m);
    digits >= 1
}

/// The `.` count of a prefix never exceeds that of the whole.
proof fn lemma_dot_count_prefix(m: Seq<char>, k: int)
    requires
        0 <= k <= m.len(),
    ensures
        dot_count(m.take(k)) <= dot_count(m),
    decreases m.len() - k,
{
    if k < m.len() {
        lemma_dot_count_prefix(m, k + 1);
        assert(m.take(k + 1).drop_last() =~= m.take(k));
    } else {
        assert(m.take(k) =~= m);
    }
}

/// Checks `cs[from..to]` against [`is_exponent`].
fn exponent_ok(cs: &Vec<char>, from: usize, to: usize) -> (b: bool)
    requires
        from <= to <= cs@.len(),
    ensures
        b == is_exponent(cs@.subrange(from as int, to as int)),
{
    let ghost x = cs@.subrange(from as int, to as int);
    let mut a = from;
    if a < to && (cs[a] == '+' || cs[a] == '-') {
        a += 1;
    }
    assert(text::range_text(cs@, (a, to)) =~= unsigned_part(x));
    if a == to {
        return false;
    }
    let ghost y = unsigned_part(x);
    let mut i = a;
    while i < to
        invariant
            from <= a <= i <= to <= cs@.len(),
            y == cs@.subrange(a as int, to as int),
            x == cs@.subrange(from as int, to as int),
            y == unsigned_part(x),
            forall|j: int| a <= j < i ==> lang::is_digit(#[trigger] cs@[j]),
        decreases to - i,
    {
        if !is_digit_char(cs[i]) {
            assert(y[i - a] == cs@[i as int]);
            assert(!lang::is_digit(y[i - a]));
            assert(y == unsigned_part(x));
            return false;
        }
        i += 1;
    }
    assert forall|j: int| 0 <= j < unsigned_part(x).len() implies lang::is_digit(
        #[trigger] unsigned_part(x)[j],
    ) by {
        assert(unsigned_part(x)[j] == cs@[a + j]);
    }
    true
}

/// First index in `[from, to)` holding `c`, or `to`.
fn find_char(cs: &Vec<char>, from: usize, to: usize, c: char) -> (k: usize)
    requires
        from <= to <= cs@.len(),
    ensures
        from <= k <= to,
        k - from == text::index_of(cs@.subrange(from as int, to as int), c),
{
    let mut k = from;
    while k < to && cs[k] != c
        invariant
            from <= k <= to <= cs@.len(),
            forall|j: int| from <= j < k ==> cs@[j] != c,
        decreases to - k,
    {
        k += 1;
    }
    proof {
        let s = cs@.subrange(from as int, to as int);
        assert forall|j: int| 0 <= j < k - from implies s[j] != c by {
            assert(s[j] == cs@[from + j]);
        }
        if k < to {
            assert(s[k - from] == cs@[k as int]);
        }
        text::lemma_index_of_at(s, c, (k - from) as nat);
    }
    k
}

/// Whether `cs[from..to]` is a floating-point literal ([`is_float_literal`]).
pub(crate) fn float_literal_ok(cs: &Vec<char>, from: usize, to: usize) -> (b: bool)
    requires
        from <= to <= cs@.len(),
    ensures
        b == is_float_literal(cs@.subrange(from as int, to as int)),
{
    let ghost s = cs@.subrange(from as int, to as int);
    let mut a = from;
    if a < to && (cs[a] == '+' || cs[a] == '-') {
        a += 1;
    }
    let ghost t = unsigned_part(s);
    assert(cs@.subrange(a as int, to as int) =~= t);
    let inf = vec!['i', 'n', 'f'];
    let infinity = vec!['i', 'n', 'f', 'i', 'n', 'i', 't', 'y'];
    let nan = vec!['n', 'a', 'n'];
    assert(inf@ =~= seq!['i', 'n', 'f']);
    assert(infinity@ =~= seq!['i', 'n', 'f', 'i', 'n', 'i', 't', 'y']);
    assert(nan@ =~= seq!['n', 'a', 'n']);
    if lowered_is(cs, a, to, &inf) || lowered_is(cs, a, to, &infinity) || lowered_is(cs, a, to, &nan) {
        return true;
    }
    let e1 = find_char(cs, a, to, 'e');
    let e2 = find_char(cs, a, to, 'E');
    let e = if e1 <= e2 {
        e1
    } else {
        e2
    };
    assert(e - a == exp_index(t));
    assert(cs@.subrange(a as int, e as int) =~= t.take(e - a));
    if !mantissa_ok(cs, a, e) {
        return false;
    }
    if e == to {
        return true;
    }
    assert(cs@.subrange(e + 1, to as int) =~= t.skip(e - a + 1));
    exponent_ok(cs, e + 1, to)
}

// ---------------------------------------------------------------------------
// Data model
// ---------------------------------------------------------------------------

/// Whether `s` is a currency code: three uppercase ASCII letters.
pub open spec fn valid_code(s: Seq<char>) -> bool {
    s.len() == 3 && forall|i: int| 0 <= i < 3 ==> 65 <= (#[trigger] s[i] as u32) <= 90
}

/// A currency code (e.g. USD, EUR, GBP, JPY): any three uppercase ASCII
/// letters, stored as three bytes so the type stays `Copy`.
#[derive(Debug, Clone, Copy, PartialEq, Eq, Structural)]
pub struct Currency(u8, u8, u8);

impl Currency {
    /// The three letters of the code.
    pub closed spec fn text(self) -> Seq<char> {
        seq![self.0 as char, self.1 as char, self.2 as char]
    }

    /// A currency is determined by its letters.
    pub proof fn lemma_text_injective(a: Currency, b: Currency)
        requires
            a.text() == b.text(),
        ensures
            a == b,
    {
        assert(a.text()[0] == b.text()[0]);
        assert(a.text()[1] == b.text()[1]);
        assert(a.text()[2] == b.text()[2]);
    }

    /// Builds a currency from three code letters.
    fn from_letters(a: char, b: char, c: char) -> (r: Currency)
        requires
            65 <= (a as u32) <= 90,
            65 <= (b as u32) <= 90,
            65 <= (c as u32) <= 90,
        ensures
            r.text() == seq![a, b, c],
    {
        let r = Currency(a as u8, b as u8, c as u8);
        assert(r.text() =~= seq![a, b, c]);
        r
    }

    /// Create a `Currency` from a known-valid 3-letter code (three
    /// uppercase ASCII letters; any other text is a programming error).
    pub fn new(code: &str) -> (r: Currency)
        requires
            valid_code(code@),
        ensures
            r.text() == code@,
    {
        let cs = chars_of(code);
        let r = Currency::from_letters(cs[0], cs[1], cs[2]);
        assert(r.text() =~= code@);
        r
    }

    /// Parse a currency code: any 3-letter uppercase ASCII code (ISO 4217
    /// format) is accepted.
    pub fn from_str(s: &str) -> (r: Option<Currency>)
        ensures
            r is Some <==> valid_code(s@),
            r matches Some(c) ==> c.text() == s@,
    {
        let cs = chars_of(s);
        currency_in(&cs, 0, cs.len())
    }

    /// The code as text (what `Display` prints).
    pub fn to_string(&self) -> (s: String)
        ensures
            s@ == self.text(),
    {
        let mut s = String::new();
        push_char(&mut s, self.0 as char);
        push_char(&mut s, self.1 as char);
        push_char(&mut s, self.2 as char);
        assert(s@ =~= self.text());
        s
    }
}

/// Parses `cs[from..to]` as a currency code.
fn currency_in(cs: &Vec<char>, from: usize, to: usize) -> (r: Option<Currency>)
    requires
        from <= to <= cs@.len(),
    ensures
        r is Some <==> valid_code(cs@.subrange(from as int, to as int)),
        r matches Some(c) ==> c.text() == cs@.subrange(from as int, to as int),
{
    let ghost s = cs@.subrange(from as int, to as int);
    if to - from != 3 {
        return None;
    }
    let (a, b, c) = (cs[from], cs[from + 1], cs[from + 2]);
    assert(s[0] == a && s[1] == b && s[2] == c);
    let ok = 65 <= (a as u32) && (a as u32) <= 90 && 65 <= (b as u32) && (b as u32) <= 90 && 65
        <= (c as u32) && (c as u32) <= 90;
    if ok {
        let r = Currency::from_letters(a, b, c);
        assert(r.text() =~= s);
        Some(r)
    } else {
        assert(!(65 <= (s[0] as u32) <= 90) || !(65 <= (s[1] as u32) <= 90) || !(65 <= (s[2] as u32)
            <= 90));
        None
    }
}

/// The unit of a production time.
#[derive(Debug, Clone, Copy, PartialEq, Eq, Structural)]
pub enum TimeUnit {
    Mins,
    Hours,
}

/// The unit named by `s`: `mins` or `hours`.
pub open spec fn unit_of(s: Seq<char>) -> Option<TimeUnit> {
    if s == seq!['m', 'i', 'n', 's'] {
        Some(TimeUnit::Mins)
    } else if s == seq!['h', 'o', 'u', 'r', 's'] {
        Some(TimeUnit::Hours)
    } else {
        None
    }
}

/// Whether `cs[from..to]` is exactly `word`.
fn range_is(cs: &Vec<char>, from: usize, to: usize, word: &Vec<char>) -> (b: bool)
    requires
        from <= to <= cs@.len(),
    ensures
        b == (cs@.subrange(from as int, to as int) == word@),
{
    if to - from != word.len() {
        return false;
    }
    let mut i: usize = 0;
    while i < word.len()
        invariant
            from <= to <= cs@.len(),
            to - from == word@.len(),
            i <= word@.len(),
            forall|j: int| 0 <= j < i ==> cs@[from + j] == word@[j],
        decreases word@.len() - i,
    {
        if cs[from + i] != word[i] {
            assert(cs@.subrange(from as int, to as int)[i as int] == cs@[from + i]);
            return false;
        }
        i += 1;
    }
    assert(cs@.subrange(from as int, to as int) =~= word@);
    true
}

/// Parses `cs[from..to]` as a time unit.
fn unit_in(cs: &Vec<char>, from: usize, to: usize) -> (r: Option<TimeUnit>)
    requires
        from <= to <= cs@.len(),
    ensures
        r == unit_of(cs@.subrange(from as int, to as int)),
{
    let mins = vec!['m', 'i', 'n', 's'];
    let hours = vec!['h', 'o', 'u', 'r', 's'];
    assert(mins@ =~= seq!['m', 'i', 'n', 's']);
    assert(hours@ =~= seq!['h', 'o', 'u', 'r', 's']);
    if range_is(cs, from, to, &mins) {
        Some(TimeUnit::Mins)
    } else if range_is(cs, from, to, &hours) {
        Some(TimeUnit::Hours)
    } else {
        None
    }
}

impl TimeUnit {
    /// Parse a production-time unit: `mins` or `hours`.
    pub fn from_str(s: &str) -> (r: Option<TimeUnit>)
        ensures
            r == unit_of(s@),
    {
        let cs = chars_of(s);
        let r = unit_in(&cs, 0, cs.len());
        assert(cs@.subrange(0, cs@.len() as int) =~= s@);
        r
    }

    /// Localized human-readable label for this unit.
    pub fn label(&self, lang: &Lang) -> (r: &'static str)
        ensures
            r == (match self {
                TimeUnit::Mins => lang::spec_dict(*lang).time_mins,
                TimeUnit::Hours => lang::spec_dict(*lang).time_hours,
            }),
    {
        match self {
            TimeUnit::Mins => lang.dict().time_mins,
            TimeUnit::Hours => lang.dict().time_hours,
        }
    }
}

/// One cost of producing a product.
///
/// `price` is the decimal literal as written in the file; it always
/// satisfies [`is_float_literal`].
#[derive(Debug, Clone, PartialEq)]
pub struct Cost {
    pub price: String,
    pub currency: Currency,
    pub description: String,
}

/// A cost as plain values.
#[verifier::ext_equal]
pub struct CostModel {
    pub price: Seq<char>,
    pub currency: Seq<char>,
    pub description: Seq<char>,
}

impl View for Cost {
    type V = CostModel;

    open spec fn view(&self) -> CostModel {
        CostModel {
            price: self.price@,
            currency: self.currency.text(),
            description: self.description@,
        }
    }
}

/// A parsed product definition.
///
/// `sale_price` and `production_time` are the decimal literals as written in
/// the file; they always satisfy [`is_float_literal`].
#[derive(Debug, Clone, PartialEq)]
pub struct ProductDefinition {
    pub name: String,
    pub sale_price: String,
    pub sale_currency: Currency,
    pub production_time: String,
    pub production_time_unit: TimeUnit,
    pub costs: Vec<Cost>,
}

/// A product definition as plain values.
#[verifier::ext_equal]
pub struct ProductModel {
    pub name: Seq<char>,
    pub sale_price: Seq<char>,
    pub sale_currency: Seq<char>,
    pub production_time: Seq<char>,
    pub production_time_unit: TimeUnit,
    pub costs: Seq<CostModel>,
}

impl View for ProductDefinition {
    type V = ProductModel;

    open spec fn view(&self) -> ProductModel {
        ProductModel {
            name: self.name@,
            sale_price: self.sale_price@,
            sale_currency: self.sale_currency.text(),
            production_time: self.production_time@,
            production_time_unit: self.production_time_unit,
            costs: self.costs@.map_values(|c: Cost| c@),
        }
    }
}

// ---------------------------------------------------------------------------
// Parser specification
// ---------------------------------------------------------------------------

/// The outcome of parsing a product line `+ <name> : <price> <currency> :
/// <time> <unit>` (with no costs yet), or its error message.
pub open spec fn product_line_result(line: Seq<char>, d: Dict) -> Result<ProductModel, Seq<char>> {
    let parts = text::fields(line, ':');
    if parts.len() != 3 {
        Err(lang::render(d.err_product_sections@, seq![text::nat_digits(parts.len())]))
    } else {
        let s0 = text::trim(parts[0]);
        if s0.len() == 0 || s0[0] != '+' {
            Err(d.err_product_plus@)
        } else {
            let name = text::trim(s0.skip(1));
            if name.len() == 0 {
                Err(d.err_empty_product_name@)
            } else {
                let t1 = text::words(parts[1]);
                if t1.len() != 2 {
                    Err(lang::render(d.err_sale_section@, seq![text::nat_digits(t1.len())]))
                } else if !is_float_literal(t1[0]) {
                    Err(lang::render(d.err_invalid_sale_price@, seq![t1[0]]))
                } else if !valid_code(t1[1]) {
                    Err(lang::render(d.err_invalid_sale_currency@, seq![t1[1]]))
                } else {
                    let t2 = text::words(parts[2]);
                    if t2.len() != 2 {
                        Err(lang::render(d.err_time_section@, seq![text::nat_digits(t2.len())]))
                    } else if !is_float_literal(t2[0]) {
                        Err(lang::render(d.err_invalid_prod_time@, seq![t2[0]]))
                    } else if unit_of(t2[1]) is None {
                        Err(lang::render(d.err_invalid_time_unit@, seq![t2[1]]))
                    } else {
                        Ok(
                            ProductModel {
                                name: name,
                                sale_price: t1[0],
                                sale_currency: t1[1],
                                production_time: t2[0],
                                production_time_unit: unit_of(t2[1])->0,
                                costs: Seq::empty(),
                            },
                        )
                    }
                }
            }
        }
    }
}

/// The outcome of parsing a cost line `- <price> <currency> <description>`,
/// or its error message.
pub open spec fn cost_line_result(line: Seq<char>, d: Dict) -> Result<CostModel, Seq<char>> {
    let t = text::trim(line);
    if t.len() == 0 || t[0] != '-' {
        Err(d.err_cost_minus@)
    } else {
        let toks = text::words(t.skip(1));
        if toks.len() < 3 {
            Err(lang::render(d.err_cost_tokens@, seq![text::nat_digits(toks.len())]))
        } else if !is_float_literal(toks[0]) {
            Err(lang::render(d.err_invalid_cost_price@, seq![toks[0]]))
        } else if !valid_code(toks[1]) {
            Err(lang::render(d.err_invalid_cost_currency@, seq![toks[1]]))
        } else {
            Ok(
                CostModel {
                    price: toks[0],
                    currency: toks[1],
                    description: text::join_spaced(toks.skip(2)),
                },
            )
        }
    }
}

/// What has been gathered after reading some lines of a product file.
#[verifier::ext_equal]
pub struct ScanModel {
    pub errors: Seq<Seq<char>>,
    pub product: Option<ProductModel>,
    pub costs: Seq<CostModel>,
    pub saw_product_line: bool,
}

/// "Line {n}: {message}".
pub open spec fn line_error(d: Dict, lineno: nat, e: Seq<char>) -> Seq<char> {
    lang::render(d.err_line_prefix@, seq![text::nat_digits(lineno), e])
}

/// Reading line number `lineno` (`raw`, untrimmed) into the gathered state.
pub open spec fn scan_step(st: ScanModel, lineno: nat, raw: Seq<char>, d: Dict) -> ScanModel {
    let line = text::trim(raw);
    if line.len() == 0 {
        st
    } else if line[0] == '+' {
        if st.product is Some {
            ScanModel {
                errors: st.errors.push(
                    lang::render(d.err_duplicate_product_line@, seq![text::nat_digits(lineno)]),
                ),
                saw_product_line: true,
                ..st
            }
        } else {
            match product_line_result(line, d) {
                Ok(p) => ScanModel { product: Some(p), saw_product_line: true, ..st },
                Err(e) => ScanModel {
                    errors: st.errors.push(line_error(d, lineno, e)),
                    saw_product_line: true,
                    ..st
                },
            }
        }
    } else if line[0] == '-' {
        match cost_line_result(line, d) {
            Ok(c) => ScanModel { costs: st.costs.push(c), ..st },
            Err(e) => ScanModel { errors: st.errors.push(line_error(d, lineno, e)), ..st },
        }
    } else {
        ScanModel {
            errors: st.errors.push(
                lang::render(d.err_unexpected_line@, seq![text::nat_digits(lineno)]),
            ),
            ..st
        }
    }
}

/// The state after reading all of `ls` (line numbers start at 1).
pub open spec fn scan(ls: Seq<Seq<char>>, d: Dict) -> ScanModel
    decreases ls.len(),
{
    if ls.len() == 0 {
        ScanModel {
            errors: Seq::empty(),
            product: None,
            costs: Seq::empty(),
            saw_product_line: false,
        }
    } else {
        scan_step(scan(ls.drop_last(), d), ls.len(), ls.last(), d)
    }
}

/// The outcome of parsing a whole product file: the product with its costs
/// when no line has an error and a product line exists, else every error in
/// line order (followed by "missing product line" when there is none).
pub open spec fn parse_result(content: Seq<char>, d: Dict) -> Result<ProductModel, Seq<Seq<char>>> {
    let st = scan(text::lines(content), d);
    let errors = if st.saw_product_line {
        st.errors
    } else {
        st.errors.push(d.err_missing_product_line@)
    };
    if errors.len() > 0 {
        Err(errors)
    } else {
        match st.product {
            Some(p) => Ok(ProductModel { costs: st.costs, ..p }),
            None => Err(errors),
        }
    }
}

// ---------------------------------------------------------------------------
// Parser
// ---------------------------------------------------------------------------

/// Parses the product line `cs[from..to]`.
fn product_line_in(cs: &Vec<char>, from: usize, to: usize, d: &Dict) -> (r: Result<ProductDefinition, String>)
    requires
        from <= to <= cs@.len(),
    ensures
        match (r, product_line_result(cs@.subrange(from as int, to as int), *d)) {
            (Ok(p), Ok(m)) => p@ == m,
            (Err(e), Err(m)) => e@ == m,
            _ => false,
        },
{
    let ghost line = cs@.subrange(from as int, to as int);
    let parts = split_range(cs, from, to, ':');
    let ghost ps = text::range_texts(cs@, parts@);
    if parts.len() != 3 {
        return Err(lang::fmt1(d.err_product_sections, u64_text(parts.len() as u64).as_str()));
    }
    assert(ps[0] == cs@.subrange(parts@[0].0 as int, parts@[0].1 as int));
    assert(ps[1] == cs@.subrange(parts@[1].0 as int, parts@[1].1 as int));
    assert(ps[2] == cs@.subrange(parts@[2].0 as int, parts@[2].1 as int));
    let (a0, b0) = trim_range(cs, parts[0].0, parts[0].1);
    if a0 == b0 || cs[a0] != '+' {
        return Err(String::from_str(d.err_product_plus));
    }
    assert(cs@.subrange(a0 as int, b0 as int)[0] == cs@[a0 as int]);
    assert(cs@.subrange(a0 + 1, b0 as int) =~= cs@.subrange(a0 as int, b0 as int).skip(1));
    let (na, nb) = trim_range(cs, a0 + 1, b0);
    if na == nb {
        return Err(String::from_str(d.err_empty_product_name));
    }
    let t1 = words_range(cs, parts[1].0, parts[1].1);
    let ghost w1 = text::range_texts(cs@, t1@);
    if t1.len() != 2 {
        return Err(lang::fmt1(d.err_sale_section, u64_text(t1.len() as u64).as_str()));
    }
    assert(w1[0] == cs@.subrange(t1@[0].0 as int, t1@[0].1 as int));
    assert(w1[1] == cs@.subrange(t1@[1].0 as int, t1@[1].1 as int));
    if !float_literal_ok(cs, t1[0].0, t1[0].1) {
        let tok = string_of(cs, t1[0].0, t1[0].1);
        return Err(lang::fmt1(d.err_invalid_sale_price, tok.as_str()));
    }
    let cur = match currency_in(cs, t1[1].0, t1[1].1) {
        Some(c) => c,
        None => {
            let tok = string_of(cs, t1[1].0, t1[1].1);
            return Err(lang::fmt1(d.err_invalid_sale_currency, tok.as_str()));
        },
    };
    let t2 = words_range(cs, parts[2].0, parts[2].1);
    let ghost w2 = text::range_texts(cs@, t2@);
    if t2.len() != 2 {
        return Err(lang::fmt1(d.err_time_section, u64_text(t2.len() as u64).as_str()));
    }
    assert(w2[0] == cs@.subrange(t2@[0].0 as int, t2@[0].1 as int));
    assert(w2[1] == cs@.subrange(t2@[1].0 as int, t2@[1].1 as int));
    if !float_literal_ok(cs, t2[0].0, t2[0].1) {
        let tok = string_of(cs, t2[0].0, t2[0].1);
        return Err(lang::fmt1(d.err_invalid_prod_time, tok.as_str()));
    }
    let unit = match unit_in(cs, t2[1].0, t2[1].1) {
        Some(u) => u,
        None => {
            let tok = string_of(cs, t2[1].0, t2[1].1);
            return Err(lang::fmt1(d.err_invalid_time_unit, tok.as_str()));
        },
    };
    let p = ProductDefinition {
        name: string_of(cs, na, nb),
        sale_price: string_of(cs, t1[0].0, t1[0].1),
        sale_currency: cur,
        production_time: string_of(cs, t2[0].0, t2[0].1),
        production_time_unit: unit,
        costs: Vec::new(),
    };
    assert(p@.costs =~= Seq::<CostModel>::empty());
    Ok(p)
}

/// Appends `cs` ranges `ws[from..]` joined with single spaces.
fn join_ranges(cs: &Vec<char>, ws: &Vec<(usize, usize)>, from: usize) -> (s: String)
    requires
        from < ws@.len(),
        text::ranges_within(ws@, 0, cs@.len() as int),
    ensures
        s@ == text::join_spaced(text::range_texts(cs@, ws@).skip(from as int)),
{
    let ghost all = text::range_texts(cs@, ws@);
    let mut s = string_of(cs, ws[from].0, ws[from].1);
    let n = ws.len();
    let mut k = from + 1;
    assert(all.skip(from as int).take(1) =~= seq![all[from as int]]);
    while k < ws.len()
        invariant
            from < k <= ws@.len(),
            all == text::range_texts(cs@, ws@),
            text::ranges_within(ws@, 0, cs@.len() as int),
            s@ == text::join_spaced(all.skip(from as int).take(k - from)),
        decreases ws@.len() - k,
    {
        push_char(&mut s, ' ');
        let w = string_of(cs, ws[k].0, ws[k].1);
        text::push_str(&mut s, w.as_str());
        let ghost t = all.skip(from as int).take(k + 1 - from);
        assert(t.drop_last() =~= all.skip(from as int).take(k - from));
        assert(t.last() == all[k as int]);
        assert(s@ =~= text::join_spaced(t));
        k += 1;
    }
    assert(all.skip(from as int).take(ws@.len() - from) =~= all.skip(from as int));
    s
}

/// Parses the cost line `cs[from..to]`.
fn cost_line_in(cs: &Vec<char>, from: usize, to: usize, d: &Dict) -> (r: Result<Cost, String>)
    requires
        from <= to <= cs@.len(),
    ensures
        match (r, cost_line_result(cs@.subrange(from as int, to as int), *d)) {
            (Ok(c), Ok(m)) => c@ == m,
            (Err(e), Err(m)) => e@ == m,
            _ => false,
        },
{
    let (a, b) = trim_range(cs, from, to);
    if a == b || cs[a] != '-' {
        return Err(String::from_str(d.err_cost_minus));
    }
    assert(cs@.subrange(a as int, b as int)[0] == cs@[a as int]);
    assert(cs@.subrange(a + 1, b as int) =~= cs@.subrange(a as int, b as int).skip(1));
    let toks = words_range(cs, a + 1, b);
    let ghost w = text::range_texts(cs@, toks@);
    if toks.len() < 3 {
        return Err(lang::fmt1(d.err_cost_tokens, u64_text(toks.len() as u64).as_str()));
    }
    assert(w[0] == cs@.subrange(toks@[0].0 as int, toks@[0].1 as int));
    assert(w[1] == cs@.subrange(toks@[1].0 as int, toks@[1].1 as int));
    if !float_literal_ok(cs, toks[0].0, toks[0].1) {
        let tok = string_of(cs, toks[0].0, toks[0].1);
        return Err(lang::fmt1(d.err_invalid_cost_price, tok.as_str()));
    }
    let cur = match currency_in(cs, toks[1].0, toks[1].1) {
        Some(c) => c,
        None => {
            let tok = string_of(cs, toks[1].0, toks[1].1);
            return Err(lang::fmt1(d.err_invalid_cost_currency, tok.as_str()));
        },
    };
    let description = join_ranges(cs, &toks, 2);
    Ok(Cost { price: string_of(cs, toks[0].0, toks[0].1), currency: cur, description })
}

/// Parse a product header line of the form
/// `+ <name> : <sale_price> <sale_currency> : <production_time> <time_unit>`.
pub fn parse_product_line(line: &str, lang: &Lang) -> (r: Result<ProductDefinition, String>)
    ensures
        match (r, product_line_result(line@, lang::spec_dict(*lang))) {
            (Ok(p), Ok(m)) => p@ == m,
            (Err(e), Err(m)) => e@ == m,
            _ => false,
        },
{
    let cs = chars_of(line);
    let d = lang.dict();
    assert(cs@.subrange(0, cs@.len() as int) =~= line@);
    product_line_in(&cs, 0, cs.len(), &d)
}

/// Parse a cost line of the form `- <cost_price> <cost_currency> <cost_description>`.
pub fn parse_cost_line(line: &str, lang: &Lang) -> (r: Result<Cost, String>)
    ensures
        match (r, cost_line_result(line@, lang::spec_dict(*lang))) {
            (Ok(c), Ok(m)) => c@ == m,
            (Err(e), Err(m)) => e@ == m,
            _ => false,
        },
{
    let cs = chars_of(line);
    let d = lang.dict();
    assert(cs@.subrange(0, cs@.len() as int) =~= line@);
    cost_line_in(&cs, 0, cs.len(), &d)
}

/// The gathered state of the parser's run-time values.
pub open spec fn scan_of(
    errors: Seq<String>,
    product: Option<ProductDefinition>,
    costs: Seq<Cost>,
    saw: bool,
) -> ScanModel {
    ScanModel {
        errors: errors.map_values(|e: String| e@),
        product: match product {
            Some(p) => Some(p@),
            None => None,
        },
        costs: costs.map_values(|c: Cost| c@),
        saw_product_line: saw,
    }
}

/// Once a product line has been seen, either a product was parsed or an
/// error was recorded.
pub proof fn lemma_scan_saw(ls: Seq<Seq<char>>, d: Dict)
    ensures
        scan(ls, d).saw_product_line ==> scan(ls, d).product is Some || scan(ls, d).errors.len()
            > 0,
        scan(ls, d).errors.len() >= scan(ls.drop_last(), d).errors.len() || ls.len() == 0,
    decreases ls.len(),
{
    if ls.len() > 0 {
        lemma_scan_saw(ls.drop_last(), d);
    }
}

// ---------------------------------------------------------------------------
// What a whole file parses to, line by line
// ---------------------------------------------------------------------------

/// The trimmed line `l` is a product line (it starts with `+`).
pub open spec fn is_plus_line(l: Seq<char>) -> bool {
    let t = text::trim(l);
    t.len() > 0 && t[0] == '+'
}

/// The number of product lines among `ls`.
pub open spec fn plus_count(ls: Seq<Seq<char>>) -> nat
    decreases ls.len(),
{
    if ls.len() == 0 {
        0
    } else {
        plus_count(ls.drop_last()) + if is_plus_line(ls.last()) { 1nat } else { 0nat }
    }
}

/// The number of lines of `ls` that are not blank.
pub open spec fn filled_count(ls: Seq<Seq<char>>) -> nat
    decreases ls.len(),
{
    if ls.len() == 0 {
        0
    } else {
        filled_count(ls.drop_last()) + if text::trim(ls.last()).len() > 0 { 1nat } else { 0nat }
    }
}

/// Line `l` is blank, a product line that parses, or a cost line that
/// parses.
pub open spec fn line_ok(l: Seq<char>, d: Dict) -> bool {
    let t = text::trim(l);
    ||| t.len() == 0
    ||| t[0] == '+' && product_line_result(t, d) is Ok
    ||| t[0] == '-' && cost_line_result(t, d) is Ok
}

/// The costs of the cost lines of `ls` that parse, in line order.
pub open spec fn line_costs(ls: Seq<Seq<char>>, d: Dict) -> Seq<CostModel>
    decreases ls.len(),
{
    if ls.len() == 0 {
        Seq::empty()
    } else {
        let t = text::trim(ls.last());
        let prev = line_costs(ls.drop_last(), d);
        if t.len() > 0 && t[0] == '-' && cost_line_result(t, d) is Ok {
            prev.push(cost_line_result(t, d)->Ok_0)
        } else {
            prev
        }
    }
}

/// The product of the last product line of `ls`, if it parses.
pub open spec fn last_product(ls: Seq<Seq<char>>, d: Dict) -> Option<ProductModel>
    decreases ls.len(),
{
    if ls.len() == 0 {
        None
    } else if is_plus_line(ls.last()) {
        match product_line_result(text::trim(ls.last()), d) {
            Ok(p) => Some(p),
            Err(_) => None,
        }
    } else {
        last_product(ls.drop_last(), d)
    }
}

/// What reading the lines `ls` has gathered, counted line by line.
proof fn lemma_scan_counts(ls: Seq<Seq<char>>, d: Dict)
    ensures
        scan(ls, d).saw_product_line == (plus_count(ls) > 0),
        scan(ls, d).costs == line_costs(ls, d),
        scan(ls, d).errors.len() <= filled_count(ls),
        scan(ls, d).product is Some ==> plus_count(ls) >= 1,
        scan(ls, d).errors.len() == 0 <==> (plus_count(ls) <= 1 && forall|i: int|
            0 <= i < ls.len() ==> line_ok(#[trigger] ls[i], d)),
        scan(ls, d).errors.len() == 0 && plus_count(ls) == 1 ==> scan(ls, d).product == last_product(ls, d)
            && last_product(ls, d) is Some,
    decreases ls.len(),
{
    if ls.len() > 0 {
        let prev = ls.drop_last();
        lemma_scan_counts(prev, d);
        assert forall|i: int| 0 <= i < prev.len() implies #[trigger] prev[i] == ls[i] by {}
        let all_prev = forall|i: int| 0 <= i < prev.len() ==> line_ok(#[trigger] prev[i], d);
        let all_now = forall|i: int| 0 <= i < ls.len() ==> line_ok(#[trigger] ls[i], d);
        assert(all_now <==> all_prev && line_ok(ls.last(), d)) by {
            if all_prev && line_ok(ls.last(), d) {
                assert forall|i: int| 0 <= i < ls.len() implies line_ok(#[trigger] ls[i], d) by {
                    if i < prev.len() {
                        assert(line_ok(prev[i], d));
                    }
                }
            }
            if all_now {
                assert(line_ok(ls[ls.len() - 1], d));
                assert forall|i: int| 0 <= i < prev.len() implies line_ok(#[trigger] prev[i], d) by {
                    assert(line_ok(ls[i], d));
                }
            }
        }
    }
}

/// Law: a product file parses exactly when it has one product line, that
/// line parses, and every other line is blank or a cost line that parses.
/// The product then carries the costs of the cost lines in line order. A
/// file that does not parse gives at least one message and at most one per
/// non-blank line, plus one more only when there is no product line.
pub proof fn lemma_parse_shape(content: Seq<char>, d: Dict)
    ensures
        parse_result(content, d) is Ok <==> (plus_count(text::lines(content)) == 1 && forall|i: int|
            0 <= i < text::lines(content).len() ==> line_ok(#[trigger] text::lines(content)[i], d)),
        parse_result(content, d) matches Ok(p) ==> last_product(text::lines(content), d) matches Some(q) && p == (
        ProductModel { costs: line_costs(text::lines(content), d), ..q }),
        parse_result(content, d) matches Err(es) ==> 0 < es.len() <= filled_count(text::lines(content)) + if plus_count(
            text::lines(content),
        ) == 0 {
            1int
        } else {
            0int
        },
{
    lemma_scan_counts(text::lines(content), d);
}

/// A line parses, and to the same values, in every language; only the
/// error messages differ.
proof fn lemma_line_results_agree(t: Seq<char>, d1: Dict, d2: Dict)
    ensures
        (product_line_result(t, d1) is Ok) == (product_line_result(t, d2) is Ok),
        product_line_result(t, d1) is Ok ==> product_line_result(t, d1) == product_line_result(t, d2),
        (cost_line_result(t, d1) is Ok) == (cost_line_result(t, d2) is Ok),
        cost_line_result(t, d1) is Ok ==> cost_line_result(t, d1) == cost_line_result(t, d2),
{
}

proof fn lemma_lines_agree(ls: Seq<Seq<char>>, d1: Dict, d2: Dict)
    ensures
        line_costs(ls, d1) == line_costs(ls, d2),
        last_product(ls, d1) == last_product(ls, d2),
        forall|i: int| 0 <= i < ls.len() ==> line_ok(#[trigger] ls[i], d1) == line_ok(ls[i], d2),
    decreases ls.len(),
{
    if ls.len() > 0 {
        lemma_lines_agree(ls.drop_last(), d1, d2);
        let t = text::trim(ls.last());
        lemma_line_results_agree(t, d1, d2);
        assert forall|i: int| 0 <= i < ls.len() implies line_ok(#[trigger] ls[i], d1) == line_ok(ls[i], d2) by {
            lemma_line_results_agree(text::trim(ls[i]), d1, d2);
        }
    }
}

/// Law: a product line `+ N : P C : T U` that parses names the product by
/// the text between its `+` and its first `:`, trimmed but with its inner
/// spaces kept (`"+ Hot chocolate : ..."` gives `Hot chocolate`); the price
/// and currency are the two words after the first `:`, the time and unit the
/// two words after the second, and the product has no costs yet.
pub proof fn lemma_product_line_fields(line: Seq<char>, d: Dict)
    ensures
        product_line_result(line, d) matches Ok(p) ==> ({
            let parts = text::fields(line, ':');
            let head = text::trim(parts[0]);
            &&& parts.len() == 3
            &&& head.len() > 0 && head[0] == '+'
            &&& p.name == text::trim(head.skip(1))
            &&& p.name.len() > 0
            &&& text::words(parts[1]) == seq![p.sale_price, p.sale_currency]
            &&& text::words(parts[2]).len() == 2
            &&& p.production_time == text::words(parts[2])[0]
            &&& unit_of(text::words(parts[2])[1]) == Some(p.production_time_unit)
            &&& p.costs.len() == 0
        }),
{
    if product_line_result(line, d) is Ok {
        let parts = text::fields(line, ':');
        let t1 = text::words(parts[1]);
        assert(t1 =~= seq![t1[0], t1[1]]);
    }
}

/// Law: a cost line `- P C D...` that parses gives the price and currency of
/// its first two words after the `-`, and the description made of all the
/// remaining words joined by single spaces (so a description of several
/// words is kept whole).
pub proof fn lemma_cost_line_fields(line: Seq<char>, d: Dict)
    ensures
        cost_line_result(line, d) matches Ok(c) ==> ({
            let t = text::trim(line);
            let toks = text::words(t.skip(1));
            &&& t.len() > 0 && t[0] == '-'
            &&& toks.len() >= 3
            &&& c.price == toks[0]
            &&& c.currency == toks[1]
            &&& c.description == text::join_spaced(toks.subrange(2, toks.len() as int))
        }),
{
    if cost_line_result(line, d) is Ok {
        let toks = text::words(text::trim(line).skip(1));
        assert(toks.skip(2) =~= toks.subrange(2, toks.len() as int));
    }
}

/// Law: whether a product file parses, and what it parses to, is the same
/// in every interface language.
pub proof fn lemma_parse_language_free(content: Seq<char>, d1: Dict, d2: Dict)
    ensures
        (parse_result(content, d1) is Ok) == (parse_result(content, d2) is Ok),
        parse_result(content, d1) is Ok ==> parse_result(content, d1) == parse_result(content, d2),
{
    let ls = text::lines(content);
    lemma_parse_shape(content, d1);
    lemma_parse_shape(content, d2);
    lemma_lines_agree(ls, d1, d2);
}

/// Parse the full textual content of a product definition file.
///
/// Returns `Ok(ProductDefinition)` when the content is syntactically valid,
/// or `Err(Vec<String>)` containing one human-readable error message per
/// problem found (one per offending line, in order). All messages are
/// rendered in `lang`.
pub fn parse_content(content: &str, lang: &Lang) -> (r: Result<ProductDefinition, Vec<String>>)
    ensures
        match (r, parse_result(content@, lang::spec_dict(*lang))) {
            (Ok(p), Ok(m)) => p@ == m,
            (Err(es), Err(ms)) => es@.map_values(|e: String| e@) == ms,
            _ => false,
        },
        r matches Err(es) ==> es@.len() > 0,
{
    let d = lang.dict();
    let cs = chars_of(content);
    let n = cs.len();
    let end = if n > 0 && cs[n - 1] == '\n' {
        n - 1
    } else {
        n
    };
    let line_rs: Vec<(usize, usize)> = if n == 0 {
        Vec::new()
    } else {
        split_range(&cs, 0, end, '\n')
    };
    let ghost ls = text::range_texts(cs@, line_rs@);
    proof {
        if n == 0 {
            assert(ls =~= text::lines(content@));
        } else {
            if cs@[n - 1] == '\n' {
                assert(cs@.subrange(0, end as int) =~= content@.drop_last());
            } else {
                assert(cs@.subrange(0, end as int) =~= content@);
            }
        }
    }
    let mut errors: Vec<String> = Vec::new();
    let mut product: Option<ProductDefinition> = None;
    let mut costs: Vec<Cost> = Vec::new();
    let mut saw = false;
    let mut idx: usize = 0;
    assert(ls.take(0) =~= Seq::<Seq<char>>::empty());
    assert(scan_of(errors@, product, costs@, saw) =~= scan(ls.take(0), d));
    while idx < line_rs.len()
        invariant
            n == cs@.len(),
            idx <= line_rs@.len(),
            d == lang::spec_dict(*lang),
            text::ranges_within(line_rs@, 0, n as int),
            ls == text::range_texts(cs@, line_rs@),
            scan_of(errors@, product, costs@, saw) == scan(ls.take(idx as int), d),
        decreases line_rs@.len() - idx,
    {
        let ghost before = scan(ls.take(idx as int), d);
        let ghost raw = ls[idx as int];
        assert(ls.take(idx + 1).drop_last() =~= ls.take(idx as int));
        assert(ls.take(idx + 1).last() == raw);
        assert(raw == cs@.subrange(line_rs@[idx as int].0 as int, line_rs@[idx as int].1 as int));
        let (a, b) = trim_range(&cs, line_rs[idx].0, line_rs[idx].1);
        let ghost line = cs@.subrange(a as int, b as int);
        let lineno = u64_text((idx + 1) as u64);
        if a == b {
        } else if cs[a] == '+' {
            assert(line[0] == cs@[a as int]);
            if product.is_some() {
                errors.push(lang::fmt1(d.err_duplicate_product_line, lineno.as_str()));
                saw = true;
            } else {
                match product_line_in(&cs, a, b, &d) {
                    Ok(p) => {
                        product = Some(p);
                    },
                    Err(e) => {
                        errors.push(lang::fmt2(d.err_line_prefix, lineno.as_str(), e.as_str()));
                    },
                }
                saw = true;
            }
        } else if cs[a] == '-' {
            assert(line[0] == cs@[a as int]);
            match cost_line_in(&cs, a, b, &d) {
                Ok(c) => {
                    costs.push(c);
                },
                Err(e) => {
                    errors.push(lang::fmt2(d.err_line_prefix, lineno.as_str(), e.as_str()));
                },
            }
        } else {
            assert(line[0] == cs@[a as int]);
            errors.push(lang::fmt1(d.err_unexpected_line, lineno.as_str()));
        }
        assert(scan_of(errors@, product, costs@, saw) =~= scan_step(before, (idx + 1) as nat, raw, d));
        idx += 1;
    }
    assert(ls.take(line_rs@.len() as int) =~= ls);
    proof {
        lemma_scan_saw(ls, d);
    }
    if !saw {
        errors.push(String::from_str(d.err_missing_product_line));
    }
    assert(errors@.map_values(|e: String| e@) =~= (if scan(ls, d).saw_product_line {
        scan(ls, d).errors
    } else {
        scan(ls, d).errors.push(d.err_missing_product_line@)
    }));
    if errors.len() > 0 {
        return Err(errors);
    }
    match product {
        Some(p) => {
            let mut p = p;
            p.costs = costs;
            Ok(p)
        },
        None => Err(errors),
    }
}

} // verus!
