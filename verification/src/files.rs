//! Names of the files in a business folder: which are product definitions,
//! and where the result, totals and state files go.
use vstd::prelude::*;
use crate::state_file::STATE_FILE_NAME;
use crate::text::{chars_of, push_char, push_str, string_of};

verus! {

broadcast use vstd::string::group_string_axioms;

/// `s` ends with `t`.
pub open spec fn ends_with(s: Seq<char>, t: Seq<char>) -> bool {
    t.len() <= s.len() && s.skip(s.len() - t.len()) == t
}

/// Whether `cs` ends with `t`.
fn ends_with_str(cs: &Vec<char>, t: &str) -> (r: bool)
    ensures
        r == ends_with(cs@, t@),
{
    let tc = chars_of(t);
    if tc.len() > cs.len() {
        return false;
    }
    let len = cs.len();
    let off = len - tc.len();
    let mut i: usize = 0;
    while i < tc.len()
        invariant
            len == cs@.len(),
            tc@ == t@,
            off + tc@.len() == cs@.len(),
            i <= tc@.len(),
            forall|j: int| 0 <= j < i ==> cs@[off + j] == tc@[j],
        decreases tc@.len() - i,
    {
        if cs[off + i] != tc[i] {
            assert(cs@.skip(off as int)[i as int] != t@[i as int]);
            return false;
        }
        i = i + 1;
    }
    assert(cs@.skip(off as int) =~= t@);
    true
}

/// A product definition file: a `.txt` file that is neither a result file
/// (`*.simulation_results.txt`) nor the state file.
pub open spec fn product_file_name(name: Seq<char>) -> bool {
    &&& ends_with(name, ".txt"@)
    &&& !ends_with(name, ".simulation_results.txt"@)
    &&& name != STATE_FILE_NAME@
}

/// Whether the file named `name` is a product definition.
pub fn is_product_file(name: &str) -> (b: bool)
    ensures
        b == product_file_name(name@),
{
    let cs = chars_of(name);
    let st = chars_of(STATE_FILE_NAME);
    let same = if cs.len() == st.len() {
        let mut i: usize = 0;
        let mut eq = true;
        while i < cs.len()
            invariant
                cs@ == name@,
                st@ == STATE_FILE_NAME@,
                cs@.len() == st@.len(),
                i <= cs@.len(),
                eq == (forall|j: int| 0 <= j < i ==> cs@[j] == st@[j]),
            decreases cs@.len() - i,
        {
            if cs[i] != st[i] {
                eq = false;
            }
            i = i + 1;
        }
        if eq {
            assert(cs@ =~= st@);
        }
        eq
    } else {
        false
    };
    ends_with_str(&cs, ".txt") && !ends_with_str(&cs, ".simulation_results.txt") && !same
}

/// Position just after the last `/` of `p` (0 when there is none).
pub open spec fn name_start(p: Seq<char>, k: int) -> int
    decreases k,
{
    if k <= 0 {
        0
    } else if p[k - 1] == '/' {
        k
    } else {
        name_start(p, k - 1)
    }
}

/// Position of the last `.` of `name` below `k`, if any.
pub open spec fn last_dot(name: Seq<char>, k: int) -> Option<int>
    decreases k,
{
    if k <= 0 {
        None
    } else if name[k - 1] == '.' {
        Some(k - 1)
    } else {
        last_dot(name, k - 1)
    }
}

/// The stem of a file name: before its last `.`, unless that `.` starts the
/// name (a hidden file has no extension).
pub open spec fn stem(name: Seq<char>) -> Seq<char> {
    match last_dot(name, name.len() as int) {
        Some(j) => if j > 0 { name.take(j) } else { name },
        None => name,
    }
}

/// `p` without the trailing separators and `.` parts, which name nothing:
/// `a/b/`, `a/b//` and `a/b/.` all end in the part `b`.
pub open spec fn trimmed_path(p: Seq<char>) -> Seq<char>
    decreases p.len(),
{
    if p.len() > 0 && p.last() == '/' {
        trimmed_path(p.drop_last())
    } else if p.len() >= 2 && p.last() == '.' && p[p.len() - 2] == '/' {
        trimmed_path(p.drop_last())
    } else {
        p
    }
}

/// The last part of `p` that names a file: none when `p` is empty, is the
/// root, or ends in `.` or `..`.
pub open spec fn file_part(p: Seq<char>) -> Option<(int, Seq<char>)> {
    let r = trimmed_path(p);
    let k = name_start(r, r.len() as int);
    let name = r.skip(k);
    if name.len() == 0 || name == "."@ || name == ".."@ {
        None
    } else {
        Some((k, name))
    }
}

/// The result file of product file `p`: the same folder and stem, with the
/// extension `simulation_results.txt` (trailing separators dropped); a path
/// that names no file is kept as it is.
pub open spec fn result_path(p: Seq<char>) -> Seq<char> {
    match file_part(p) {
        Some((k, name)) => trimmed_path(p).take(k) + stem(name) + ".simulation_results.txt"@,
        None => p,
    }
}

proof fn lemma_name_start(p: Seq<char>, k: int)
    requires
        0 <= k <= p.len(),
    ensures
        0 <= name_start(p, k) <= k,
    decreases k,
{
    if k > 0 && p[k - 1] != '/' {
        lemma_name_start(p, k - 1);
    }
}

proof fn lemma_last_dot(name: Seq<char>, k: int)
    requires
        0 <= k <= name.len(),
    ensures
        last_dot(name, k) matches Some(j) ==> 0 <= j < k,
    decreases k,
{
    if k > 0 && name[k - 1] != '.' {
        lemma_last_dot(name, k - 1);
    }
}

/// `foo.txt` gives `foo.simulation_results.txt`, beside the product file.
pub fn result_file_path(file_path: &str) -> (r: String)
    ensures
        r@ == result_path(file_path@),
{
    let cs = chars_of(file_path);
    let n = cs.len();
    let mut e = n;
    assert(cs@.take(n as int) =~= cs@);
    while e > 0 && (cs[e - 1] == '/' || (e >= 2 && cs[e - 1] == '.' && cs[e - 2] == '/'))
        invariant
            cs@ == file_path@,
            e <= n == cs@.len(),
            trimmed_path(cs@) == trimmed_path(cs@.take(e as int)),
        decreases e,
    {
        assert(cs@.take(e as int).drop_last() =~= cs@.take(e - 1));
        e = e - 1;
    }
    let ghost r = cs@.take(e as int);
    assert(trimmed_path(r) == r);
    let mut k = e;
    while k > 0 && cs[k - 1] != '/'
        invariant
            cs@ == file_path@,
            k <= e <= n == cs@.len(),
            r == cs@.take(e as int),
            name_start(r, e as int) == name_start(r, k as int),
        decreases k,
    {
        assert(r[k - 1] == cs@[k - 1]);
        k = k - 1;
    }
    if k > 0 {
        assert(r[k - 1] == cs@[k - 1]);
    }
    proof {
        lemma_name_start(r, e as int);
    }
    let ghost name = r.skip(k as int);
    assert(name =~= cs@.subrange(k as int, e as int));
    proof {
        reveal_strlit(".");
        reveal_strlit("..");
    }
    if e == k || (e - k == 1 && cs[k] == '.') || (e - k == 2 && cs[k] == '.' && cs[k + 1] == '.') {
        proof {
            if e - k == 1 && cs@[k as int] == '.' {
                assert(name =~= "."@);
            }
            if e - k == 2 && cs@[k as int] == '.' && cs@[k + 1] == '.' {
                assert(name =~= ".."@);
            }
        }
        let out = string_of(&cs, 0, n);
        assert(out@ =~= file_path@);
        return out;
    }
    proof {
        if name == "."@ {
            assert(name.len() == 1 && name[0] == '.');
        }
        if name == ".."@ {
            assert(name.len() == 2 && name[0] == '.' && name[1] == '.');
        }
    }
    let mut j = e;
    while j > k && cs[j - 1] != '.'
        invariant
            cs@ == file_path@,
            k <= j <= e <= n == cs@.len(),
            name == cs@.subrange(k as int, e as int),
            last_dot(name, name.len() as int) == last_dot(name, j - k),
        decreases j,
    {
        assert(name[j - k - 1] == cs@[j - 1]);
        j = j - 1;
    }
    if j > k {
        assert(name[j - k - 1] == cs@[j - 1]);
    }
    let end = if j > k + 1 { j - 1 } else { e };
    let mut out = string_of(&cs, 0, end);
    push_str(&mut out, ".simulation_results.txt");
    proof {
        if j > k + 1 {
            assert(stem(name) =~= cs@.subrange(k as int, end as int));
        } else {
            assert(stem(name) =~= name);
        }
        assert(cs@.subrange(0, end as int) =~= r.take(k as int) + stem(name));
    }
    out
}

/// `folder` joined with the file name `name`: a `/` is put between them
/// unless `folder` is empty or already ends in one.
pub open spec fn joined(folder: Seq<char>, name: Seq<char>) -> Seq<char> {
    if folder.len() == 0 {
        name
    } else if folder.last() == '/' {
        folder + name
    } else {
        folder + seq!['/'] + name
    }
}

/// `folder` joined with `name`.
fn join(folder: &str, name: &str) -> (r: String)
    ensures
        r@ == joined(folder@, name@),
{
    let cs = chars_of(folder);
    let mut out = String::new();
    push_str(&mut out, folder);
    if cs.len() > 0 && cs[cs.len() - 1] != '/' {
        push_char(&mut out, '/');
    }
    push_str(&mut out, name);
    out
}

/// The aggregate totals file of a folder: `totals.simulation_results.txt`
/// (a result file, so never read as a product).
pub fn totals_file_path(folder: &str) -> (r: String)
    ensures
        r@ == joined(folder@, "totals.simulation_results.txt"@),
{
    join(folder, "totals.simulation_results.txt")
}

/// The state file of a folder.
pub fn state_file_path(folder: &str) -> (r: String)
    ensures
        r@ == joined(folder@, STATE_FILE_NAME@),
{
    join(folder, STATE_FILE_NAME)
}

// ---------------------------------------------------------------------------
// The product files of a folder, in name order
// ---------------------------------------------------------------------------

/// `a` sorts before `b` by characters (the order of the names of one folder's
/// paths): at the first place where they differ the smaller character, or
/// `a` is a proper prefix of `b`.
pub open spec fn name_lt(a: Seq<char>, b: Seq<char>) -> bool
    decreases a.len(),
{
    if a.len() == 0 {
        b.len() > 0
    } else if b.len() == 0 {
        false
    } else if a[0] != b[0] {
        (a[0] as int) < (b[0] as int)
    } else {
        name_lt(a.drop_first(), b.drop_first())
    }
}

/// `a` sorts before `b` or is `b`.
pub open spec fn name_le(a: Seq<char>, b: Seq<char>) -> bool {
    name_lt(a, b) || a == b
}

/// The names are in ascending order.
pub open spec fn names_sorted(s: Seq<Seq<char>>) -> bool {
    forall|i: int, j: int| 0 <= i < j < s.len() ==> name_le(#[trigger] s[i], #[trigger] s[j])
}

/// The product definition files among `names`, in their order.
pub open spec fn product_names(names: Seq<Seq<char>>) -> Seq<Seq<char>>
    decreases names.len(),
{
    if names.len() == 0 {
        Seq::empty()
    } else {
        let p = product_names(names.drop_last());
        if product_file_name(names.last()) { p.push(names.last()) } else { p }
    }
}

/// The characters of each name.
pub open spec fn name_views(v: Seq<String>) -> Seq<Seq<char>> {
    v.map_values(|s: String| s@)
}

/// Of two different names, one sorts before the other.
pub proof fn lemma_name_lt_total(a: Seq<char>, b: Seq<char>)
    ensures
        name_lt(a, b) || name_lt(b, a) || a == b,
        !(name_lt(a, b) && name_lt(b, a)),
    decreases a.len(),
{
    if a.len() > 0 && b.len() > 0 && a[0] == b[0] {
        lemma_name_lt_total(a.drop_first(), b.drop_first());
        if a.drop_first() == b.drop_first() {
            assert(a =~= seq![a[0]] + a.drop_first());
            assert(b =~= seq![b[0]] + b.drop_first());
        }
    } else if a.len() == 0 && b.len() == 0 {
        assert(a =~= b);
    } else if a.len() > 0 && b.len() > 0 {
        assert((a[0] as int) != (b[0] as int));
    }
}

/// The name order is transitive.
pub proof fn lemma_name_lt_trans(a: Seq<char>, b: Seq<char>, c: Seq<char>)
    requires
        name_lt(a, b),
        name_lt(b, c),
    ensures
        name_lt(a, c),
    decreases a.len(),
{
    if a.len() > 0 && b.len() > 0 && c.len() > 0 && a[0] == b[0] && b[0] == c[0] {
        lemma_name_lt_trans(a.drop_first(), b.drop_first(), c.drop_first());
    }
}

/// Inserting a name into a sequence adds it to the multiset of names.
proof fn lemma_insert_multiset(s: Seq<Seq<char>>, k: int, x: Seq<char>)
    requires
        0 <= k <= s.len(),
    ensures
        s.insert(k, x).to_multiset() == s.to_multiset().insert(x),
{
    broadcast use vstd::multiset::group_multiset_axioms;
    let t = s.insert(k, x);
    assert(t.remove(k) =~= s);
    vstd::seq_lib::to_multiset_remove(t, k);
    vstd::seq_lib::to_multiset_contains(t, x);
    assert(t.to_multiset() =~= s.to_multiset().insert(x));
}

/// `a` sorts before `b` ([`name_lt`]).
fn name_less(a: &Vec<char>, b: &Vec<char>) -> (r: bool)
    ensures
        r == name_lt(a@, b@),
{
    let mut i: usize = 0;
    assert(a@.skip(0) =~= a@);
    assert(b@.skip(0) =~= b@);
    while i < a.len() && i < b.len()
        invariant
            i <= a@.len(),
            i <= b@.len(),
            name_lt(a@, b@) == name_lt(a@.skip(i as int), b@.skip(i as int)),
        decreases a@.len() - i,
    {
        let ghost sa = a@.skip(i as int);
        let ghost sb = b@.skip(i as int);
        assert(sa[0] == a@[i as int]);
        assert(sb[0] == b@[i as int]);
        if a[i] != b[i] {
            return a[i] < b[i];
        }
        assert(sa.drop_first() =~= a@.skip(i + 1));
        assert(sb.drop_first() =~= b@.skip(i + 1));
        i = i + 1;
    }
    a.len() == i && b.len() > i
}

/// Where `x` goes among the sorted `keys`: after every key it does not sort
/// before, in front of the first one it does.
fn insert_position(keys: &Vec<Vec<char>>, x: &Vec<char>) -> (k: usize)
    ensures
        k <= keys@.len(),
        forall|j: int| 0 <= j < k ==> !name_lt(x@, #[trigger] keys@[j]@),
        k < keys@.len() ==> name_lt(x@, keys@[k as int]@),
{
    let mut k: usize = 0;
    while k < keys.len()
        invariant
            k <= keys@.len(),
            forall|j: int| 0 <= j < k ==> !name_lt(x@, #[trigger] keys@[j]@),
        decreases keys@.len() - k,
    {
        if name_less(x, &keys[k]) {
            return k;
        }
        k = k + 1;
    }
    k
}

/// The product definition files among the names of a folder's regular
/// files, sorted by name.
pub fn product_file_names(names: &Vec<String>) -> (out: Vec<String>)
    ensures
        names_sorted(name_views(out@)),
        name_views(out@).to_multiset() == product_names(name_views(names@)).to_multiset(),
{
    broadcast use vstd::seq_lib::group_to_multiset_ensures;
    let mut out: Vec<String> = Vec::new();
    let mut keys: Vec<Vec<char>> = Vec::new();
    let ghost all = name_views(names@);
    let mut i: usize = 0;
    assert(all.take(0) =~= Seq::<Seq<char>>::empty());
    assert(name_views(out@) =~= Seq::<Seq<char>>::empty());
    while i < names.len()
        invariant
            i <= names@.len(),
            all == name_views(names@),
            keys@.len() == out@.len(),
            forall|j: int| 0 <= j < keys@.len() ==> #[trigger] keys@[j]@ == out@[j]@,
            names_sorted(name_views(out@)),
            name_views(out@).to_multiset() == product_names(all.take(i as int)).to_multiset(),
        decreases names@.len() - i,
    {
        let ghost before = name_views(out@);
        let ghost keys0 = keys@;
        assert(all.take(i + 1).drop_last() =~= all.take(i as int));
        assert(all.take(i + 1).last() == names@[i as int]@);
        if is_product_file(names[i].as_str()) {
            let cs = chars_of(names[i].as_str());
            let k = insert_position(&keys, &cs);
            let ghost x = cs@;
            let name = string_of(&cs, 0, cs.len());
            assert(name@ =~= x);
            out.insert(k, name);
            keys.insert(k, cs);
            proof {
                assert(name_views(out@) =~= before.insert(k as int, x));
                assert forall|j: int| 0 <= j < keys@.len() implies #[trigger] keys@[j]@ == out@[j]@ by {
                    if j < k {
                        assert(keys@[j] == keys0[j]);
                    } else if j > k {
                        assert(keys@[j] == keys0[j - 1]);
                    }
                }
                lemma_insert_multiset(before, k as int, x);
                let pn = product_names(all.take(i as int));
                assert(x == all[i as int]);
                assert(product_names(all.take(i + 1)) == pn.push(x));
                vstd::seq_lib::to_multiset_build(pn, x);
                let t = name_views(out@);
                assert forall|a: int, b: int| 0 <= a < b < t.len() implies name_le(#[trigger] t[a], #[trigger] t[b]) by {
                    if b < k {
                        assert(t[a] == before[a]);
                        assert(t[b] == before[b]);
                    } else if a < k && b == k {
                        assert(before[a] == keys@[a]@);
                        lemma_name_lt_total(x, before[a]);
                    } else if a < k && b > k {
                        assert(t[a] == before[a]);
                        assert(t[b] == before[b - 1]);
                    } else if a == k {
                        assert(before[k as int] == keys0[k as int]@);
                        if b - 1 > k {
                            assert(name_le(before[k as int], before[b - 1]));
                            if name_lt(before[k as int], before[b - 1]) {
                                lemma_name_lt_trans(x, before[k as int], before[b - 1]);
                            }
                        }
                    } else {
                        assert(t[a] == before[a - 1]);
                        assert(t[b] == before[b - 1]);
                    }
                }
            }
        } else {
            assert(!product_file_name(all[i as int]));
            assert(product_names(all.take(i + 1)) == product_names(all.take(i as int)));
        }
        i = i + 1;
    }
    assert(all.take(names@.len() as int) =~= all);
    out
}

} // verus!
