//! Character-level text helpers: whitespace trimming, equality and joining.

use vstd::prelude::*;

verus! {

/// Whether `c` has the Unicode `White_Space` property: tab through carriage
/// return, space, next line, no-break space, ogham space mark, the spaces from
/// en quad through hair space, the line and paragraph separators, narrow
/// no-break space, medium mathematical space and ideographic space.
pub open spec fn white_space(c: char) -> bool {
    let u = c as u32;
    ||| 0x09 <= u <= 0x0d
    ||| u == 0x20
    ||| u == 0x85
    ||| u == 0xa0
    ||| u == 0x1680
    ||| 0x2000 <= u <= 0x200a
    ||| u == 0x2028
    ||| u == 0x2029
    ||| u == 0x202f
    ||| u == 0x205f
    ||| u == 0x3000
}

/// Whether `c` is whitespace, as `char::is_whitespace` decides it.
pub fn is_white_space(c: char) -> (b: bool)
    ensures
        b == white_space(c),
{
    let u = c as u32;
    (0x09 <= u && u <= 0x0d) || u == 0x20 || u == 0x85 || u == 0xa0 || u == 0x1680 || (0x2000
        <= u && u <= 0x200a) || u == 0x2028 || u == 0x2029 || u == 0x202f || u == 0x205f || u
        == 0x3000
}

/// `s[i..j]` is what is left of `s` once leading and trailing whitespace are cut.
pub open spec fn trim_bounds(s: Seq<char>, i: int, j: int) -> bool {
    &&& 0 <= i <= j <= s.len()
    &&& forall|k: int| 0 <= k < i ==> white_space(#[trigger] s[k])
    &&& forall|k: int| j <= k < s.len() ==> white_space(#[trigger] s[k])
    &&& i < j ==> !white_space(s[i]) && !white_space(s[j - 1])
}

/// `s` without its leading and trailing whitespace.
pub open spec fn trimmed(s: Seq<char>) -> Seq<char> {
    let (i, j) = choose|i: int, j: int| trim_bounds(s, i, j);
    s.subrange(i, j)
}

/// Whether every character of `s` is whitespace.
pub open spec fn is_blank(s: Seq<char>) -> bool {
    forall|k: int| 0 <= k < s.len() ==> white_space(#[trigger] s[k])
}

/// Any two ways of cutting the whitespace off `s` leave the same text.
pub proof fn lemma_trim_bounds_unique(s: Seq<char>, i: int, j: int, i2: int, j2: int)
    requires
        trim_bounds(s, i, j),
        trim_bounds(s, i2, j2),
    ensures
        s.subrange(i, j) == s.subrange(i2, j2),
{
    if i < j && i2 < j2 {
        if i < i2 {
            assert(white_space(s[i]));
        }
        if i2 < i {
            assert(white_space(s[i2]));
        }
        if j < j2 {
            assert(white_space(s[j2 - 1]));
        }
        if j2 < j {
            assert(white_space(s[j - 1]));
        }
    } else if i < j {
        // the second cut leaves nothing, so `s[i]` would be whitespace
        assert(white_space(s[i]));
    } else if i2 < j2 {
        assert(white_space(s[i2]));
    } else {
        assert(s.subrange(i, j) =~= s.subrange(i2, j2));
    }
}

/// The trimmed text is the one that any valid pair of bounds cuts out.
pub proof fn lemma_trimmed(s: Seq<char>, i: int, j: int)
    requires
        trim_bounds(s, i, j),
    ensures
        trimmed(s) == s.subrange(i, j),
{
    let (i2, j2) = choose|i2: int, j2: int| trim_bounds(s, i2, j2);
    lemma_trim_bounds_unique(s, i, j, i2, j2);
}

/// Walks from position `k` past leading whitespace.
proof fn lemma_leading_end(s: Seq<char>, k: int) -> (i: int)
    requires
        0 <= k <= s.len(),
        forall|m: int| 0 <= m < k ==> white_space(#[trigger] s[m]),
    ensures
        k <= i <= s.len(),
        forall|m: int| 0 <= m < i ==> white_space(#[trigger] s[m]),
        i < s.len() ==> !white_space(s[i]),
    decreases s.len() - k,
{
    if k == s.len() || !white_space(s[k]) {
        k
    } else {
        lemma_leading_end(s, k + 1)
    }
}

/// Walks back from position `k` past trailing whitespace, stopping at `i`.
proof fn lemma_trailing_start(s: Seq<char>, i: int, k: int) -> (j: int)
    requires
        0 <= i <= k <= s.len(),
        forall|m: int| k <= m < s.len() ==> white_space(#[trigger] s[m]),
    ensures
        i <= j <= k,
        forall|m: int| j <= m < s.len() ==> white_space(#[trigger] s[m]),
        i < j ==> !white_space(s[j - 1]),
    decreases k - i,
{
    if k == i || !white_space(s[k - 1]) {
        k
    } else {
        lemma_trailing_start(s, i, k - 1)
    }
}

/// Every text has a valid pair of trim bounds.
pub proof fn lemma_trim_bounds_exist(s: Seq<char>) -> (b: (int, int))
    ensures
        trim_bounds(s, b.0, b.1),
{
    let i = lemma_leading_end(s, 0);
    let j = lemma_trailing_start(s, i, s.len() as int);
    (i, j)
}

/// Trimming leaves nothing exactly when the text is all whitespace.
pub proof fn lemma_trimmed_empty_iff_blank(s: Seq<char>)
    ensures
        trimmed(s).len() == 0 <==> is_blank(s),
{
    let (i, j) = lemma_trim_bounds_exist(s);
    lemma_trimmed(s, i, j);
    if !is_blank(s) {
        let k = choose|k: int| 0 <= k < s.len() && !white_space(#[trigger] s[k]);
        if i == j {
            // every character lies before `i` or from `j` on, so all are whitespace
            assert(white_space(s[k]));
        }
    }
}

/// Copies the characters of `s` into a vector.
pub fn chars_of(s: &str) -> (v: Vec<char>)
    ensures
        v@ == s@,
{
    broadcast use vstd::string::group_string_axioms;
    let mut v: Vec<char> = Vec::new();
    for c in it: s.chars()
        invariant
            it.seq() == s@,
            v@ == it.seq().take(it.index()),
    {
        v.push(c);
    }
    v
}

/// `s` with leading and trailing whitespace removed, as `str::trim` gives it.
pub fn trim(s: &str) -> (r: &str)
    ensures
        r@ == trimmed(s@),
{
    let v = chars_of(s);
    let n = v.len();
    let mut i: usize = 0;
    while i < n && is_white_space(v[i])
        invariant
            v@ == s@,
            n == v@.len(),
            i <= n,
            forall|m: int| 0 <= m < i ==> white_space(#[trigger] v@[m]),
        decreases n - i,
    {
        i = i + 1;
    }
    let mut j: usize = n;
    while j > i && is_white_space(v[j - 1])
        invariant
            v@ == s@,
            n == v@.len(),
            i <= j <= n,
            forall|m: int| j <= m < n ==> white_space(#[trigger] v@[m]),
        decreases j - i,
    {
        j = j - 1;
    }
    proof {
        assert(trim_bounds(s@, i as int, j as int));
        lemma_trimmed(s@, i as int, j as int);
    }
    s.substring_char(i, j)
}

/// Whether `a` and `b` hold the same characters.
pub fn str_eq(a: &str, b: &str) -> (r: bool)
    ensures
        r == (a@ == b@),
{
    let va = chars_of(a);
    let vb = chars_of(b);
    if va.len() != vb.len() {
        return false;
    }
    let mut i: usize = 0;
    while i < va.len()
        invariant
            va@ == a@,
            vb@ == b@,
            va@.len() == vb@.len(),
            i <= va@.len(),
            forall|m: int| 0 <= m < i ==> va@[m] == vb@[m],
        decreases va@.len() - i,
    {
        if va[i] != vb[i] {
            return false;
        }
        i = i + 1;
    }
    assert(a@ =~= b@);
    true
}

/// The texts of `list` laid end to end with `sep` between neighbours.
pub open spec fn joined(list: Seq<Seq<char>>, sep: Seq<char>) -> Seq<char>
    decreases list.len(),
{
    if list.len() == 0 {
        Seq::empty()
    } else if list.len() == 1 {
        list[0]
    } else {
        joined(list.drop_last(), sep) + sep + list.last()
    }
}

/// The character views of a list of strings.
pub open spec fn views(list: Seq<String>) -> Seq<Seq<char>> {
    list.map_values(|s: String| s@)
}

/// Joins `list` with `sep` between neighbours, as `[String]::join` does.
pub fn join(list: &Vec<String>, sep: &str) -> (r: String)
    ensures
        r@ == joined(views(list@), sep@),
{
    let mut r = String::new();
    let ghost vs = views(list@);
    let mut i: usize = 0;
    while i < list.len()
        invariant
            vs == views(list@),
            vs.len() == list@.len(),
            i <= list@.len(),
            r@ == joined(vs.take(i as int), sep@),
        decreases list@.len() - i,
    {
        assert(vs.take(i + 1).drop_last() =~= vs.take(i as int));
        if i != 0 {
            r.append(sep);
        }
        r.append(list[i].as_str());
        i = i + 1;
    }
    assert(vs.take(list@.len() as int) =~= vs);
    r
}

} // verus!
