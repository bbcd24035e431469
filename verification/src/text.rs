//! Text helpers on `str` and `String`: equality, substring search,
//! lexicographic order, sorting and lookup in a list of names.
use vstd::prelude::*;
use vstd::string::*;

verus! {

/// The texts of a list of strings.
pub open spec fn texts(v: Seq<String>) -> Seq<Seq<char>> {
    v.map_values(|s: String| s@)
}

/// `needle` occurs in `hay` starting at position `at`.
pub open spec fn occurs_at(hay: Seq<char>, needle: Seq<char>, at: int) -> bool {
    &&& 0 <= at
    &&& at + needle.len() <= hay.len()
    &&& hay.subrange(at, at + needle.len()) == needle
}

/// `needle` occurs somewhere in `hay`.
pub open spec fn contains_text(hay: Seq<char>, needle: Seq<char>) -> bool {
    exists|at: int| occurs_at(hay, needle, at)
}

/// Lexicographic order on texts, comparing characters by code point.
pub open spec fn text_le(a: Seq<char>, b: Seq<char>) -> bool
    decreases a.len(),
{
    if a.len() == 0 {
        true
    } else if b.len() == 0 {
        false
    } else if a[0] != b[0] {
        (a[0] as u32) < (b[0] as u32)
    } else {
        text_le(a.drop_first(), b.drop_first())
    }
}

/// Every text in `s` is at most every later one.
pub open spec fn sorted_texts(s: Seq<Seq<char>>) -> bool {
    forall|i: int, j: int| 0 <= i < j < s.len() ==> text_le(#[trigger] s[i], #[trigger] s[j])
}

/// The order on texts is total.
pub proof fn lemma_text_le_total(a: Seq<char>, b: Seq<char>)
    ensures
        text_le(a, b) || text_le(b, a),
    decreases a.len(),
{
    if a.len() > 0 && b.len() > 0 {
        if a[0] == b[0] {
            lemma_text_le_total(a.drop_first(), b.drop_first());
        } else {
            let x = a[0] as u32;
            let y = b[0] as u32;
            vstd::utf8::char_u32_cast(a[0], x);
            vstd::utf8::char_u32_cast(b[0], y);
        }
    }
}

/// The order on texts is transitive.
pub proof fn lemma_text_le_transitive(a: Seq<char>, b: Seq<char>, c: Seq<char>)
    requires
        text_le(a, b),
        text_le(b, c),
    ensures
        text_le(a, c),
    decreases a.len(),
{
    if a.len() > 0 && a[0] == b[0] && b[0] == c[0] {
        lemma_text_le_transitive(a.drop_first(), b.drop_first(), c.drop_first());
    }
}

/// Where two texts first differ, the smaller character comes first.
pub proof fn lemma_text_le_first_difference(a: Seq<char>, b: Seq<char>, k: int)
    requires
        0 <= k < a.len(),
        k < b.len(),
        forall|j: int| 0 <= j < k ==> a[j] == b[j],
        a[k] != b[k],
    ensures
        text_le(a, b) == ((a[k] as u32) < (b[k] as u32)),
    decreases k,
{
    if k > 0 {
        lemma_text_le_first_difference(a.drop_first(), b.drop_first(), k - 1);
    }
}

/// A text comes no later than any text it begins, and a text strictly longer
/// than one of its beginnings comes after it.
pub proof fn lemma_text_le_prefix(a: Seq<char>, b: Seq<char>)
    requires
        a.len() <= b.len(),
        forall|j: int| 0 <= j < a.len() ==> a[j] == b[j],
    ensures
        text_le(a, b),
        a.len() < b.len() ==> !text_le(b, a),
    decreases a.len(),
{
    if a.len() > 0 {
        lemma_text_le_prefix(a.drop_first(), b.drop_first());
    }
}

/// Comparing from position `i` on decides the order when the texts agree before `i`.
proof fn lemma_text_le_skip(a: Seq<char>, b: Seq<char>, i: int)
    requires
        0 <= i <= a.len(),
        i <= b.len(),
        forall|j: int| 0 <= j < i ==> a[j] == b[j],
    ensures
        text_le(a, b) == text_le(a.skip(i), b.skip(i)),
    decreases i,
{
    if i > 0 {
        lemma_text_le_skip(a.drop_first(), b.drop_first(), i - 1);
        assert(a.drop_first().skip(i - 1) =~= a.skip(i));
        assert(b.drop_first().skip(i - 1) =~= b.skip(i));
    } else {
        assert(a.skip(0) =~= a);
        assert(b.skip(0) =~= b);
    }
}

/// The characters of `s`, in order.
pub fn chars_of(s: &str) -> (chars: Vec<char>)
    ensures
        chars@ == s@,
{
    let n = s.unicode_len();
    let mut chars: Vec<char> = Vec::new();
    let mut i: usize = 0;
    while i < n
        invariant
            n == s@.len(),
            i <= n,
            chars@ == s@.take(i as int),
        decreases n - i,
    {
        let c = s.get_char(i);
        chars.push(c);
        assert(chars@ =~= s@.take(i as int + 1));
        i = i + 1;
    }
    assert(s@.take(n as int) =~= s@);
    chars
}

/// Whether `a` and `b` hold the same text.
pub fn same_text(a: &str, b: &str) -> (same: bool)
    ensures
        same == (a@ == b@),
{
    let x = a.to_owned();
    let y = b.to_owned();
    x == y
}

/// Whether `needle` occurs in `hay` at position `at`.
fn matches_at(hay: &Vec<char>, needle: &Vec<char>, at: usize) -> (m: bool)
    requires
        at + needle.len() <= hay.len(),
    ensures
        m == occurs_at(hay@, needle@, at as int),
{
    let mut k: usize = 0;
    while k < needle.len()
        invariant
            k <= needle.len(),
            at + needle.len() <= hay.len(),
            forall|j: int| 0 <= j < k ==> hay@[at + j] == needle@[j],
        decreases needle.len() - k,
    {
        if hay[at + k] != needle[k] {
            assert(hay@.subrange(at as int, at + needle.len())[k as int] != needle@[k as int]);
            return false;
        }
        k = k + 1;
    }
    assert(hay@.subrange(at as int, at + needle.len()) =~= needle@);
    true
}

/// Whether `needle` occurs somewhere in `hay`.
pub fn text_contains(hay: &str, needle: &str) -> (found: bool)
    ensures
        found == contains_text(hay@, needle@),
{
    let h = chars_of(hay);
    let n = chars_of(needle);
    if n.len() > h.len() {
        assert forall|at: int| !occurs_at(hay@, needle@, at) by {}
        return false;
    }
    let last = h.len() - n.len();
    let mut at: usize = 0;
    loop
        invariant_except_break
            h@ == hay@,
            n@ == needle@,
            last == h.len() - n.len(),
            n.len() <= h.len(),
            at <= last,
            forall|j: int| 0 <= j < at ==> !#[trigger] occurs_at(hay@, needle@, j),
        ensures
            forall|j: int| 0 <= j <= last ==> !#[trigger] occurs_at(hay@, needle@, j),
        decreases last - at,
    {
        if matches_at(&h, &n, at) {
            return true;
        }
        if at == last {
            break;
        }
        at = at + 1;
    }
    assert forall|j: int| !#[trigger] occurs_at(hay@, needle@, j) by {
        if 0 <= j <= last {
        }
    }
    false
}

/// Whether `a` comes no later than `b` in lexicographic order.
pub fn text_le_exec(a: &str, b: &str) -> (le: bool)
    ensures
        le == text_le(a@, b@),
{
    let x = chars_of(a);
    let y = chars_of(b);
    let mut i: usize = 0;
    while i < x.len() && i < y.len() && x[i] == y[i]
        invariant
            x@ == a@,
            y@ == b@,
            i <= x.len(),
            i <= y.len(),
            forall|j: int| 0 <= j < i ==> x@[j] == y@[j],
        decreases x.len() - i,
    {
        i = i + 1;
    }
    proof {
        lemma_text_le_skip(a@, b@, i as int);
    }
    if i == x.len() {
        proof {
            assert(a@.skip(i as int).len() == 0);
        }
        true
    } else if i == y.len() {
        proof {
            assert(b@.skip(i as int).len() == 0);
        }
        false
    } else {
        proof {
            assert(a@.skip(i as int)[0] == x@[i as int]);
            assert(b@.skip(i as int)[0] == y@[i as int]);
        }
        (x[i] as u32) < (y[i] as u32)
    }
}

/// Where `name` first occurs in `list`, if anywhere.
pub fn position_of(list: &Vec<String>, name: &str) -> (pos: Option<usize>)
    ensures
        match pos {
            Some(k) => {
                &&& k < list.len()
                &&& list@[k as int]@ == name@
                &&& forall|j: int| 0 <= j < k ==> list@[j]@ != name@
            },
            None => forall|j: int| 0 <= j < list.len() ==> list@[j]@ != name@,
        },
{
    let mut k: usize = 0;
    while k < list.len()
        invariant
            k <= list.len(),
            forall|j: int| 0 <= j < k ==> list@[j]@ != name@,
        decreases list.len() - k,
    {
        if same_text(list[k].as_str(), name) {
            return Some(k);
        }
        k = k + 1;
    }
    None
}

/// Whether `name` is one of the texts in `list`.
pub fn text_listed(list: &Vec<String>, name: &str) -> (listed: bool)
    ensures
        listed == texts(list@).contains(name@),
{
    let pos = position_of(list, name);
    proof {
        match pos {
            Some(k) => {
                assert(texts(list@)[k as int] == name@);
            },
            None => {
                assert forall|j: int| 0 <= j < texts(list@).len() implies texts(list@)[j] != name@ by {
                    assert(texts(list@)[j] == list@[j]@);
                }
            },
        }
    }
    pos.is_some()
}

/// The first position in `sorted` whose text comes strictly after `x`.
fn insertion_point(sorted: &Vec<String>, x: &String) -> (pos: usize)
    ensures
        pos <= sorted.len(),
        forall|k: int| 0 <= k < pos ==> text_le(#[trigger] sorted@[k]@, x@),
        pos < sorted.len() ==> !text_le(sorted@[pos as int]@, x@),
{
    let mut pos: usize = 0;
    while pos < sorted.len() && text_le_exec(sorted[pos].as_str(), x.as_str())
        invariant
            pos <= sorted.len(),
            forall|k: int| 0 <= k < pos ==> text_le(#[trigger] sorted@[k]@, x@),
        decreases sorted.len() - pos,
    {
        pos = pos + 1;
    }
    pos
}

/// The strings of `v`, ordered lexicographically.
pub fn sort_texts(v: Vec<String>) -> (sorted: Vec<String>)
    ensures
        sorted@.to_multiset() == v@.to_multiset(),
        sorted_texts(texts(sorted@)),
{
    broadcast use vstd::seq_lib::group_to_multiset_ensures;

    let mut out: Vec<String> = Vec::new();
    let mut rest = v;
    let ghost original = rest@;
    proof {
        assert(original.take(0).to_multiset() =~= out@.to_multiset());
    }
    while rest.len() > 0
        invariant
            out@.len() + rest@.len() == original.len(),
            rest@ == original.skip(original.len() - rest@.len()),
            out@.to_multiset() == original.take(original.len() - rest@.len()).to_multiset(),
            sorted_texts(texts(out@)),
        decreases rest.len(),
    {
        let ghost before = out@;
        let ghost done = original.len() - rest@.len();
        let x = rest.remove(0);
        proof {
            assert(x == original[done]);
            assert(rest@ =~= original.skip(original.len() - rest@.len()));
        }
        let pos = insertion_point(&out, &x);
        proof {
            if pos < out.len() {
                lemma_text_le_total(out@[pos as int]@, x@);
            }
            assert(forall|k: int| 0 <= k < pos ==> text_le(#[trigger] before[k]@, x@));
        }
        out.insert(pos, x);
        proof {
            let t = texts(out@);
            let tb = texts(before);
            assert forall|i: int, j: int| 0 <= i < j < t.len() implies text_le(
                #[trigger] t[i],
                #[trigger] t[j],
            ) by {
                assert(t[i] == out@[i]@);
                assert(t[j] == out@[j]@);
                if j < pos {
                    assert(tb[i] == before[i]@ && tb[j] == before[j]@);
                } else if j == pos {
                    assert(out@[i] == before[i]);
                } else if i < pos {
                    assert(tb[j - 1] == before[j - 1]@);
                    assert(out@[i] == before[i]);
                    assert(out@[j] == before[j - 1]);
                    assert(text_le(before[pos as int]@, before[j - 1]@)) by {
                        if pos < j - 1 {
                            assert(tb[pos as int] == before[pos as int]@);
                        } else {
                            lemma_text_le_total(before[pos as int]@, before[pos as int]@);
                        }
                    }
                    lemma_text_le_transitive(x@, before[pos as int]@, before[j - 1]@);
                    lemma_text_le_transitive(out@[i]@, x@, out@[j]@);
                } else if i == pos {
                    assert(tb[j - 1] == before[j - 1]@);
                    assert(out@[j] == before[j - 1]);
                    assert(text_le(before[pos as int]@, before[j - 1]@)) by {
                        if pos < j - 1 {
                            assert(tb[pos as int] == before[pos as int]@);
                        } else {
                            lemma_text_le_total(before[pos as int]@, before[pos as int]@);
                        }
                    }
                    lemma_text_le_transitive(x@, before[pos as int]@, before[j - 1]@);
                } else {
                    assert(tb[i - 1] == before[i - 1]@ && tb[j - 1] == before[j - 1]@);
                    assert(out@[i] == before[i - 1] && out@[j] == before[j - 1]);
                }
            }
            assert(out@.remove(pos as int) =~= before);
            assert(out@.to_multiset() =~= before.to_multiset().insert(x)) by {
                out@.to_multiset_ensures();
                assert(out@.remove(pos as int).to_multiset() =~= out@.to_multiset().remove(
                    out@[pos as int],
                ));
                assert(out@.contains(x)) by {
                    assert(out@[pos as int] == x);
                }
                assert(out@.to_multiset().count(x) > 0);
            }
            assert(original.take(done + 1) =~= original.take(done).push(x));
            original.take(done).to_multiset_ensures();
            assert(original.take(done).push(x).to_multiset() =~= original.take(
                done,
            ).to_multiset().insert(x));
        }
    }
    proof {
        assert(original.take(original.len() as int) =~= original);
    }
    out
}

} // verus!
