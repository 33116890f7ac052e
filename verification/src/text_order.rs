//! Byte order of texts (the order of their UTF-8 encodings, which is the
//! order of their code points), and the sorted distinct list of a set of
//! texts.
use vstd::prelude::*;

verus! {

/// `a` comes strictly before `b` in lexicographic code point order.
pub open spec fn text_lt(a: Seq<char>, b: Seq<char>) -> bool
    decreases a.len(),
{
    if a.len() == 0 {
        b.len() > 0
    } else if b.len() == 0 {
        false
    } else if a[0] != b[0] {
        a[0] < b[0]
    } else {
        text_lt(a.drop_first(), b.drop_first())
    }
}

pub proof fn lemma_text_lt_irreflexive(a: Seq<char>)
    ensures
        !text_lt(a, a),
    decreases a.len(),
{
    if a.len() > 0 {
        lemma_text_lt_irreflexive(a.drop_first());
    }
}

pub proof fn lemma_text_lt_asymmetric(a: Seq<char>, b: Seq<char>)
    requires
        text_lt(a, b),
    ensures
        !text_lt(b, a),
    decreases a.len(),
{
    if a.len() > 0 && b.len() > 0 && a[0] == b[0] {
        lemma_text_lt_asymmetric(a.drop_first(), b.drop_first());
    }
}

pub proof fn lemma_text_lt_transitive(a: Seq<char>, b: Seq<char>, c: Seq<char>)
    requires
        text_lt(a, b),
        text_lt(b, c),
    ensures
        text_lt(a, c),
    decreases a.len(),
{
    if a.len() > 0 && b.len() > 0 && c.len() > 0 && a[0] == b[0] && b[0] == c[0] {
        lemma_text_lt_transitive(a.drop_first(), b.drop_first(), c.drop_first());
    }
}

pub proof fn lemma_text_lt_total(a: Seq<char>, b: Seq<char>)
    requires
        a != b,
    ensures
        text_lt(a, b) || text_lt(b, a),
    decreases a.len(),
{
    if a.len() == 0 && b.len() == 0 {
        assert(a =~= b);
    } else if a.len() > 0 && b.len() > 0 && a[0] == b[0] {
        if a.drop_first() =~= b.drop_first() {
            assert(a =~= seq![a[0]] + a.drop_first());
            assert(b =~= seq![b[0]] + b.drop_first());
            assert(false);
        } else {
            lemma_text_lt_total(a.drop_first(), b.drop_first());
        }
    }
}

/// Each text comes strictly before every later one.
pub open spec fn strictly_ascending(r: Seq<Seq<char>>) -> bool {
    forall|i: int, j: int| 0 <= i < j < r.len() ==> text_lt(#[trigger] r[i], #[trigger] r[j])
}

/// Both lists hold the same texts.
pub open spec fn same_elements(a: Seq<Seq<char>>, b: Seq<Seq<char>>) -> bool {
    forall|x: Seq<char>| a.contains(x) <==> b.contains(x)
}

/// The distinct texts of a list in ascending order.
pub open spec fn sorted_distinct(ids: Seq<Seq<char>>) -> Seq<Seq<char>> {
    choose|r: Seq<Seq<char>>| strictly_ascending(r) && same_elements(r, ids)
}

/// At most one ascending list holds a given set of texts.
pub proof fn lemma_ascending_unique(a: Seq<Seq<char>>, b: Seq<Seq<char>>)
    requires
        strictly_ascending(a),
        strictly_ascending(b),
        same_elements(a, b),
    ensures
        a == b,
    decreases a.len(),
{
    if a.len() == 0 {
        if b.len() > 0 {
            assert(b.contains(b[0]));
        }
        assert(a =~= b);
    } else {
        assert(a.contains(a[0]));
        assert(b.len() > 0);
        assert(b.contains(b[0]));
        if a[0] != b[0] {
            let k = choose|k: int| 0 <= k < a.len() && a[k] == b[0];
            let m = choose|m: int| 0 <= m < b.len() && b[m] == a[0];
            assert(k > 0);
            assert(m > 0);
            assert(text_lt(a[0], a[k]));
            assert(text_lt(b[0], b[m]));
            lemma_text_lt_asymmetric(a[0], b[0]);
            assert(false);
        }
        let a1 = a.drop_first();
        let b1 = b.drop_first();
        assert forall|x: Seq<char>| a1.contains(x) implies b1.contains(x) by {
            let i = choose|i: int| 0 <= i < a1.len() && a1[i] == x;
            assert(a[i + 1] == x);
            assert(text_lt(a[0], a[i + 1]));
            lemma_text_lt_irreflexive(x);
            assert(a.contains(x));
            let j = choose|j: int| 0 <= j < b.len() && b[j] == x;
            assert(j != 0);
            assert(b1[j - 1] == x);
        }
        assert forall|x: Seq<char>| b1.contains(x) implies a1.contains(x) by {
            let i = choose|i: int| 0 <= i < b1.len() && b1[i] == x;
            assert(b[i + 1] == x);
            assert(text_lt(b[0], b[i + 1]));
            lemma_text_lt_irreflexive(x);
            assert(b.contains(x));
            let j = choose|j: int| 0 <= j < a.len() && a[j] == x;
            assert(j != 0);
            assert(a1[j - 1] == x);
        }
        lemma_ascending_unique(a1, b1);
        assert(a =~= seq![a[0]] + a1);
        assert(b =~= seq![b[0]] + b1);
    }
}

/// The characters of a text.
pub fn chars_of(s: &str) -> (r: Vec<char>)
    ensures
        r@ == s@,
{
    let mut out: Vec<char> = Vec::new();
    for c in it: s.chars()
        invariant
            it.seq() == s@,
            out@ == s@.take(it.index()),
    {
        let ghost i = it.index();
        out.push(c);
        assert(out@ =~= s@.take(i + 1));
    }
    assert(s@.take(s@.len() as int) =~= s@);
    out
}

/// Whether `a` comes strictly before `b`.
pub fn text_less(a: &str, b: &str) -> (r: bool)
    ensures
        r == text_lt(a@, b@),
{
    let x = chars_of(a);
    let y = chars_of(b);
    let mut i: usize = 0;
    assert(x@.skip(0) =~= x@);
    assert(y@.skip(0) =~= y@);
    while i < x.len() && i < y.len() && x[i] == y[i]
        invariant
            i <= x@.len(),
            i <= y@.len(),
            text_lt(x@, y@) == text_lt(x@.skip(i as int), y@.skip(i as int)),
        decreases x@.len() - i,
    {
        let ghost xs = x@.skip(i as int);
        let ghost ys = y@.skip(i as int);
        assert(xs.drop_first() =~= x@.skip(i + 1));
        assert(ys.drop_first() =~= y@.skip(i + 1));
        i = i + 1;
    }
    let ghost xs = x@.skip(i as int);
    let ghost ys = y@.skip(i as int);
    if i == x.len() {
        assert(xs.len() == 0);
        i < y.len()
    } else if i == y.len() {
        false
    } else {
        assert(xs[0] == x@[i as int]);
        assert(ys[0] == y@[i as int]);
        x[i] < y[i]
    }
}

/// The texts of the list, without repeats, in ascending order.
pub fn sorted_distinct_texts(ids: &Vec<String>) -> (r: Vec<String>)
    ensures
        r@.map_values(|s: String| s@) == sorted_distinct(ids@.map_values(|s: String| s@)),
{
    let ghost all = ids@.map_values(|s: String| s@);
    let mut r: Vec<String> = Vec::new();
    let mut i: usize = 0;
    while i < ids.len()
        invariant
            i <= ids@.len(),
            all == ids@.map_values(|s: String| s@),
            strictly_ascending(r@.map_values(|s: String| s@)),
            same_elements(r@.map_values(|s: String| s@), all.take(i as int)),
        decreases ids@.len() - i,
    {
        let x = &ids[i];
        let ghost old_r = r@.map_values(|s: String| s@);
        let mut j: usize = 0;
        while j < r.len() && text_less(r[j].as_str(), x.as_str())
            invariant
                j <= r@.len(),
                old_r == r@.map_values(|s: String| s@),
                forall|k: int| 0 <= k < j ==> text_lt(#[trigger] old_r[k], x@),
            decreases r@.len() - j,
        {
            j = j + 1;
        }
        let present = j < r.len() && crate::identity::str_equals(r[j].as_str(), x.as_str());
        if !present {
            r.insert(j, x.clone());
            let ghost new_r = r@.map_values(|s: String| s@);
            assert(new_r =~= old_r.insert(j as int, x@));
            assert forall|a: int, b: int| 0 <= a < b < new_r.len() implies text_lt(
                #[trigger] new_r[a],
                #[trigger] new_r[b],
            ) by {
                if j < old_r.len() {
                    lemma_text_lt_total(x@, old_r[j as int]);
                    assert(!text_lt(old_r[j as int], x@));
                    assert(text_lt(x@, old_r[j as int]));
                }
                if a < j && b == j {
                } else if a < j && b > j {
                    assert(text_lt(old_r[a], x@));
                    assert(text_lt(x@, old_r[j as int]));
                    if b - 1 > j {
                        lemma_text_lt_transitive(x@, old_r[j as int], old_r[b - 1]);
                    }
                    lemma_text_lt_transitive(old_r[a], x@, new_r[b]);
                } else if a == j {
                    if b - 1 > j {
                        lemma_text_lt_transitive(x@, old_r[j as int], old_r[b - 1]);
                    }
                } else if a > j {
                    assert(new_r[a] == old_r[a - 1]);
                    assert(new_r[b] == old_r[b - 1]);
                }
            }
            assert(all.take(i + 1) =~= all.take(i as int).push(x@));
            assert forall|y: Seq<char>| new_r.contains(y) implies all.take(i + 1).contains(y) by {
                let k = choose|k: int| 0 <= k < new_r.len() && new_r[k] == y;
                if k < j {
                    assert(old_r[k] == y);
                    assert(old_r.contains(y));
                    assert(all.take(i as int).contains(y));
                    let t0 = all.take(i as int);
                    let m = choose|m: int| 0 <= m < t0.len() && t0[m] == y;
                    assert(all.take(i + 1)[m] == y);
                } else if k > j {
                    assert(old_r[k - 1] == y);
                    assert(old_r.contains(y));
                    assert(all.take(i as int).contains(y));
                    let t0 = all.take(i as int);
                    let m = choose|m: int| 0 <= m < t0.len() && t0[m] == y;
                    assert(all.take(i + 1)[m] == y);
                } else {
                    assert(all.take(i + 1)[i as int] == y);
                }
            }
            assert forall|y: Seq<char>| all.take(i + 1).contains(y) implies new_r.contains(y) by {
                if y == x@ {
                    assert(new_r[j as int] == y);
                } else {
                    let t1 = all.take(i + 1);
                    let m = choose|m: int| 0 <= m < t1.len() && t1[m] == y;
                    assert(m < i);
                    assert(all.take(i as int)[m] == y);
                    assert(all.take(i as int).contains(y));
                    assert(old_r.contains(y));
                    let k = choose|k: int| 0 <= k < old_r.len() && old_r[k] == y;
                    if k < j {
                        assert(new_r[k] == y);
                    } else {
                        assert(new_r[k + 1] == y);
                    }
                }
            }
        } else {
            assert(all.take(i + 1) =~= all.take(i as int).push(x@));
            assert forall|y: Seq<char>| old_r.contains(y) implies all.take(i + 1).contains(y) by {
                assert(all.take(i as int).contains(y));
                let t0 = all.take(i as int);
                    let m = choose|m: int| 0 <= m < t0.len() && t0[m] == y;
                assert(all.take(i + 1)[m] == y);
            }
            assert forall|y: Seq<char>| all.take(i + 1).contains(y) implies old_r.contains(y) by {
                if y == x@ {
                    assert(old_r[j as int] == y);
                } else {
                    let t1 = all.take(i + 1);
                    let m = choose|m: int| 0 <= m < t1.len() && t1[m] == y;
                    assert(m < i);
                    assert(all.take(i as int)[m] == y);
                    assert(all.take(i as int).contains(y));
                }
            }
        }
        i = i + 1;
    }
    assert(all.take(i as int) =~= all);
    proof {
        let rv = r@.map_values(|s: String| s@);
        lemma_ascending_unique(rv, sorted_distinct(all));
    }
    r
}

} // verus!
