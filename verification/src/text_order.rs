//! The order of texts, and sorting by it.

use crate::text::{chars_of, texts};
use vstd::prelude::*;
use vstd::relations::{sorted_by, total_ordering};
use vstd::seq_lib::{lemma_multiset_commutative, lemma_sorted_unique};

verus! {

/// The order of texts by their characters, a prefix coming first.
pub open spec fn text_before(a: Seq<char>, b: Seq<char>) -> bool
    decreases a.len(),
{
    if b.len() == 0 {
        false
    } else if a.len() == 0 {
        true
    } else if a[0] != b[0] {
        a[0] < b[0]
    } else {
        text_before(a.drop_first(), b.drop_first())
    }
}

pub proof fn lemma_text_before_total(a: Seq<char>, b: Seq<char>)
    ensures
        a != b ==> text_before(a, b) || text_before(b, a),
        !text_before(a, a),
        !(text_before(a, b) && text_before(b, a)),
    decreases a.len(),
{
    if a.len() > 0 && b.len() > 0 {
        lemma_text_before_total(a.drop_first(), b.drop_first());
        lemma_text_before_total(a.drop_first(), a.drop_first());
        if a[0] == b[0] && a.drop_first() == b.drop_first() {
            assert(a =~= seq![a[0]] + a.drop_first());
            assert(b =~= seq![b[0]] + b.drop_first());
        }
    } else if a.len() == 0 && b.len() == 0 {
        assert(a =~= b);
    } else if a.len() > 0 {
        lemma_text_before_total(a.drop_first(), a.drop_first());
    }
}

pub proof fn lemma_text_before_transitive(a: Seq<char>, b: Seq<char>, c: Seq<char>)
    requires
        text_before(a, b),
        text_before(b, c),
    ensures
        text_before(a, c),
    decreases a.len(),
{
    if a.len() > 0 && a[0] == b[0] && b[0] == c[0] {
        lemma_text_before_transitive(a.drop_first(), b.drop_first(), c.drop_first());
    }
}

/// Decides [`text_before`].
pub fn comes_before(a: &str, b: &str) -> (r: bool)
    ensures
        r == text_before(a@, b@),
{
    let x = chars_of(a);
    let y = chars_of(b);
    let mut i: usize = 0;
    proof {
        assert(a@.skip(0) =~= a@);
        assert(b@.skip(0) =~= b@);
    }
    while i < x.len() && i < y.len() && x[i] == y[i]
        invariant
            i <= x.len(),
            i <= y.len(),
            x@ == a@,
            y@ == b@,
            text_before(a@, b@) == text_before(a@.skip(i as int), b@.skip(i as int)),
        decreases x.len() - i,
    {
        proof {
            assert(a@.skip(i as int).drop_first() =~= a@.skip(i as int + 1));
            assert(b@.skip(i as int).drop_first() =~= b@.skip(i as int + 1));
        }
        i += 1;
    }
    if i >= y.len() {
        false
    } else if i >= x.len() {
        true
    } else {
        x[i] < y[i]
    }
}

/// Whether a text comes before another or is the same.
pub open spec fn not_behind(a: Seq<char>, b: Seq<char>) -> bool {
    !text_before(b, a)
}

/// Texts in their order.
pub open spec fn in_order(s: Seq<Seq<char>>) -> Seq<Seq<char>> {
    s.sort_by(|a: Seq<char>, b: Seq<char>| not_behind(a, b))
}

/// Two lists of texts as one: each time the first of both that comes first, that of the
/// left one where neither does.
spec fn merged(l: Seq<Seq<char>>, q: Seq<Seq<char>>) -> Seq<Seq<char>>
    decreases l.len() + q.len(),
{
    if l.len() == 0 {
        q
    } else if q.len() == 0 {
        l
    } else if not_behind(l[0], q[0]) {
        seq![l[0]] + merged(l.drop_first(), q)
    } else {
        seq![q[0]] + merged(l, q.drop_first())
    }
}

spec fn ordered(s: Seq<Seq<char>>) -> bool {
    forall|i: int, j: int| 0 <= i < j < s.len() ==> not_behind(#[trigger] s[i], #[trigger] s[j])
}

proof fn lemma_order()
    ensures
        total_ordering(|a: Seq<char>, b: Seq<char>| not_behind(a, b)),
{
    let leq = |a: Seq<char>, b: Seq<char>| not_behind(a, b);
    assert forall|a: Seq<char>, b: Seq<char>| #![trigger leq(a, b)] leq(a, b) || leq(b, a) by {
        lemma_text_before_total(a, b);
    }
    assert forall|a: Seq<char>, b: Seq<char>| #![trigger leq(a, b), leq(b, a)] leq(a, b) && leq(b, a) implies a == b by {
        lemma_text_before_total(a, b);
    }
    assert forall|a: Seq<char>, b: Seq<char>, c: Seq<char>|
        #![trigger leq(a, b), leq(b, c)]
        leq(a, b) && leq(b, c) implies leq(a, c) by {
        lemma_not_behind_transitive(a, b, c);
    }
    assert forall|a: Seq<char>| #[trigger] leq(a, a) by {
        lemma_text_before_total(a, a);
    }
}

proof fn lemma_not_behind_transitive(a: Seq<char>, b: Seq<char>, c: Seq<char>)
    requires
        not_behind(a, b),
        not_behind(b, c),
    ensures
        not_behind(a, c),
{
    lemma_text_before_total(a, b);
    lemma_text_before_total(b, c);
    lemma_text_before_total(a, c);
    if text_before(c, a) {
        if a != b {
            lemma_text_before_transitive(c, a, b);
        }
    }
}

/// A list that starts with a text that comes behind none of the others is in order where
/// the others are.
proof fn lemma_first_then(first: Seq<char>, rest: Seq<Seq<char>>, from: Seq<Seq<char>>)
    requires
        ordered(rest),
        rest.to_multiset() == from.to_multiset(),
        forall|i: int| 0 <= i < from.len() ==> not_behind(first, #[trigger] from[i]),
    ensures
        ordered(seq![first] + rest),
{
    broadcast use vstd::seq_lib::group_to_multiset_ensures;

    let s = seq![first] + rest;
    assert forall|i: int, j: int| 0 <= i < j < s.len() implies not_behind(#[trigger] s[i], #[trigger] s[j]) by {
        assert(s[j] == rest[j - 1]);
        if i == 0 {
            let x = rest[j - 1];
            assert(rest.contains(x));
            assert(rest.to_multiset().contains(x));
            assert(from.to_multiset().contains(x));
            assert(from.contains(x));
            let k = choose|k: int| 0 <= k < from.len() && from[k] == x;
            assert(not_behind(first, from[k]));
        } else {
            assert(s[i] == rest[i - 1]);
        }
    }
}

proof fn lemma_merged(l: Seq<Seq<char>>, q: Seq<Seq<char>>)
    requires
        ordered(l),
        ordered(q),
    ensures
        ordered(merged(l, q)),
        merged(l, q).to_multiset() == (l + q).to_multiset(),
    decreases l.len() + q.len(),
{
    if l.len() == 0 {
        assert(l + q =~= q);
    } else if q.len() == 0 {
        assert(l + q =~= l);
    } else if not_behind(l[0], q[0]) {
        let rest = l.drop_first();
        assert(ordered(rest));
        lemma_merged(rest, q);
        let from = rest + q;
        assert forall|i: int| 0 <= i < from.len() implies not_behind(l[0], #[trigger] from[i]) by {
            if i < rest.len() {
                assert(from[i] == l[i + 1]);
            } else {
                let j = i - rest.len();
                assert(from[i] == q[j]);
                if j > 0 {
                    lemma_not_behind_transitive(l[0], q[0], q[j]);
                }
            }
        }
        lemma_first_then(l[0], merged(rest, q), from);
        lemma_multiset_commutative(seq![l[0]], merged(rest, q));
        lemma_multiset_commutative(seq![l[0]], from);
        assert(seq![l[0]] + from =~= l + q);
    } else {
        let rest = q.drop_first();
        assert(ordered(rest));
        lemma_merged(l, rest);
        let from = l + rest;
        lemma_text_before_total(l[0], q[0]);
        assert forall|i: int| 0 <= i < from.len() implies not_behind(q[0], #[trigger] from[i]) by {
            if i < l.len() {
                assert(from[i] == l[i]);
                if i > 0 {
                    lemma_not_behind_transitive(q[0], l[0], l[i]);
                }
            } else {
                assert(from[i] == q[i - l.len() + 1]);
            }
        }
        lemma_first_then(q[0], merged(l, rest), from);
        lemma_multiset_commutative(seq![q[0]], merged(l, rest));
        lemma_multiset_commutative(seq![q[0]], from);
        lemma_multiset_commutative(l, q);
        lemma_multiset_commutative(l, rest);
        lemma_multiset_commutative(seq![q[0]], rest);
        assert(seq![q[0]] + rest =~= q);
        assert(merged(l, q).to_multiset() =~= (l + q).to_multiset());
    }
}

fn merge(left: &Vec<String>, right: &Vec<String>) -> (r: Vec<String>)
    ensures
        texts(r@) == merged(texts(left@), texts(right@)),
{
    let ghost l = texts(left@);
    let ghost q = texts(right@);
    let ghost whole = merged(l, q);
    let mut out: Vec<String> = Vec::new();
    let mut i: usize = 0;
    let mut j: usize = 0;
    proof {
        assert(l.skip(0) =~= l);
        assert(q.skip(0) =~= q);
        assert(texts(out@) + whole =~= whole);
    }
    while i < left.len() && j < right.len()
        invariant
            i <= left.len(),
            j <= right.len(),
            l == texts(left@),
            q == texts(right@),
            whole == texts(out@) + merged(l.skip(i as int), q.skip(j as int)),
        decreases left.len() - i + right.len() - j,
    {
        let ghost seen = out@;
        let ghost a = l.skip(i as int);
        let ghost b = q.skip(j as int);
        proof {
            assert(a[0] == left@[i as int]@);
            assert(b[0] == right@[j as int]@);
            assert(a.drop_first() =~= l.skip(i as int + 1));
            assert(b.drop_first() =~= q.skip(j as int + 1));
        }
        if !comes_before(right[j].as_str(), left[i].as_str()) {
            out.push(left[i].clone());
            proof {
                assert(texts(out@) =~= texts(seen).push(a[0]));
                let rest = merged(a.drop_first(), b);
                assert(texts(seen) + (seq![a[0]] + rest) =~= texts(out@) + rest);
            }
            i += 1;
        } else {
            out.push(right[j].clone());
            proof {
                assert(texts(out@) =~= texts(seen).push(b[0]));
                let rest = merged(a, b.drop_first());
                assert(texts(seen) + (seq![b[0]] + rest) =~= texts(out@) + rest);
            }
            j += 1;
        }
    }
    let ghost tail = merged(l.skip(i as int), q.skip(j as int));
    proof {
        assert(tail == if i == left@.len() {
            q.skip(j as int)
        } else {
            l.skip(i as int)
        });
    }
    while i < left.len()
        invariant
            i <= left.len(),
            l == texts(left@),
            q == texts(right@),
            j <= right.len(),
            i < left.len() ==> j == right.len(),
            whole == texts(out@) + (if i == left@.len() {
                q.skip(j as int)
            } else {
                l.skip(i as int)
            }),
        decreases left.len() - i,
    {
        let ghost seen = out@;
        out.push(left[i].clone());
        proof {
            assert(texts(out@) =~= texts(seen).push(l[i as int]));
            assert(texts(seen) + l.skip(i as int) =~= texts(out@) + l.skip(i as int + 1));
            if i + 1 == left@.len() {
                assert(l.skip(i as int + 1) =~= q.skip(j as int));
            }
        }
        i += 1;
    }
    while j < right.len()
        invariant
            j <= right.len(),
            q == texts(right@),
            whole == texts(out@) + q.skip(j as int),
        decreases right.len() - j,
    {
        let ghost seen = out@;
        out.push(right[j].clone());
        proof {
            assert(texts(out@) =~= texts(seen).push(q[j as int]));
            assert(texts(seen) + q.skip(j as int) =~= texts(out@) + q.skip(j as int + 1));
        }
        j += 1;
    }
    proof {
        assert(texts(out@) + q.skip(j as int) =~= texts(out@));
    }
    out
}

fn merge_sort(v: Vec<String>) -> (r: Vec<String>)
    ensures
        ordered(texts(r@)),
        texts(r@).to_multiset() == texts(v@).to_multiset(),
    decreases v@.len(),
{
    let n: usize = v.len();
    if n <= 1 {
        return v;
    }
    let ghost all = texts(v@);
    let half: usize = n / 2;
    let mut left = v;
    let right = left.split_off(half);
    proof {
        assert(texts(left@) =~= all.subrange(0, half as int));
        assert(texts(right@) =~= all.subrange(half as int, n as int));
    }
    let l = merge_sort(left);
    let q = merge_sort(right);
    proof {
        lemma_merged(texts(l@), texts(q@));
        lemma_multiset_commutative(texts(l@), texts(q@));
        lemma_multiset_commutative(all.subrange(0, half as int), all.subrange(half as int, n as int));
        assert(all.subrange(0, half as int) + all.subrange(half as int, n as int) =~= all);
    }
    merge(&l, &q)
}

/// Sorts texts.
pub fn sort_texts(v: Vec<String>) -> (r: Vec<String>)
    ensures
        texts(r@) == in_order(texts(v@)),
{
    let r = merge_sort(v);
    proof {
        let leq = |a: Seq<char>, b: Seq<char>| not_behind(a, b);
        lemma_order();
        texts(v@).lemma_sort_by_ensures(leq);
        assert(sorted_by(texts(r@), leq));
        lemma_sorted_unique(texts(r@), in_order(texts(v@)), leq);
    }
    r
}

/// Sorted texts are the same texts, each as often as before, and none of them stands
/// before one that comes before it.
pub proof fn sorting_keeps_and_orders(s: Seq<Seq<char>>)
    ensures
        in_order(s).to_multiset() == s.to_multiset(),
        forall|i: int, j: int|
            0 <= i < j < in_order(s).len() ==> !text_before(#[trigger] in_order(s)[j], #[trigger] in_order(s)[i]),
{
    let leq = |a: Seq<char>, b: Seq<char>| not_behind(a, b);
    lemma_order();
    s.lemma_sort_by_ensures(leq);
    let r = in_order(s);
    assert(sorted_by(r, leq));
    assert forall|i: int, j: int| 0 <= i < j < r.len() implies !text_before(#[trigger] r[j], #[trigger] r[i]) by {
        assert(leq(r[i], r[j]));
    }
}

/// Texts are ordered by the first character in which they differ, the smaller code point
/// first; a text comes before every longer one that starts with it.
pub proof fn first_difference_decides(same: Seq<char>, a: char, x: Seq<char>, b: char, y: Seq<char>)
    ensures
        a < b ==> text_before(same + (seq![a] + x), same + (seq![b] + y)),
        a > b ==> !text_before(same + (seq![a] + x), same + (seq![b] + y)),
        text_before(same, same + (seq![a] + x)),
    decreases same.len(),
{
    let s = same + (seq![a] + x);
    let t = same + (seq![b] + y);
    if same.len() > 0 {
        let rest = same.drop_first();
        first_difference_decides(rest, a, x, b, y);
        assert(s.drop_first() =~= rest + (seq![a] + x));
        assert(t.drop_first() =~= rest + (seq![b] + y));
        assert(s[0] == same[0] && t[0] == same[0]);
    } else {
        assert(s[0] == a && t[0] == b);
    }
}

} // verus!
