//! The order of strings, by their characters.

use vstd::prelude::*;

use crate::text;

verus! {

/// Whether `a` comes before `b` in the order of a dictionary, or is `b`.
pub open spec fn not_after(a: Seq<char>, b: Seq<char>) -> bool
    decreases a.len(),
{
    if a.len() == 0 {
        true
    } else if b.len() == 0 {
        false
    } else if a[0] != b[0] {
        a[0] < b[0]
    } else {
        not_after(a.drop_first(), b.drop_first())
    }
}

/// Of two strings, one does not come after the other.
pub proof fn lemma_total(a: Seq<char>, b: Seq<char>)
    ensures
        not_after(a, b) || not_after(b, a),
    decreases a.len(),
{
    if a.len() > 0 && b.len() > 0 && a[0] == b[0] {
        lemma_total(a.drop_first(), b.drop_first());
    }
}

/// Two strings of which neither comes after the other are the same.
pub proof fn lemma_antisymmetric(a: Seq<char>, b: Seq<char>)
    requires
        not_after(a, b),
        not_after(b, a),
    ensures
        a == b,
    decreases a.len(),
{
    if a.len() > 0 && b.len() > 0 {
        lemma_antisymmetric(a.drop_first(), b.drop_first());
        assert(a =~= seq![a[0]] + a.drop_first());
        assert(b =~= seq![b[0]] + b.drop_first());
    } else {
        assert(a =~= b);
    }
}

pub proof fn lemma_transitive(a: Seq<char>, b: Seq<char>, c: Seq<char>)
    requires
        not_after(a, b),
        not_after(b, c),
    ensures
        not_after(a, c),
    decreases a.len(),
{
    if a.len() > 0 && b.len() > 0 && c.len() > 0 && a[0] == b[0] && b[0] == c[0] {
        lemma_transitive(a.drop_first(), b.drop_first(), c.drop_first());
    }
}

/// Compares two strings.
pub fn is_not_after(a: &str, b: &str) -> (r: bool)
    ensures
        r == not_after(a@, b@),
{
    let x = text::to_chars(a);
    let y = text::to_chars(b);
    let mut i: usize = 0;
    assert(x@.skip(0) =~= x@ && y@.skip(0) =~= y@);
    loop
        invariant
            x@ == a@,
            y@ == b@,
            i <= x.len(),
            i <= y.len(),
            not_after(a@, b@) == not_after(x@.skip(i as int), y@.skip(i as int)),
        decreases x.len() - i,
    {
        if i == x.len() {
            return true;
        }
        if i == y.len() {
            return false;
        }
        proof {
            assert(x@.skip(i as int)[0] == x@[i as int]);
            assert(y@.skip(i as int)[0] == y@[i as int]);
            assert(x@.skip(i as int).drop_first() =~= x@.skip(i + 1));
            assert(y@.skip(i as int).drop_first() =~= y@.skip(i + 1));
        }
        if x[i] != y[i] {
            return x[i] < y[i];
        }
        i = i + 1;
    }
}

/// Whether no string of a list is followed by one that comes before it.
pub open spec fn sorted(list: Seq<Seq<char>>) -> bool {
    forall|i: int, j: int|
        0 <= i <= j < list.len() ==> not_after(#[trigger] list[i], #[trigger] list[j])
}

proof fn lemma_insert_keeps_order(list: Seq<Seq<char>>, k: int, added: Seq<char>)
    requires
        sorted(list),
        0 <= k <= list.len(),
        k > 0 ==> not_after(list[k - 1], added),
        k < list.len() ==> not_after(added, list[k]),
    ensures
        sorted(list.insert(k, added)),
{
    let now = list.insert(k, added);
    assert forall|i: int, j: int| 0 <= i <= j < now.len() implies not_after(
        #[trigger] now[i],
        #[trigger] now[j],
    ) by {
        if i == k && j == k {
            lemma_total(added, added);
        } else if j == k {
            assert(not_after(list[i], list[k - 1]));
            lemma_transitive(list[i], list[k - 1], added);
        } else if i == k {
            assert(not_after(list[k], list[j - 1]));
            lemma_transitive(added, list[k], list[j - 1]);
        } else {
            let i2 = if i < k {
                i
            } else {
                i - 1
            };
            let j2 = if j < k {
                j
            } else {
                j - 1
            };
            assert(not_after(list[i2], list[j2]));
        }
    }
}

/// Sorts strings.
pub fn sort(list: Vec<String>) -> (r: Vec<String>)
    ensures
        sorted(text::views(r@)),
        r@.to_multiset() == list@.to_multiset(),
{
    broadcast use vstd::seq_lib::group_to_multiset_ensures;

    let ghost all = list@;
    let mut rest = list;
    let mut out: Vec<String> = Vec::new();
    let mut done: usize = 0;
    let total: usize = rest.len();
    proof {
        assert(all.take(0) =~= out@);
        assert(rest@ =~= all.skip(0));
    }
    while done < total
        invariant
            done <= total,
            total == all.len(),
            rest@ == all.skip(done as int),
            sorted(text::views(out@)),
            out@.to_multiset() == all.take(done as int).to_multiset(),
        decreases total - done,
    {
        let added = rest.remove(0);
        let mut k: usize = out.len();
        while k > 0 && !is_not_after(out[k - 1].as_str(), added.as_str())
            invariant
                k <= out@.len(),
                k < out@.len() ==> not_after(added@, out@[k as int]@),
            decreases k,
        {
            proof {
                lemma_total(out@[k - 1]@, added@);
            }
            k = k - 1;
        }
        let ghost before = out@;
        out.insert(k, added);
        proof {
            assert(text::views(out@) =~= text::views(before).insert(k as int, added@));
            lemma_insert_keeps_order(text::views(before), k as int, added@);
            assert(all.take(done + 1) =~= all.take(done as int).push(added));
            assert(rest@ =~= all.skip(done + 1));
            vstd::seq_lib::to_multiset_insert(before, k as int, added);
            vstd::seq_lib::to_multiset_build(all.take(done as int), added);
        }
        done = done + 1;
    }
    assert(all.take(done as int) =~= all);
    out
}

/// Of two strings the first character in which they differ decides, and a string comes before
/// every longer one that starts with it.
pub proof fn law_first_difference_decides(
    same: Seq<char>,
    x: char,
    y: char,
    a: Seq<char>,
    b: Seq<char>,
)
    requires
        x != y,
    ensures
        not_after(same + seq![x] + a, same + seq![y] + b) <==> (x as u32) < (y as u32),
        not_after(same, same + a),
        a.len() > 0 ==> !not_after(same + a, same),
    decreases same.len(),
{
    let p = same + seq![x] + a;
    let q = same + seq![y] + b;
    let r = same + a;
    if same.len() > 0 {
        let rest = same.drop_first();
        law_first_difference_decides(rest, x, y, a, b);
        assert(p.drop_first() =~= rest + seq![x] + a);
        assert(q.drop_first() =~= rest + seq![y] + b);
        assert(r.drop_first() =~= rest + a);
        assert(p[0] == q[0] && r[0] == same[0]);
    } else {
        assert(p[0] == x && q[0] == y);
        assert(r =~= a);
    }
}

} // verus!
