use vstd::prelude::*;

use crate::model::{rotate_left, without};
use crate::state::{addrs, text_view};

verus! {

/// Appending to a list appends the element's view.
pub proof fn lemma_addrs_push(s: Seq<String>, x: String)
    ensures
        addrs(s.push(x)) == addrs(s).push(x@),
{
    assert(addrs(s.push(x)) =~= addrs(s).push(x@));
}

/// Whether `a` is in the list.
pub fn contains_addr(v: &Vec<String>, a: &String) -> (b: bool)
    ensures
        b == addrs(v@).contains(a@),
{
    let n = v.len();
    let mut i: usize = 0;
    while i < n
        invariant
            n == v@.len(),
            i <= n,
            forall|j: int| 0 <= j < i ==> #[trigger] addrs(v@)[j] != a@,
        decreases n - i,
    {
        if v[i] == *a {
            assert(addrs(v@)[i as int] == a@);
            return true;
        }
        i = i + 1;
    }
    false
}

/// A copy of the list.
pub fn copy_addrs(v: &Vec<String>) -> (r: Vec<String>)
    ensures
        addrs(r@) == addrs(v@),
{
    let n = v.len();
    let mut r: Vec<String> = Vec::new();
    let mut i: usize = 0;
    while i < n
        invariant
            n == v@.len(),
            i <= n,
            addrs(r@) == addrs(v@).take(i as int),
        decreases n - i,
    {
        let c = v[i].clone();
        assert(c@ == v@[i as int]@);
        proof {
            lemma_addrs_push(r@, c);
        }
        r.push(c);
        assert(addrs(r@) =~= addrs(v@).take(i + 1));
        i = i + 1;
    }
    assert(addrs(v@).take(n as int) =~= addrs(v@));
    r
}

/// A copy of an optional text.
pub fn copy_text(t: &Option<String>) -> (r: Option<String>)
    ensures
        text_view(r) == text_view(*t),
{
    match t {
        Some(s) => Some(s.clone()),
        None => None,
    }
}

/// The list without any occurrence of `a`.
pub fn without_addr(v: &Vec<String>, a: &String) -> (r: Vec<String>)
    ensures
        addrs(r@) == without(addrs(v@), a@),
{
    let n = v.len();
    let mut r: Vec<String> = Vec::new();
    let mut i: usize = 0;
    assert(addrs(v@).take(0) =~= Seq::<Seq<char>>::empty());
    while i < n
        invariant
            n == v@.len(),
            i <= n,
            addrs(r@) == without(addrs(v@).take(i as int), a@),
        decreases n - i,
    {
        let ghost before = addrs(v@).take(i as int);
        assert(addrs(v@).take(i + 1).drop_last() =~= before);
        assert(addrs(v@).take(i + 1).last() == v@[i as int]@);
        if v[i] != *a {
            let c = v[i].clone();
            assert(c@ == v@[i as int]@);
            proof {
            lemma_addrs_push(r@, c);
        }
        r.push(c);
            assert(addrs(r@) =~= without(before, a@).push(v@[i as int]@));
        }
        i = i + 1;
    }
    assert(addrs(v@).take(n as int) =~= addrs(v@));
    r
}

/// The list rotated left by `k` places.
pub fn rotated(v: &Vec<String>, k: usize) -> (r: Vec<String>)
    requires
        k <= v@.len(),
    ensures
        addrs(r@) == rotate_left(addrs(v@), k as int),
{
    let n = v.len();
    let mut r: Vec<String> = Vec::new();
    let mut i: usize = k;
    while i < n
        invariant
            n == v@.len(),
            k <= i <= n,
            addrs(r@) == addrs(v@).subrange(k as int, i as int),
        decreases n - i,
    {
        let c = v[i].clone();
        assert(c@ == v@[i as int]@);
        proof {
            lemma_addrs_push(r@, c);
        }
        r.push(c);
        assert(addrs(r@) =~= addrs(v@).subrange(k as int, i + 1));
        i = i + 1;
    }
    let mut j: usize = 0;
    while j < k
        invariant
            n == v@.len(),
            k <= n,
            j <= k,
            addrs(r@) == addrs(v@).subrange(k as int, n as int) + addrs(v@).subrange(0, j as int),
        decreases k - j,
    {
        let c = v[j].clone();
        assert(c@ == v@[j as int]@);
        proof {
            lemma_addrs_push(r@, c);
        }
        r.push(c);
        assert(addrs(r@) =~= addrs(v@).subrange(k as int, n as int) + addrs(v@).subrange(
            0,
            j + 1,
        ));
        j = j + 1;
    }
    r
}

/// Removing `x` leaves no `x` and keeps every other element.
pub proof fn lemma_without(s: Seq<Seq<char>>, x: Seq<char>)
    ensures
        !without(s, x).contains(x),
        forall|y: Seq<char>| y != x ==> (#[trigger] without(s, x).contains(y) == s.contains(y)),
        without(s, x).len() <= s.len(),
        !s.contains(x) ==> without(s, x) == s,
    decreases s.len(),
{
    if s.len() > 0 {
        lemma_without(s.drop_last(), x);
        let r = without(s.drop_last(), x);
        let w = without(s, x);
        assert forall|k: int| 0 <= k < r.len() implies w[k] == r[k] by {}
        assert forall|y: Seq<char>| y != x implies (#[trigger] w.contains(y) == s.contains(y)) by {
            if s.contains(y) {
                let i = choose|i: int| 0 <= i < s.len() && s[i] == y;
                if i < s.len() - 1 {
                    assert(s.drop_last()[i] == y);
                    assert(s.drop_last().contains(y));
                    assert(r.contains(y));
                    let k = choose|k: int| 0 <= k < r.len() && r[k] == y;
                    assert(w[k] == y);
                } else {
                    assert(w[r.len() as int] == y);
                }
            }
            if w.contains(y) {
                let i = choose|i: int| 0 <= i < w.len() && w[i] == y;
                if i < r.len() {
                    assert(r[i] == y);
                    assert(r.contains(y));
                    assert(s.drop_last().contains(y));
                    let j = choose|j: int| 0 <= j < s.drop_last().len() && s.drop_last()[j] == y;
                    assert(s[j] == y);
                } else {
                    assert(s[s.len() - 1] == y);
                }
            }
        }
        if without(s, x).contains(x) {
            let i = choose|i: int| 0 <= i < without(s, x).len() && without(s, x)[i] == x;
            if i < r.len() {
                assert(r[i] == x);
            }
        }
        if !s.contains(x) {
            assert(!s.drop_last().contains(x)) by {
                if s.drop_last().contains(x) {
                    let j = choose|j: int| 0 <= j < s.drop_last().len() && s.drop_last()[j] == x;
                    assert(s[j] == x);
                }
            }
            assert(s.last() != x);
            assert(without(s, x) =~= s.drop_last().push(s.last()));
        }
    }
}

} // verus!
