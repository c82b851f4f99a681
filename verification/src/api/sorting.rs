//! Putting lists in order, newest first. Things of the same rank keep their order.

use vstd::prelude::*;

use crate::text;
use crate::text::is_before;

verus! {

/// Things that are ranked.
pub trait Ranked: Sized {
    /// This one ranks above the other.
    spec fn above(&self, other: &Self) -> bool;

    /// Whether this one ranks above the other.
    fn is_above(&self, other: &Self) -> (r: bool)
        ensures
            r == self.above(other),
    ;

    /// The ranks are in one order.
    proof fn one_order(a: Self, b: Self, c: Self)
        ensures
            !a.above(&a),
            a.above(&b) ==> !b.above(&a),
            !b.above(&a) && !c.above(&b) ==> !c.above(&a),
    ;
}

impl Ranked for String {
    open spec fn above(&self, other: &Self) -> bool {
        text::before(other@, self@)
    }

    fn is_above(&self, other: &Self) -> (r: bool) {
        is_before(other, self)
    }

    proof fn one_order(a: Self, b: Self, c: Self) {
        text::text_order(a@, b@, c@);
        text::text_order(b@, a@, c@);
        text::text_order(c@, b@, a@);
        text::text_order(a@, c@, b@);
        text::text_order(b@, c@, a@);
        text::text_order(c@, a@, b@);
    }
}

/// A time; things without one rank below all others.
#[derive(Debug, Clone, Copy)]
pub struct Moment {
    pub at: Option<i64>,
}

impl Ranked for Moment {
    open spec fn above(&self, other: &Self) -> bool {
        match (self.at, other.at) {
            (Some(a), Some(b)) => a > b,
            (Some(_), None) => true,
            _ => false,
        }
    }

    fn is_above(&self, other: &Self) -> (r: bool) {
        match (self.at, other.at) {
            (Some(a), Some(b)) => a > b,
            (Some(_), None) => true,
            _ => false,
        }
    }

    proof fn one_order(a: Self, b: Self, c: Self) {
    }
}

/// Of two places of a list, the first is to come first: it ranks above the other,
/// or as high and earlier.
pub open spec fn comes_first<K: Ranked>(keys: Seq<K>, a: usize, b: usize) -> bool {
    keys[a as int].above(&keys[b as int]) || (!keys[b as int].above(&keys[a as int]) && a < b)
}

/// The places of a list in order, each one once.
pub open spec fn in_order<K: Ranked>(keys: Seq<K>, order: Seq<usize>) -> bool {
    &&& order.len() == keys.len()
    &&& order.no_duplicates()
    &&& forall|i: int| 0 <= i < order.len() ==> #[trigger] order[i] < keys.len()
    &&& forall|p: usize| p < keys.len() ==> #[trigger] order.contains(p)
    &&& forall|i: int, j: int|
        0 <= i < j < order.len() ==> #[trigger] comes_first(keys, order[i], order[j])
}

/// The first places of a list in order.
spec fn partly<K: Ranked>(keys: Seq<K>, order: Seq<usize>, n: int) -> bool {
    &&& order.len() == n
    &&& order.no_duplicates()
    &&& forall|i: int| 0 <= i < order.len() ==> #[trigger] order[i] < n
    &&& forall|p: usize| p < n ==> #[trigger] order.contains(p)
    &&& forall|i: int, j: int|
        0 <= i < j < order.len() ==> #[trigger] comes_first(keys, order[i], order[j])
}

/// The places of a list in order of rank, the highest first.
pub fn rank_order<K: Ranked>(keys: &Vec<K>) -> (r: Vec<usize>)
    ensures
        in_order(keys@, r@),
{
    let n: usize = keys.len();
    let mut order: Vec<usize> = Vec::new();
    let mut i: usize = 0;
    while i < n
        invariant
            i <= n,
            n == keys@.len(),
            partly(keys@, order@, i as int),
        decreases n - i,
    {
        let mut at: usize = i;
        while at > 0 && keys[i].is_above(&keys[order[at - 1]])
            invariant
                at <= i < n,
                n == keys@.len(),
                partly(keys@, order@, i as int),
                forall|k: int|
                    at <= k < i ==> keys@[i as int].above(&keys@[#[trigger] order@[k] as int]),
            decreases at,
        {
            at = at - 1;
        }
        let ghost before = order@;
        proof {
            if at > 0 {
                assert(!keys@[i as int].above(&keys@[before[at - 1] as int]));
                assert forall|k: int| 0 <= k < at implies !keys@[i as int].above(
                    &keys@[#[trigger] before[k] as int],
                ) by {
                    if k < at - 1 {
                        assert(comes_first(keys@, before[k], before[at - 1]));
                        K::one_order(
                            keys@[before[k] as int],
                            keys@[before[at - 1] as int],
                            keys@[i as int],
                        );
                    }
                }
            }
        }
        order.insert(at, i);
        proof {
            let now = order@;
            assert forall|a: int, b: int| 0 <= a < b < now.len() implies now[a] != now[b] by {
                if a != at && b != at {
                    let x = if a < at {
                        a
                    } else {
                        a - 1
                    };
                    let y = if b < at {
                        b
                    } else {
                        b - 1
                    };
                    assert(now[a] == before[x] && now[b] == before[y]);
                } else if a == at {
                    assert(now[b] == before[b - 1]);
                } else {
                    assert(now[a] == before[a]);
                }
            }
            assert forall|a: int, b: int| 0 <= a < b < now.len() implies #[trigger] comes_first(
                keys@,
                now[a],
                now[b],
            ) by {
                if a != at && b != at {
                    let x = if a < at {
                        a
                    } else {
                        a - 1
                    };
                    let y = if b < at {
                        b
                    } else {
                        b - 1
                    };
                    assert(comes_first(keys@, before[x], before[y]));
                } else if a == at {
                    assert(now[b] == before[b - 1]);
                } else {
                    assert(now[a] == before[a]);
                    K::one_order(keys@[now[a] as int], keys@[i as int], keys@[i as int]);
                }
            }
            assert forall|p: usize| p < i + 1 implies #[trigger] now.contains(p) by {
                if p == i {
                    assert(now[at as int] == p);
                } else {
                    assert(before.contains(p));
                    let k = choose|k: int| 0 <= k < before.len() && before[k] == p;
                    if k < at {
                        assert(now[k] == p);
                    } else {
                        assert(now[k + 1] == p);
                    }
                }
            }
            assert forall|k: int| 0 <= k < now.len() implies #[trigger] now[k] < i + 1 by {
                if k < at {
                    assert(now[k] == before[k]);
                } else if k > at {
                    assert(now[k] == before[k - 1]);
                }
            }
        }
        i = i + 1;
    }
    order
}

/// A list is another one put in order: every item once, the highest rank first.
pub open spec fn sorted_from<K: Ranked, T>(keys: Seq<K>, items: Seq<T>, sorted: Seq<T>) -> bool {
    exists|order: Seq<usize>| #[trigger]
        in_order(keys, order) && sorted.len() == order.len() && forall|i: int|
            0 <= i < sorted.len() ==> #[trigger] sorted[i] == items[order[i] as int]
}

/// There is only one way to put a list in order.
pub proof fn order_is_unique<K: Ranked>(keys: Seq<K>, a: Seq<usize>, b: Seq<usize>)
    requires
        in_order(keys, a),
        in_order(keys, b),
    ensures
        a == b,
{
    if a != b {
        let d = first_difference(a, b);
        // The place that `a` has at `d` comes later in `b`, and the other way round.
        assert(b.contains(a[d]));
        assert(a.contains(b[d]));
        let i = choose|i: int| 0 <= i < b.len() && b[i] == a[d];
        let j = choose|j: int| 0 <= j < a.len() && a[j] == b[d];
        if i < d {
            assert(a[i] == b[i]);
        }
        if j < d {
            assert(a[j] == b[j]);
        }
        assert(comes_first(keys, a[d], a[j]));
        assert(comes_first(keys, b[d], b[i]));
        K::one_order(keys[a[d] as int], keys[b[d] as int], keys[a[d] as int]);
        K::one_order(keys[b[d] as int], keys[a[d] as int], keys[b[d] as int]);
        assert(false);
    }
}

/// Where two lists of one length differ first.
proof fn first_difference(a: Seq<usize>, b: Seq<usize>) -> (d: int)
    requires
        a.len() == b.len(),
        a != b,
    ensures
        0 <= d < a.len(),
        a[d] != b[d],
        forall|k: int| 0 <= k < d ==> a[k] == b[k],
    decreases a.len(),
{
    if a.len() == 0 {
        assert(a =~= b);
        0
    } else if a.drop_last() != b.drop_last() {
        let d = first_difference(a.drop_last(), b.drop_last());
        assert forall|k: int| 0 <= k < d implies a[k] == b[k] by {
            assert(a.drop_last()[k] == b.drop_last()[k]);
        }
        assert(a.drop_last()[d] == a[d] && b.drop_last()[d] == b[d]);
        d
    } else {
        let d = a.len() - 1;
        assert forall|k: int| 0 <= k < d implies a[k] == b[k] by {
            assert(a.drop_last()[k] == b.drop_last()[k]);
        }
        if a[d] == b[d] {
            assert(a =~= a.drop_last().push(a[d]));
            assert(b =~= b.drop_last().push(b[d]));
        }
        d
    }
}

/// What was played last comes first; what has no time comes last, and of two with
/// the same time the one that was listed first.
pub proof fn the_latest_comes_first(times: Seq<Moment>, order: Seq<usize>, i: int, j: int)
    requires
        in_order(times, order),
        0 <= i < j < order.len(),
    ensures
        ({
            let a = times[order[i] as int].at;
            let b = times[order[j] as int].at;
            &&& a is None ==> b is None
            &&& a is Some && b is Some ==> a->0 >= b->0
            &&& a == b ==> order[i] < order[j]
        }),
{
    assert(comes_first(times, order[i], order[j]));
}

/// Texts that are put in order stand with the last one in front.
pub proof fn texts_stand_from_last_to_first(keys: Seq<String>, order: Seq<usize>, i: int, j: int)
    requires
        in_order(keys, order),
        0 <= i < j < order.len(),
    ensures
        !text::before(keys[order[i] as int]@, keys[order[j] as int]@),
        keys[order[i] as int]@ == keys[order[j] as int]@ ==> order[i] < order[j],
{
    assert(comes_first(keys, order[i], order[j]));
    text::text_order(keys[order[i] as int]@, keys[order[j] as int]@, Seq::empty());
}

} // verus!
