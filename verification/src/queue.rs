//! The order in which a queue is played: shuffle cycles, and the way forward
//! from a place of the queue.

use vstd::prelude::*;

verus! {

// ── Shuffle cycles ──────────────────────────────────────────────────

/// A shuffle cycle over `len` tracks: every index of the queue exactly once.
pub open spec fn is_cycle(order: Seq<usize>, len: nat) -> bool {
    &&& order.len() == len
    &&& forall|i: int| 0 <= i < order.len() ==> (#[trigger] order[i]) < len
    &&& order.no_duplicates()
    &&& forall|v: usize| v < len ==> #[trigger] order.contains(v)
}

/// Multiplier of the xorshift64* stream.
pub const STREAM_FACTOR: u64 = 0x2545_f491_4f6c_dd1d;

/// One step of the xorshift64* stream.
pub open spec fn stirred(seed: u64) -> u64 {
    let a = seed ^ (seed >> 12);
    let b = a ^ (a << 25);
    b ^ (b >> 27)
}

/// The place in `0..=i` that a state of the stream picks.
pub open spec fn picked(state: u64, i: int) -> int {
    (state.wrapping_mul(STREAM_FACTOR) as usize) as int % (i + 1)
}

/// `order` with two places swapped.
pub open spec fn swapped(order: Seq<usize>, i: int, j: int) -> Seq<usize> {
    order.update(i, order[j]).update(j, order[i])
}

/// The indices of a queue in their natural order.
pub open spec fn in_order(len: nat) -> Seq<usize> {
    Seq::new(len, |i: int| i as usize)
}

/// Fisher-Yates from place `i` down to place 1, over the stream that starts at
/// `seed`.
pub open spec fn fisher_yates(order: Seq<usize>, i: int, seed: u64) -> Seq<usize>
    decreases i,
{
    if i < 1 {
        order
    } else {
        let state = stirred(seed);
        fisher_yates(swapped(order, i, picked(state, i)), i - 1, state)
    }
}

/// `order` with `start` swapped to the front, if it is there.
pub open spec fn led_by(order: Seq<usize>, start: usize) -> Seq<usize> {
    if order.contains(start) {
        swapped(order, 0, order.index_of_first(start)->0)
    } else {
        order
    }
}

/// The shuffle cycle that a seed gives.
pub open spec fn cycle_of(len: nat, start: usize, seed: u64) -> Seq<usize> {
    led_by(fisher_yates(in_order(len), len - 1, seed | 1), start)
}

/// Swapping two places keeps a cycle a cycle.
proof fn swapped_is_cycle(order: Seq<usize>, i: int, j: int)
    requires
        is_cycle(order, order.len()),
        0 <= i < order.len(),
        0 <= j < order.len(),
    ensures
        is_cycle(swapped(order, i, j), order.len()),
{
    let s = swapped(order, i, j);
    assert forall|v: usize| v < order.len() implies #[trigger] s.contains(v) by {
        assert(order.contains(v));
        let k = choose|k: int| 0 <= k < order.len() && order[k] == v;
        if k == i {
            assert(s[j] == v);
        } else if k == j {
            assert(s[i] == v);
        } else {
            assert(s[k] == v);
        }
    }
}

/// The natural order is a cycle.
proof fn in_order_is_cycle(len: nat)
    requires
        len <= usize::MAX,
    ensures
        is_cycle(in_order(len), len),
{
    let s = in_order(len);
    assert forall|v: usize| v < len implies #[trigger] s.contains(v) by {
        assert(s[v as int] == v);
    }
}

/// Fisher-Yates keeps a cycle a cycle.
proof fn fisher_yates_is_cycle(order: Seq<usize>, i: int, seed: u64)
    requires
        is_cycle(order, order.len()),
        i < order.len(),
    ensures
        is_cycle(fisher_yates(order, i, seed), order.len()),
    decreases i,
{
    if i >= 1 {
        let state = stirred(seed);
        swapped_is_cycle(order, i, picked(state, i));
        fisher_yates_is_cycle(swapped(order, i, picked(state, i)), i - 1, state);
    }
}

/// Where a value first stands in a sequence.
proof fn first_place(order: Seq<usize>, v: usize)
    requires
        order.contains(v),
    ensures
        order.index_of_first(v) is Some,
        0 <= order.index_of_first(v)->0 < order.len(),
        order[order.index_of_first(v)->0] == v,
        forall|k: int| 0 <= k < order.index_of_first(v)->0 ==> order[k] != v,
{
    order.index_of_first_ensures(v);
}

/// A shuffle plays every track exactly once, whatever the seed, and opens with
/// the track that is playing.
pub proof fn shuffle_is_a_full_pass(len: nat, start: usize, seed: u64)
    requires
        len <= usize::MAX,
    ensures
        is_cycle(cycle_of(len, start, seed), len),
        start < len ==> cycle_of(len, start, seed)[0] == start,
{
    in_order_is_cycle(len);
    let order = fisher_yates(in_order(len), len - 1, seed | 1);
    fisher_yates_is_cycle(in_order(len), len - 1, seed | 1);
    if order.contains(start) {
        first_place(order, start);
        swapped_is_cycle(order, 0, order.index_of_first(start)->0);
    }
}

/// A shuffle cycle over `len` tracks: every index exactly once, in random
/// order, with `start` moved to the front so that the track playing right now
/// is not immediately replayed.
pub fn shuffled_indices(len: usize, start: usize, seed: u64) -> (r: Vec<usize>)
    ensures
        r@ == cycle_of(len as nat, start, seed),
        is_cycle(r@, len as nat),
        start < len ==> r@[0] == start,
{
    let mut order: Vec<usize> = Vec::new();
    let mut n: usize = 0;
    while n < len
        invariant
            n <= len,
            order@ == in_order(n as nat),
        decreases len - n,
    {
        order.push(n);
        n = n + 1;
        proof {
            assert(order@ =~= in_order(n as nat));
        }
    }
    let mut state: u64 = seed | 1;
    let ghost full = fisher_yates(in_order(len as nat), len - 1, seed | 1);
    let mut left: usize = len;
    proof {
        shuffle_is_a_full_pass(len as nat, start, seed);
    }
    while left > 1
        invariant
            left <= len,
            order@.len() == len,
            fisher_yates(order@, left - 1, state) == full,
        decreases left,
    {
        let i: usize = left - 1;
        let a: u64 = state ^ (state >> 12);
        let b: u64 = a ^ (a << 25);
        state = b ^ (b >> 27);
        let j: usize = (state.wrapping_mul(STREAM_FACTOR) as usize) % (i + 1);
        let ghost before = order@;
        let at_i: usize = order[i];
        let at_j: usize = order[j];
        order.set(i, at_j);
        order.set(j, at_i);
        proof {
            assert(order@ =~= swapped(before, i as int, j as int));
        }
        left = left - 1;
    }
    proof {
        assert(order@ == full);
    }
    let mut at: usize = 0;
    while at < len
        invariant
            at <= len,
            order@.len() == len,
            order@ == full,
            led_by(full, start) == cycle_of(len as nat, start, seed),
            is_cycle(cycle_of(len as nat, start, seed), len as nat),
            start < len ==> cycle_of(len as nat, start, seed)[0] == start,
            forall|k: int| 0 <= k < at ==> order@[k] != start,
        decreases len - at,
    {
        if order[at] == start {
            proof {
                first_place(order@, start);
            }
            let head: usize = order[0];
            order.set(0, start);
            order.set(at, head);
            proof {
                assert(order@ =~= swapped(full, 0, at as int));
            }
            return order;
        }
        at = at + 1;
    }
    proof {
        assert(!order@.contains(start));
    }
    order
}

// ── Going forward ───────────────────────────────────────────────────

/// The `k`-th place after `from` in a queue of `len`, going round once.
pub open spec fn round_place(len: nat, from: nat, k: int) -> int {
    if from >= len {
        k
    } else if from + 1 + k < len {
        from + 1 + k
    } else {
        from + 1 + k - len
    }
}

/// The places to try after the current one, in playback order, as pairs of a
/// place in the shuffle cycle and a place in the queue.
pub open spec fn candidates(
    queue_len: nat,
    queue_index: nat,
    order: Seq<usize>,
    pos: usize,
    shuffle: bool,
    repeat_queue: bool,
) -> Seq<(usize, usize)> {
    if queue_len == 0 {
        Seq::empty()
    } else if shuffle {
        Seq::new(
            if pos + 1 < order.len() {
                (order.len() - pos - 1) as nat
            } else {
                0
            },
            |k: int| ((pos + 1 + k) as usize, order[pos + 1 + k]),
        )
    } else if repeat_queue {
        Seq::new(
            (queue_len - 1) as nat,
            |k: int| (pos, round_place(queue_len, queue_index, k) as usize),
        )
    } else {
        Seq::new(
            if queue_index + 1 < queue_len {
                (queue_len - queue_index - 1) as nat
            } else {
                0
            },
            |k: int| (pos, (queue_index + 1 + k) as usize),
        )
    }
}

/// Queue positions to try after the current one, in playback order, as
/// `(shuffle_pos, queue_index)` pairs.
///
/// Shuffle walks the remainder of the current cycle; sequential playback walks
/// to the end of the queue and wraps once when repeat-all is on. The list is
/// always shorter than the queue, so scanning it always terminates.
pub fn forward_candidates(
    queue_len: usize,
    queue_index: usize,
    shuffle_order: &[usize],
    shuffle_pos: usize,
    shuffle: bool,
    repeat_queue: bool,
) -> (r: Vec<(usize, usize)>)
    requires
        shuffle && queue_len > 0 ==> shuffle_pos < usize::MAX,
        !shuffle && queue_len > 1 ==> queue_index < usize::MAX,
    ensures
        r@ == candidates(
            queue_len as nat,
            queue_index as nat,
            shuffle_order@,
            shuffle_pos,
            shuffle,
            repeat_queue,
        ),
{
    let mut out: Vec<(usize, usize)> = Vec::new();
    let ghost want = candidates(
        queue_len as nat,
        queue_index as nat,
        shuffle_order@,
        shuffle_pos,
        shuffle,
        repeat_queue,
    );
    if queue_len == 0 {
        return out;
    }
    if shuffle {
        let n: usize = shuffle_order.len();
        let mut at: usize = shuffle_pos + 1;
        while at < n
            invariant
                n == shuffle_order@.len(),
                shuffle_pos + 1 <= at,
                at <= n || at == shuffle_pos + 1,
                want.len() == (if shuffle_pos + 1 < n {
                    n - shuffle_pos - 1
                } else {
                    0
                }),
                out@.len() == at - shuffle_pos - 1,
                forall|k: int| 0 <= k < want.len() ==> #[trigger] want[k] == (
                    (shuffle_pos + 1 + k) as usize,
                    shuffle_order@[shuffle_pos + 1 + k],
                ),
                forall|k: int| 0 <= k < out@.len() ==> #[trigger] out@[k] == want[k],
            decreases n - at,
        {
            out.push((at, shuffle_order[at]));
            proof {
                assert(want[at - shuffle_pos - 1] == out@[at - shuffle_pos - 1]);
            }
            at = at + 1;
        }
        proof {
            assert(out@ =~= want);
        }
        return out;
    }
    let mut idx: usize = queue_index;
    let mut step: usize = 0;
    while step < queue_len - 1
        invariant
            0 < queue_len,
            step <= queue_len - 1,
            queue_len > 1 ==> queue_index < usize::MAX,
            out@.len() == step,
            idx == (if step == 0 {
                queue_index as int
            } else {
                round_place(queue_len as nat, queue_index as nat, step - 1)
            }),
            !repeat_queue ==> step == 0 || queue_index + step < queue_len,
            !shuffle,
            want == candidates(
                queue_len as nat,
                queue_index as nat,
                shuffle_order@,
                shuffle_pos,
                shuffle,
                repeat_queue,
            ),
            forall|k: int|
                0 <= k < step ==> #[trigger] out@[k] == (
                    shuffle_pos,
                    round_place(queue_len as nat, queue_index as nat, k) as usize,
                ),
        decreases queue_len - 1 - step,
    {
        let next: usize = idx + 1;
        if next >= queue_len {
            if repeat_queue {
                idx = 0;
            } else {
                proof {
                    assert(out@ =~= want);
                }
                return out;
            }
        } else {
            idx = next;
        }
        out.push((shuffle_pos, idx));
        step = step + 1;
    }
    proof {
        assert(out@ =~= want);
    }
    out
}

/// The way forward is shorter than the queue, stays inside it, and never comes
/// back to where it began.
pub proof fn candidates_end_before_the_queue(
    queue_len: nat,
    queue_index: nat,
    order: Seq<usize>,
    pos: usize,
    shuffle: bool,
    repeat_queue: bool,
    i: int,
)
    requires
        0 < queue_len <= usize::MAX,
        queue_index < queue_len,
        shuffle ==> is_cycle(order, queue_len) && order[pos as int] == queue_index && pos
            < queue_len,
    ensures
        candidates(queue_len, queue_index, order, pos, shuffle, repeat_queue).len() < queue_len,
        0 <= i < candidates(queue_len, queue_index, order, pos, shuffle, repeat_queue).len() ==> {
            let c = candidates(queue_len, queue_index, order, pos, shuffle, repeat_queue)[i];
            c.1 < queue_len && c.1 != queue_index
        },
{
}

/// No place is tried twice.
pub proof fn candidates_never_repeat(
    queue_len: nat,
    queue_index: nat,
    order: Seq<usize>,
    pos: usize,
    shuffle: bool,
    repeat_queue: bool,
    i: int,
    j: int,
)
    requires
        0 < queue_len <= usize::MAX,
        queue_index < queue_len,
        shuffle ==> is_cycle(order, queue_len),
        0 <= i < j < candidates(queue_len, queue_index, order, pos, shuffle, repeat_queue).len(),
    ensures
        candidates(queue_len, queue_index, order, pos, shuffle, repeat_queue)[i].1 != candidates(
            queue_len,
            queue_index,
            order,
            pos,
            shuffle,
            repeat_queue,
        )[j].1,
{
}

/// With repeat-all and no shuffle, every other place of the queue is tried.
pub proof fn repeat_all_tries_every_other_place(
    queue_len: nat,
    queue_index: nat,
    order: Seq<usize>,
    pos: usize,
    place: usize,
)
    requires
        0 < queue_len <= usize::MAX,
        queue_index < queue_len,
        place < queue_len,
        place != queue_index,
    ensures
        candidates(queue_len, queue_index, order, pos, false, true).contains((pos, place)),
{
    let c = candidates(queue_len, queue_index, order, pos, false, true);
    let k = if place > queue_index {
        place - queue_index - 1
    } else {
        place + queue_len - queue_index - 1
    };
    assert(c[k] == (pos, place));
}

// ── Keeping a cycle in step with the queue ──────────────────────────

/// A cycle over a longer queue: the old cycle, then the new places in order.
pub open spec fn extended(order: Seq<usize>, len: nat) -> Seq<usize> {
    order + Seq::new((len - order.len()) as nat, |k: int| (order.len() + k) as usize)
}

/// Lengthening a cycle gives a cycle over the longer queue.
pub proof fn extended_is_cycle(order: Seq<usize>, len: nat)
    requires
        is_cycle(order, order.len()),
        order.len() <= len <= usize::MAX,
    ensures
        is_cycle(extended(order, len), len),
        extended(order, len).take(order.len() as int) == order,
{
    let s = extended(order, len);
    assert(s.take(order.len() as int) =~= order);
    assert forall|v: usize| v < len implies #[trigger] s.contains(v) by {
        if v < order.len() {
            assert(order.contains(v));
            let k = choose|k: int| 0 <= k < order.len() && order[k] == v;
            assert(s[k] == v);
        } else {
            assert(s[v as int] == v);
        }
    }
}

/// Lengthens a cycle to a longer queue.
pub fn extend_cycle(order: &mut Vec<usize>, len: usize)
    requires
        old(order)@.len() <= len,
    ensures
        final(order)@ == extended(old(order)@, len as nat),
{
    let ghost before = order@;
    let mut n: usize = order.len();
    while n < len
        invariant
            before.len() <= n <= len,
            order@.len() == n,
            order@ =~= extended(before, n as nat),
        decreases len - n,
    {
        order.push(n);
        n = n + 1;
    }
}

// ── Chance and the way forward ──────────────────────────────────────

/// Chance decides: any of the places that are left can be the one that is picked.
pub proof fn any_place_can_be_picked(i: int, place: int)
    requires
        0 <= place <= i <= usize::MAX - 1,
        i <= u32::MAX,
    ensures
        exists|state: u64| #[trigger] picked(state, i) == place,
{
    let inverse: nat = 0x5907_1d96_d81e_cd35;
    let range: nat = 0x1_0000_0000_0000_0000;
    let state = ((place as nat * inverse) % range) as u64;
    let factor = STREAM_FACTOR as nat;
    assert(inverse * factor == 1 + 0x0cf6_5b3f_17bf_4a6b * range);
    vstd::arithmetic::div_mod::lemma_mul_mod_noop_left(
        place * inverse,
        factor as int,
        range as int,
    );
    assert(place * inverse * factor == place + (place * 0x0cf6_5b3f_17bf_4a6b) * range) by (nonlinear_arith)
        requires
            inverse * factor == 1 + 0x0cf6_5b3f_17bf_4a6b * range,
    ;
    vstd::arithmetic::div_mod::lemma_mod_multiples_vanish(
        place * 0x0cf6_5b3f_17bf_4a6b,
        place,
        range as int,
    );
    assert(range * (place * 0x0cf6_5b3f_17bf_4a6b) == (place * 0x0cf6_5b3f_17bf_4a6b) * range) by (nonlinear_arith);
    vstd::arithmetic::div_mod::lemma_small_mod(place as nat, range);
    assert((state as nat * factor) % range == place);
    assert(state.wrapping_mul(STREAM_FACTOR) == place);
    assert(place % (i + 1) == place) by (nonlinear_arith)
        requires
            0 <= place <= i,
    ;
    assert(picked(state, i) == place);
}

/// Places behind the ones that are shuffled stay as they are.
proof fn later_places_stay(order: Seq<usize>, i: int, seed: u64, k: int)
    requires
        i < k < order.len(),
    ensures
        fisher_yates(order, i, seed).len() == order.len(),
        fisher_yates(order, i, seed)[k] == order[k],
    decreases i,
{
    if i >= 1 {
        let state = stirred(seed);
        let j = picked(state, i);
        assert(0 <= j <= i) by (nonlinear_arith)
            requires
                j == (state.wrapping_mul(STREAM_FACTOR) as usize) as int % (i + 1),
                i >= 1,
        ;
        later_places_stay(swapped(order, i, j), i - 1, state, k);
    }
}

/// Every place of a shuffled order is filled by the pick among those that are left:
/// the last of them gets what stood at the place that was picked.
pub proof fn picks_fill_the_places(order: Seq<usize>, i: int, seed: u64)
    requires
        1 <= i < order.len(),
    ensures
        fisher_yates(order, i, seed)[i] == order[picked(stirred(seed), i)],
{
    let state = stirred(seed);
    let j = picked(state, i);
    assert(0 <= j <= i) by (nonlinear_arith)
        requires
            j == (state.wrapping_mul(STREAM_FACTOR) as usize) as int % (i + 1),
            i >= 1,
    ;
    later_places_stay(swapped(order, i, j), i - 1, state, i);
}

/// The way forward goes place by place: along the queue without shuffle, around it
/// once under repeat-all, and along the cycle with shuffle.
pub proof fn the_way_forward_goes_place_by_place(
    queue_len: nat,
    queue_index: nat,
    order: Seq<usize>,
    pos: usize,
    k: int,
)
    requires
        queue_index < queue_len <= usize::MAX,
        order.len() <= usize::MAX,
        k >= 0,
    ensures
        ({
            let plain = candidates(queue_len, queue_index, order, pos, false, false);
            let round = candidates(queue_len, queue_index, order, pos, false, true);
            let cycle = candidates(queue_len, queue_index, order, pos, true, false);
            &&& plain.len() == queue_len - queue_index - 1
            &&& k < plain.len() ==> plain[k].1 == queue_index + 1 + k && plain[k].0 == pos
            &&& round.len() == queue_len - 1
            &&& k < round.len() && queue_index + 1 + k < queue_len ==> round[k].1 == queue_index
                + 1 + k
            &&& k < round.len() && queue_index + 1 + k >= queue_len ==> round[k].1 == queue_index
                + 1 + k - queue_len
            &&& pos < order.len() ==> cycle.len() == order.len() - pos - 1
            &&& k < cycle.len() ==> cycle[k].0 == pos + 1 + k && cycle[k].1 == order[pos + 1 + k]
        }),
{
}

} // verus!
