//! The three search strategies over a descending record table: the naive
//! bisection, the midpoint binary search that also reports an insertion
//! point, and interpolation search with a bisection fallback.
use vstd::prelude::*;

use crate::layout::{
    absent, hash_at, is_hash_lookup, is_insertion_point, is_position, read_slot, slot_at,
    strictly_descending, table_end, table_fits, Slot,
};

verus! {

/// `r` answers a search for `target` among the first `n` records: the
/// index of the record that holds it, or the insertion point when none does.
pub open spec fn is_search_result(
    s: Seq<u8>,
    n: int,
    target: int,
    r: Result<usize, usize>,
) -> bool {
    match r {
        Ok(i) => i < n && slot_at(s, i as int) == target,
        Err(p) => is_insertion_point(s, n, target, p as int),
    }
}

/// The found index of a search result, dropping the insertion point.
pub open spec fn found_index(r: Result<usize, usize>) -> Option<usize> {
    match r {
        Ok(i) => Some(i),
        Err(_) => None,
    }
}

/// The floor of the base-two logarithm, with `log2(0) == 0`.
pub open spec fn log2(x: nat) -> nat
    decreases x,
{
    if x <= 1 {
        0
    } else {
        1 + log2(x / 2)
    }
}

/// The step bound of interpolation search over `n` records.
pub open spec fn interpolation_step_bound(n: nat) -> nat {
    2 * log2(n) + 2
}

/// The logarithm does not decrease.
proof fn lemma_log2_monotone(a: nat, b: nat)
    requires
        a <= b,
    ensures
        log2(a) <= log2(b),
    decreases b,
{
    if a > 1 {
        lemma_log2_monotone(a / 2, b / 2);
    }
}

/// The logarithm stays below its argument.
proof fn lemma_log2_below(x: nat)
    ensures
        log2(x) <= x,
    decreases x,
{
    if x > 1 {
        lemma_log2_below(x / 2);
    }
}

/// A range of at most half the size has a smaller logarithm.
proof fn lemma_log2_halving(small: nat, size: nat)
    requires
        1 <= small,
        small <= size / 2,
    ensures
        log2(small) + 1 <= log2(size),
{
    lemma_log2_monotone(small, size / 2);
}

/// Under strict descent, a record holding `target` is unique.
pub proof fn lemma_slot_unique(s: Seq<u8>, n: int, target: int, i: int, j: int)
    requires
        strictly_descending(s, n),
        0 <= i < n,
        0 <= j < n,
        slot_at(s, i) == target,
        slot_at(s, j) == target,
    ensures
        i == j,
{
    if i < j {
        assert(slot_at(s, i) > slot_at(s, j));
    } else if j < i {
        assert(slot_at(s, j) > slot_at(s, i));
    }
}

/// On a strictly descending table, there is one answer to where a slot
/// stands: any two results that meet the position contract are equal.
pub proof fn lemma_position_unique(
    s: Seq<u8>,
    n: int,
    target: int,
    a: Option<usize>,
    b: Option<usize>,
)
    requires
        strictly_descending(s, n),
        is_position(s, n, target, a),
        is_position(s, n, target, b),
    ensures
        a == b,
{
    match (a, b) {
        (Some(i), Some(j)) => lemma_slot_unique(s, n, target, i as int, j as int),
        (Some(i), None) => assert(slot_at(s, i as int) != target),
        (None, Some(j)) => assert(slot_at(s, j as int) != target),
        (None, None) => {},
    }
}

/// A midpoint search result names the position of its target.
pub proof fn lemma_search_result_position(s: Seq<u8>, n: int, target: int, r: Result<usize, usize>)
    requires
        is_search_result(s, n, target, r),
    ensures
        is_position(s, n, target, found_index(r)),
{
    if let Err(p) = r {
        assert forall|i: int| 0 <= i < n implies #[trigger] slot_at(s, i) != target by {
            if i < p {
                assert(slot_at(s, i) > target);
            } else {
                assert(slot_at(s, i) < target);
            }
        }
    }
}

/// On a strictly descending table the naive bisection, interpolation search
/// and midpoint binary search agree: the same found index, or all absent.
pub proof fn lemma_algorithms_agree(
    s: Seq<u8>,
    n: int,
    target: int,
    naive: Option<usize>,
    interpolated: Option<usize>,
    midpoint: Result<usize, usize>,
)
    requires
        strictly_descending(s, n),
        is_position(s, n, target, naive),
        is_position(s, n, target, interpolated),
        is_search_result(s, n, target, midpoint),
    ensures
        naive == interpolated,
        interpolated == found_index(midpoint),
{
    lemma_position_unique(s, n, target, naive, interpolated);
    lemma_search_result_position(s, n, target, midpoint);
    lemma_position_unique(s, n, target, interpolated, found_index(midpoint));
}

/// Every record of a strictly descending table is found at its own index.
pub proof fn lemma_position_round_trip(s: Seq<u8>, n: int, i: int, r: Option<usize>)
    requires
        strictly_descending(s, n),
        0 <= i < n,
        is_position(s, n, slot_at(s, i), r),
    ensures
        r == Some(i as usize),
{
    lemma_position_unique(s, n, slot_at(s, i), r, Some(i as usize));
}

/// The hash lookup of the slot of any record of a strictly descending table
/// yields that record's hash.
pub proof fn lemma_hash_round_trip(s: Seq<u8>, n: int, i: int, r: Option<[u8; 32]>)
    requires
        strictly_descending(s, n),
        0 <= i < n,
        is_hash_lookup(s, n, slot_at(s, i), r),
    ensures
        r matches Some(h) && h@ == hash_at(s, i),
{
    assert(slot_at(s, i) == slot_at(s, i));
    if let Some(h) = r {
        let j = choose|j: int| 0 <= j < n && #[trigger] slot_at(s, j) == slot_at(s, i) && h@ == hash_at(s, j);
        lemma_slot_unique(s, n, slot_at(s, i), i, j);
    }
}

/// A target above the first slot or below the last one is not found by any
/// of the searches, nor by a hash lookup.
pub proof fn lemma_out_of_range_not_found(
    s: Seq<u8>,
    n: int,
    target: int,
    position: Option<usize>,
    midpoint: Result<usize, usize>,
    hash: Option<[u8; 32]>,
)
    requires
        strictly_descending(s, n),
        0 < n,
        target > slot_at(s, 0) || target < slot_at(s, n - 1),
        is_position(s, n, target, position),
        is_search_result(s, n, target, midpoint),
        is_hash_lookup(s, n, target, hash),
    ensures
        position is None,
        midpoint is Err,
        hash is None,
{
    lemma_out_of_range_absent(s, n, target);
    if let Some(i) = position {
        assert(slot_at(s, i as int) != target);
    }
    if let Ok(i) = midpoint {
        assert(slot_at(s, i as int) != target);
    }
    if let Some(h) = hash {
        let j = choose|j: int| 0 <= j < n && #[trigger] slot_at(s, j) == target && h@ == hash_at(s, j);
        assert(slot_at(s, j) != target);
    }
}

/// A target above the first slot or below the last one is absent.
pub proof fn lemma_out_of_range_absent(s: Seq<u8>, n: int, target: int)
    requires
        strictly_descending(s, n),
        0 < n,
        target > slot_at(s, 0) || target < slot_at(s, n - 1),
    ensures
        absent(s, n, target),
{
    assert forall|i: int| 0 <= i < n implies #[trigger] slot_at(s, i) != target by {
        if 0 < i {
            assert(slot_at(s, 0) > slot_at(s, i));
        }
        if i < n - 1 {
            assert(slot_at(s, i) > slot_at(s, n - 1));
        }
    }
}

/// The records before `low` hold larger slots than `target`, and those
/// from `high` on smaller ones: only `[low, high)` can still hold it.
pub open spec fn brackets(s: Seq<u8>, n: int, target: int, low: int, high: int) -> bool {
    &&& forall|i: int| 0 <= i < low ==> #[trigger] slot_at(s, i) > target
    &&& forall|i: int| high <= i < n ==> #[trigger] slot_at(s, i) < target
}

/// A probe that misses narrows the bracket: to its left when its slot is
/// smaller than `target`, to its right when larger.
pub proof fn lemma_narrow(s: Seq<u8>, n: int, target: int, low: int, high: int, probe: int)
    requires
        strictly_descending(s, n),
        brackets(s, n, target, low, high),
        0 <= low <= probe < high <= n,
        slot_at(s, probe) != target,
    ensures
        slot_at(s, probe) < target ==> brackets(s, n, target, low, probe),
        slot_at(s, probe) > target ==> brackets(s, n, target, probe + 1, high),
{
    if slot_at(s, probe) < target {
        assert forall|i: int| probe <= i < n implies #[trigger] slot_at(s, i) < target by {
            if probe < i {
                assert(slot_at(s, probe) > slot_at(s, i));
            }
        }
    } else {
        assert forall|i: int| 0 <= i < probe + 1 implies #[trigger] slot_at(s, i) > target by {
            if i < probe {
                assert(slot_at(s, i) > slot_at(s, probe));
            }
        }
    }
}

/// Midpoint binary search over the first `n` records, which must lie in
/// `data`. Returns `Ok` with the index of the record that holds `target`, or
/// `Err` with the insertion point that keeps the table descending.
pub fn binary_search(data: &[u8], n: usize, target: Slot) -> (r: Result<usize, usize>)
    requires
        table_fits(data@, n as int),
    ensures
        r matches Ok(i) ==> i < n && slot_at(data@, i as int) == target,
        r matches Err(p) ==> p <= n,
        strictly_descending(data@, n as int) ==> is_search_result(
            data@,
            n as int,
            target as int,
            r,
        ),
{
    let ghost s = data@;
    let mut low: usize = 0;
    let mut high: usize = n;
    while low < high
        invariant
            s == data@,
            table_fits(s, n as int),
            low <= high <= n,
            strictly_descending(s, n as int) ==> brackets(
                s,
                n as int,
                target as int,
                low as int,
                high as int,
            ),
        decreases high - low,
    {
        let mid = low + (high - low) / 2;
        let mid_slot = read_slot(data, mid);
        proof {
            if strictly_descending(s, n as int) && mid_slot != target {
                lemma_narrow(s, n as int, target as int, low as int, high as int, mid as int);
            }
        }
        if mid_slot == target {
            return Ok(mid);
        } else if mid_slot < target {
            high = mid;
        } else {
            low = mid + 1;
        }
    }
    Err(low)
}

/// Naive bisection over the first `n` records, which must lie in `data`:
/// the index of the record that holds `target`, if any.
pub fn position_naive(data: &[u8], n: usize, target: Slot) -> (r: Option<usize>)
    requires
        table_fits(data@, n as int),
    ensures
        r matches Some(i) ==> i < n && slot_at(data@, i as int) == target,
        strictly_descending(data@, n as int) ==> is_position(data@, n as int, target as int, r),
{
    if n == 0 {
        return None;
    }
    let ghost s = data@;
    let mut low: usize = 0;
    let mut high: usize = n;
    let mut found: Option<usize> = None;
    while low < high
        invariant_except_break
            found is None,
        invariant
            s == data@,
            table_fits(s, n as int),
            low <= high <= n,
            strictly_descending(s, n as int) ==> brackets(
                s,
                n as int,
                target as int,
                low as int,
                high as int,
            ),
        ensures
            found matches Some(i) ==> i < n && slot_at(s, i as int) == target,
            found is None ==> low >= high,
        decreases high - low,
    {
        let mid = low + (high - low) / 2;
        let mid_slot = read_slot(data, mid);
        proof {
            if strictly_descending(s, n as int) && mid_slot != target {
                lemma_narrow(s, n as int, target as int, low as int, high as int, mid as int);
            }
        }
        if mid_slot == target {
            found = Some(mid);
            break;
        } else if mid_slot < target {
            high = mid;
        } else {
            low = mid + 1;
        }
    }
    found
}

/// The proportional probe: where `target` would stand in `[low, high)` if the
/// slots fell evenly from `first` (at `low`) to `last` (at `high - 1`).
pub fn interpolation_probe(
    first: Slot,
    last: Slot,
    target: Slot,
    low: usize,
    high: usize,
) -> (r: usize)
    requires
        last < first,
        last <= target <= first,
        low < high,
    ensures
        low <= r < high,
        r == low + ((first - target) * (high - 1 - low)) / ((first - last) as int),
{
    let span = (high - 1 - low) as u128;
    let above = (first - target) as u128;
    let range = (first - last) as u128;
    proof {
        assert(above * span <= range * span) by (nonlinear_arith)
            requires
                above <= range,
        ;
        assert(above * span < 0x1_0000_0000_0000_0000_0000_0000_0000_0000) by (nonlinear_arith)
            requires
                above < 0x1_0000_0000_0000_0000,
                span < 0x1_0000_0000_0000_0000,
        ;
        assert((above * span) / (range as int) <= span) by (nonlinear_arith)
            requires
                above * span <= range * span,
                0 < range,
        ;
    }
    let offset = (above * span / range) as usize;
    low + offset
}

/// What an interpolation search found, and how many probes it made.
#[derive(Clone, Copy, Debug, PartialEq, Eq)]
pub struct InterpolationOutcome {
    pub position: Option<usize>,
    pub steps: usize,
}

/// The step accounting of interpolation search: a proportional probe never
/// grows the range, and a midpoint probe at least halves it.
proof fn lemma_step_budget(n: nat, steps: nat, size: nat, new_size: nat)
    requires
        1 <= size,
        steps + 2 * log2(size) <= 2 * log2(n) + steps % 2,
        new_size < size,
        steps % 2 == 1 ==> new_size <= size / 2,
    ensures
        new_size >= 1 ==> (steps + 1) + 2 * log2(new_size) <= 2 * log2(n) + (steps + 1) % 2,
        new_size == 0 ==> steps + 1 <= interpolation_step_bound(n),
{
    if steps % 2 == 1 && new_size >= 1 {
        lemma_log2_halving(new_size, size);
    } else {
        lemma_log2_monotone(new_size, size);
    }
}

/// Picks the next probe in `[low, high)`: the midpoint when `bisect`, else
/// the proportional estimate (the midpoint on a degenerate range). `None`
/// when `target` lies outside the boundary slots of the range.
fn next_probe(
    data: &[u8],
    n: usize,
    low: usize,
    high: usize,
    target: Slot,
    bisect: bool,
) -> (r: Option<usize>)
    requires
        table_fits(data@, n as int),
        low < high <= n,
    ensures
        r matches Some(p) ==> low <= p < high && (bisect ==> p == low + (high - low) / 2),
        r is None ==> !bisect,
        r is None && strictly_descending(data@, n as int) ==> forall|i: int|
            low <= i < high ==> #[trigger] slot_at(data@, i) != target,
{
    if bisect {
        return Some(low + (high - low) / 2);
    }
    let first = read_slot(data, low);
    let last = read_slot(data, high - 1);
    if target > first || target < last {
        proof {
            let s = data@;
            if strictly_descending(s, n as int) {
                assert forall|i: int| low <= i < high implies #[trigger] slot_at(s, i) != target by {
                    if low < i {
                        assert(slot_at(s, low as int) > slot_at(s, i));
                    }
                    if i < high - 1 {
                        assert(slot_at(s, i) > slot_at(s, high - 1));
                    }
                }
            }
        }
        return None;
    }
    if last < first {
        Some(interpolation_probe(first, last, target, low, high))
    } else {
        Some(low + (high - low) / 2)
    }
}

/// Interpolation search over the first `n` records, which must lie in
/// `data`. Probes alternate between the proportional estimate and the
/// midpoint, so the search ends within `2 * log2(n) + 2` probes whatever the
/// distribution of the slots; a degenerate range (equal boundary slots) is
/// bisected.
pub fn interpolation_search(data: &[u8], n: usize, target: Slot) -> (r: InterpolationOutcome)
    requires
        table_fits(data@, n as int),
    ensures
        r.position matches Some(i) ==> i < n && slot_at(data@, i as int) == target,
        strictly_descending(data@, n as int) ==> is_position(
            data@,
            n as int,
            target as int,
            r.position,
        ),
        r.steps <= interpolation_step_bound(n as nat),
{
    let ghost s = data@;
    proof {
        lemma_log2_below(n as nat);
        assert(table_end(n as int) <= data.len());
    }
    let mut low: usize = 0;
    let mut high: usize = n;
    let mut steps: usize = 0;
    while low < high
        invariant
            s == data@,
            table_fits(s, n as int),
            low <= high <= n,
            interpolation_step_bound(n as nat) < usize::MAX,
            steps <= interpolation_step_bound(n as nat),
            high - low >= 1 ==> steps + 2 * log2((high - low) as nat) <= 2 * log2(n as nat) + steps % 2,
            strictly_descending(s, n as int) ==> brackets(
                s,
                n as int,
                target as int,
                low as int,
                high as int,
            ),
        decreases high - low,
    {
        let ghost size = (high - low) as nat;
        let bisect = steps % 2 == 1;
        let probe = match next_probe(data, n, low, high, target, bisect) {
            Some(p) => p,
            None => {
                return InterpolationOutcome { position: None, steps };
            },
        };
        let ghost old_steps = steps as nat;
        steps = steps + 1;
        let probe_slot = read_slot(data, probe);
        proof {
            if strictly_descending(s, n as int) && probe_slot != target {
                lemma_narrow(s, n as int, target as int, low as int, high as int, probe as int);
            }
        }
        if probe_slot == target {
            return InterpolationOutcome { position: Some(probe), steps };
        } else if probe_slot < target {
            high = probe;
        } else {
            low = probe + 1;
        }
        proof {
            lemma_step_budget(n as nat, old_steps, size, (high - low) as nat);
        }
    }
    InterpolationOutcome { position: None, steps }
}

/// Interpolation search over the first `n` records: the index of the record
/// that holds `target`, if any.
pub fn position_interpolated(data: &[u8], n: usize, target: Slot) -> (r: Option<usize>)
    requires
        table_fits(data@, n as int),
    ensures
        r matches Some(i) ==> i < n && slot_at(data@, i as int) == target,
        strictly_descending(data@, n as int) ==> is_position(data@, n as int, target as int, r),
{
    interpolation_search(data, n, target).position
}

} // verus!
