use vstd::prelude::*;
use core::ops::Range;

verus! {

/// The capacity a GPU buffer takes to hold `required` bytes: its own when
/// that is enough, else twice its own, or `required` when that is more.
pub open spec fn grown_capacity_spec(capacity: u64, required: u64) -> int {
    if capacity >= required {
        capacity as int
    } else if 2 * capacity >= required {
        2 * capacity
    } else {
        required as int
    }
}

/// The new capacity of a buffer that must hold `required` bytes.
pub fn grown_capacity(capacity: u64, required: u64) -> (r: u64)
    requires
        capacity < required ==> 2 * capacity <= u64::MAX,
    ensures
        r == grown_capacity_spec(capacity, required),
        capacity >= required ==> r == capacity,
        capacity < required ==> r >= required && r >= 2 * capacity && (r == required || r == 2 * capacity),
{
    if capacity < required {
        let doubled = capacity * 2;
        if doubled >= required {
            doubled
        } else {
            required
        }
    } else {
        capacity
    }
}

/// A buffer that is big enough keeps its capacity; one that is too small
/// grows to the larger of twice its capacity and what is required, so it
/// then holds what is required.
pub proof fn lemma_grown_capacity(capacity: u64, required: u64)
    ensures
        capacity >= required ==> grown_capacity_spec(capacity, required) == capacity,
        capacity < required ==> grown_capacity_spec(capacity, required) >= required,
        capacity < required ==> grown_capacity_spec(capacity, required) >= 2 * capacity,
        capacity < required ==> grown_capacity_spec(capacity, required) == required
            || grown_capacity_spec(capacity, required) == 2 * capacity,
{
}

/// Where the data of item `i` starts when items of `lens[0]`, `lens[1]`, ...
/// elements of `elem_size` bytes each are laid one after the other from 0.
pub open spec fn byte_offset(lens: Seq<usize>, elem_size: nat, i: int) -> int
    decreases i,
{
    if i <= 0 {
        0
    } else {
        byte_offset(lens, elem_size, i - 1) + lens[i - 1] * elem_size
    }
}

/// Offsets only grow, from 0.
proof fn lemma_offset_grows(lens: Seq<usize>, elem_size: nat, i: int, j: int)
    requires
        0 <= i <= j,
    ensures
        0 <= byte_offset(lens, elem_size, i) <= byte_offset(lens, elem_size, j),
    decreases j,
{
    if j > 0 {
        let p = lens[j - 1] * elem_size;
        assert(p >= 0) by (nonlinear_arith)
            requires
                p == lens[j - 1] * elem_size,
                lens[j - 1] >= 0,
        ;
        if i < j {
            lemma_offset_grows(lens, elem_size, i, j - 1);
        } else {
            lemma_offset_grows(lens, elem_size, j - 1, j - 1);
        }
    }
}

/// The byte ranges of the items in one buffer: item `i` has `lens[i]`
/// elements of `elem_size` bytes, and the items lie one after the other
/// from byte 0.
pub fn buffer_slices(lens: &[usize], elem_size: usize) -> (r: Vec<Range<usize>>)
    requires
        byte_offset(lens@, elem_size as nat, lens@.len() as int) <= usize::MAX,
    ensures
        r@.len() == lens@.len(),
        forall|i: int|
            0 <= i < r@.len() ==> #[trigger] r@[i].start == byte_offset(lens@, elem_size as nat, i)
                && r@[i].end == byte_offset(lens@, elem_size as nat, i + 1),
{
    let ghost n = lens@.len() as int;
    let mut out: Vec<Range<usize>> = Vec::new();
    let mut offset: usize = 0;
    let mut i: usize = 0;
    while i < lens.len()
        invariant
            n == lens@.len(),
            i <= n,
            offset == byte_offset(lens@, elem_size as nat, i as int),
            out@.len() == i,
            byte_offset(lens@, elem_size as nat, n) <= usize::MAX,
            forall|j: int|
                0 <= j < i ==> #[trigger] out@[j].start == byte_offset(lens@, elem_size as nat, j)
                    && out@[j].end == byte_offset(lens@, elem_size as nat, j + 1),
        decreases n - i,
    {
        proof {
            lemma_offset_grows(lens@, elem_size as nat, i as int, i + 1);
            lemma_offset_grows(lens@, elem_size as nat, i + 1, n);
            assert(byte_offset(lens@, elem_size as nat, i + 1) == offset + lens@[i as int] * elem_size);
        }
        let size = lens[i] * elem_size;
        let end = offset + size;
        let ghost before = out@;
        out.push(Range { start: offset, end });
        proof {
            assert forall|j: int| 0 <= j < i + 1 implies #[trigger] out@[j].start == byte_offset(
                lens@,
                elem_size as nat,
                j,
            ) && out@[j].end == byte_offset(lens@, elem_size as nat, j + 1) by {
                if j < i {
                    assert(out@[j] == before[j]);
                }
            }
        }
        offset = end;
        i = i + 1;
    }
    out
}

} // verus!
