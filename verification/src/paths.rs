//! The call-data heuristic: whether a front-run and a back-run trade the same
//! asset pair in reversed order.
//!
//! Call-data is kept as the hex characters of its textual form. The heuristic
//! does not decode the contract ABI; it assumes the swap path's last two token
//! slots sit at a fixed tail offset, each slot 32 bytes wide, i.e. 64 hex
//! characters.

use vstd::prelude::*;

verus! {

/// Width in hex characters of one 32-byte path slot.
pub const SLOT_WIDTH: usize = 64;

/// Shortest call-data that can carry any path information at all (a function
/// selector plus one 32-byte word); anything shorter is rejected outright.
pub const MIN_SWAP_DATA_LEN: usize = 74;

/// The last 64 hex characters of a call-data string: the final path slot.
pub open spec fn last_slot(data: Seq<u8>) -> Seq<u8>
    recommends
        data.len() >= SLOT_WIDTH,
{
    data.subrange(data.len() - SLOT_WIDTH, data.len() as int)
}

/// The 64 hex characters before the last slot: the second-to-last path slot.
pub open spec fn second_last_slot(data: Seq<u8>) -> Seq<u8>
    recommends
        data.len() >= 2 * SLOT_WIDTH,
{
    data.subrange(data.len() - 2 * SLOT_WIDTH, data.len() - SLOT_WIDTH)
}

/// Whether the two final path slots of the front-run call-data equal the two
/// final path slots of the back-run call-data in reversed order, modeling an
/// A->B swap followed by a B->A swap. Call-data too short to hold the guard
/// minimum, or to hold two whole slots, never matches.
pub open spec fn paths_reverse(front: Seq<u8>, back: Seq<u8>) -> bool {
    &&& front.len() >= MIN_SWAP_DATA_LEN
    &&& back.len() >= MIN_SWAP_DATA_LEN
    &&& front.len() >= 2 * SLOT_WIDTH
    &&& back.len() >= 2 * SLOT_WIDTH
    &&& second_last_slot(front) == last_slot(back)
    &&& last_slot(front) == second_last_slot(back)
}

/// Compares `n` bytes of `a` starting at `a_start` with `n` bytes of `b`
/// starting at `b_start`.
fn ranges_equal(a: &Vec<u8>, a_start: usize, b: &Vec<u8>, b_start: usize, n: usize) -> (r: bool)
    requires
        a_start + n <= a@.len(),
        b_start + n <= b@.len(),
    ensures
        r == (a@.subrange(a_start as int, a_start + n) == b@.subrange(
            b_start as int,
            b_start + n,
        )),
{
    let ghost sub_a = a@.subrange(a_start as int, a_start + n);
    let ghost sub_b = b@.subrange(b_start as int, b_start + n);
    let a_len = a.len();
    let b_len = b.len();
    let mut i: usize = 0;
    while i < n
        invariant
            i <= n,
            a_start + n <= a_len == a@.len(),
            b_start + n <= b_len == b@.len(),
            sub_a == a@.subrange(a_start as int, a_start + n),
            sub_b == b@.subrange(b_start as int, b_start + n),
            forall|t: int| 0 <= t < i ==> #[trigger] a@[a_start + t] == b@[b_start + t],
        decreases n - i,
    {
        if a[a_start + i] != b[b_start + i] {
            proof {
                assert(sub_a[i as int] == a@[a_start + i]);
                assert(sub_b[i as int] == b@[b_start + i]);
            }
            return false;
        }
        i += 1;
    }
    proof {
        assert forall|t: int| 0 <= t < n implies sub_a[t] == sub_b[t] by {
            assert(a@[a_start + t] == b@[b_start + t]);
            assert(sub_a[t] == a@[a_start + t]);
            assert(sub_b[t] == b@[b_start + t]);
        }
        assert(sub_a =~= sub_b);
    }
    true
}

/// Whether the tail token slots of a front-run and a back-run call-data form
/// an A->B, B->A round trip.
pub fn a_b_a_path_matches(frontrun_data: &Vec<u8>, backrun_data: &Vec<u8>) -> (r: bool)
    ensures
        r == paths_reverse(frontrun_data@, backrun_data@),
{
    if frontrun_data.len() < MIN_SWAP_DATA_LEN || backrun_data.len() < MIN_SWAP_DATA_LEN {
        return false;
    }
    if frontrun_data.len() < 2 * SLOT_WIDTH || backrun_data.len() < 2 * SLOT_WIDTH {
        return false;
    }
    let flen = frontrun_data.len();
    let blen = backrun_data.len();
    let straight = ranges_equal(
        frontrun_data,
        flen - 2 * SLOT_WIDTH,
        backrun_data,
        blen - SLOT_WIDTH,
        SLOT_WIDTH,
    );
    let crossed = ranges_equal(
        frontrun_data,
        flen - SLOT_WIDTH,
        backrun_data,
        blen - 2 * SLOT_WIDTH,
        SLOT_WIDTH,
    );
    straight && crossed
}

} // verus!
