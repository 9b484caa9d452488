use vstd::prelude::*;

verus! {

/// The largest value of partition time, in nanoseconds.
pub const MAX_SYSTEM_TIME: i64 = 9223372036854775807;

/// The partition time for `elapsed` nanoseconds since the partition started:
/// the elapsed time, held to the range that partition time can represent.
pub open spec fn clamp_time(elapsed: u128) -> i64 {
    if elapsed > MAX_SYSTEM_TIME as u128 {
        MAX_SYSTEM_TIME
    } else {
        elapsed as i64
    }
}

/// Turns the nanoseconds elapsed since the partition started into partition
/// time; it never leaves `[0, MAX_SYSTEM_TIME]`, also where the elapsed time
/// is larger.
pub fn get_time(elapsed: u128) -> (r: i64)
    ensures
        r == clamp_time(elapsed),
        0 <= r <= MAX_SYSTEM_TIME,
        elapsed <= MAX_SYSTEM_TIME ==> r == elapsed,
        elapsed > MAX_SYSTEM_TIME ==> r == MAX_SYSTEM_TIME,
{
    if elapsed > MAX_SYSTEM_TIME as u128 {
        MAX_SYSTEM_TIME
    } else {
        elapsed as i64
    }
}

} // verus!
