use vstd::prelude::*;

verus! {

/// Number of buckets of the rewards program (buckets `0 ..= 10`).
pub const BUCKET_COUNT: usize = 11;

/// Number of entries of the mining-ratio table (one per bucket).
pub const MINING_RATIO_COUNT: u32 = 11;

/// The streak threshold of bucket `i`: a streak must exceed it to reach the bucket.
pub open spec fn threshold(i: int) -> int {
    if i == 0 {
        0
    } else if i == 1 {
        3
    } else if i == 2 {
        5
    } else if i == 3 {
        10
    } else if i == 4 {
        20
    } else if i == 5 {
        30
    } else if i == 6 {
        40
    } else if i == 7 {
        50
    } else if i == 8 {
        60
    } else if i == 9 {
        70
    } else {
        80
    }
}

/// The bucket of a streak: the highest bucket whose threshold the streak exceeds,
/// and bucket 0 when it exceeds none.
pub open spec fn bucket_of(streak: int) -> int {
    if threshold(10) < streak {
        10
    } else if threshold(9) < streak {
        9
    } else if threshold(8) < streak {
        8
    } else if threshold(7) < streak {
        7
    } else if threshold(6) < streak {
        6
    } else if threshold(5) < streak {
        5
    } else if threshold(4) < streak {
        4
    } else if threshold(3) < streak {
        3
    } else if threshold(2) < streak {
        2
    } else if threshold(1) < streak {
        1
    } else {
        0
    }
}

/// The first streak (counted from 0) that falls into bucket `b`.
pub open spec fn first_streak_of(b: int) -> int {
    if b == 0 {
        0
    } else {
        threshold(b) + 1
    }
}

/// The entry of the mining-ratio table that applies to `bucket`: buckets past
/// the table use its last entry.
pub open spec fn mining_ratio_index_of(bucket: int) -> int {
    if bucket > MINING_RATIO_COUNT {
        MINING_RATIO_COUNT - 1
    } else {
        bucket
    }
}

/// The threshold table as an executable lookup.
fn bucket_threshold(i: usize) -> (t: u32)
    requires
        i < BUCKET_COUNT,
    ensures
        t == threshold(i as int),
{
    match i {
        0 => 0,
        1 => 3,
        2 => 5,
        3 => 10,
        4 => 20,
        5 => 30,
        6 => 40,
        7 => 50,
        8 => 60,
        9 => 70,
        _ => 80,
    }
}

#[derive(Default)]
pub struct RewardsProgram {}

impl RewardsProgram {
    /// Picks the mining-ratio table entry for a bucket. Bucket 11 lies past the
    /// table without being clamped, so it is no valid input.
    pub fn mining_ratio_index(bucket: u32) -> (index: usize)
        requires
            bucket != MINING_RATIO_COUNT,
        ensures
            index == mining_ratio_index_of(bucket as int),
            index < BUCKET_COUNT,
    {
        if bucket > MINING_RATIO_COUNT {
            return (MINING_RATIO_COUNT - 1) as usize;
        }
        bucket as usize
    }

    /// The bucket that a streak of `streak` days has reached.
    pub fn find_bucket(streak: u32) -> (bucket: u32)
        ensures
            bucket == bucket_of(streak as int),
            bucket < BUCKET_COUNT,
            bucket == 0 || threshold(bucket as int) < streak,
            bucket == 10 || streak <= threshold(bucket + 1),
    {
        let mut i: usize = BUCKET_COUNT;
        while i > 0
            invariant
                i <= BUCKET_COUNT,
                forall|j: int| i <= j < BUCKET_COUNT ==> !(threshold(j) < streak),
            decreases i,
        {
            i = i - 1;
            if bucket_threshold(i) < streak {
                return i as u32;
            }
        }
        0
    }

    /// The first streak that belongs to `bucket`: where a streak is realigned to
    /// when it falls back into that bucket, and where the next level starts.
    pub fn find_streak_bucket(bucket: u32) -> (streak: u32)
        requires
            bucket < BUCKET_COUNT,
        ensures
            streak == first_streak_of(bucket as int),
    {
        if bucket == 0 {
            0
        } else {
            bucket_threshold(bucket as usize) + 1
        }
    }
}

/// The bucket of a streak never leaves the table and never goes down when the
/// streak grows.
pub proof fn law_bucket_monotone(s1: int, s2: int)
    requires
        s1 <= s2,
    ensures
        0 <= bucket_of(s1) <= bucket_of(s2) <= 10,
{
}

/// The first streak of a bucket lies in that bucket, and every smaller
/// non-negative streak lies in a lower bucket.
pub proof fn law_first_streak_of_bucket(b: int)
    requires
        0 <= b < BUCKET_COUNT,
    ensures
        first_streak_of(b) >= 0,
        bucket_of(first_streak_of(b)) == b,
        forall|s: int| 0 <= s < first_streak_of(b) ==> #[trigger] bucket_of(s) < b,
{
}

/// The streak thresholds of the buckets 0 to 10, as the rewards program
/// publishes them.
pub open spec fn threshold_table() -> Seq<int> {
    seq![0, 3, 5, 10, 20, 30, 40, 50, 60, 70, 80]
}

/// The thresholds are those of the published table, and every streak lies
/// in exactly the bucket whose threshold it exceeds and whose next threshold
/// it does not exceed (a streak of 30 in bucket 4, one of 31 in bucket 5);
/// the first streak of a bucket is one past its threshold (0 for bucket 0).
pub proof fn law_bucket_table(s: int)
    ensures
        forall|i: int| 0 <= i < 11 ==> #[trigger] threshold(i) == threshold_table()[i],
        0 <= bucket_of(s) <= 10,
        bucket_of(s) == 0 || threshold_table()[bucket_of(s)] < s,
        bucket_of(s) == 10 || s <= threshold_table()[bucket_of(s) + 1],
        forall|b: int|
            #![trigger threshold_table()[b]]
            0 <= b <= 10 && (b == 0 || threshold_table()[b] < s) && (b == 10 || s
                <= threshold_table()[b + 1]) ==> b == bucket_of(s),
        forall|b: int|
            0 < b <= 10 ==> #[trigger] first_streak_of(b) == threshold_table()[b] + 1,
        first_streak_of(0) == 0,
        bucket_of(30) == 4,
        bucket_of(31) == 5,
{
    let t = threshold_table();
    assert(t[0] == 0 && t[1] == 3 && t[2] == 5 && t[3] == 10 && t[4] == 20 && t[5] == 30);
    assert(t[6] == 40 && t[7] == 50 && t[8] == 60 && t[9] == 70 && t[10] == 80);
}

/// A bucket of the table mines at its own entry of the mining-ratio table;
/// only buckets past the table (12 and up) use its last entry.
pub proof fn law_mining_ratio_index(b: int)
    ensures
        0 <= b <= 10 ==> mining_ratio_index_of(b) == b,
        b > 11 ==> mining_ratio_index_of(b) == 10,
{
}

} // verus!
