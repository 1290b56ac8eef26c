//! How many points the cursor trail keeps: at most the configured number,
//! the newest ones, in the order they were added.

use vstd::prelude::*;

verus! {

/// The newest `max_points` of `points`, oldest first; all of them where
/// there are no more.
pub open spec fn newest<T>(points: Seq<T>, max_points: nat) -> Seq<T> {
    if points.len() <= max_points {
        points
    } else {
        points.subrange(points.len() - max_points, points.len() as int)
    }
}

/// Drops the oldest points until at most `max_points` are left.
pub fn keep_newest<T>(points: &mut Vec<T>, max_points: usize)
    ensures
        final(points)@ == newest(old(points)@, max_points as nat),
{
    if points.len() > max_points {
        let overflow = points.len() - max_points;
        let kept = points.split_off(overflow);
        *points = kept;
    }
}

/// A trimmed trail holds at most `max_points` points, keeps the newest point
/// where it keeps any, and trimming it again changes nothing.
pub proof fn law_trimmed_trail<T>(points: Seq<T>, max_points: nat)
    ensures
        newest(points, max_points).len() == if points.len() <= max_points {
            points.len()
        } else {
            max_points
        },
        points.len() > 0 && max_points > 0 ==> newest(points, max_points).last() == points.last(),
        newest(newest(points, max_points), max_points) == newest(points, max_points),
{
}

/// A trail longer than `max_points` keeps exactly its last `max_points`
/// points, in order: point `i` of the trimmed trail is point
/// `len - max_points + i` of the trail; a trail no longer than that is kept
/// whole.
pub proof fn law_trim_keeps_suffix<T>(points: Seq<T>, max_points: nat)
    ensures
        points.len() <= max_points ==> newest(points, max_points) == points,
        points.len() > max_points ==> forall|i: int|
            0 <= i < max_points ==> #[trigger] newest(points, max_points)[i] == points[points.len()
                - max_points + i],
{
}

} // verus!
