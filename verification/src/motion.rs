//! Motion planning for the profile position mode: the checks on a commanded
//! move, the request that a trajectory generator answers, and the trajectory
//! that the controller follows.

use vstd::prelude::*;
use vstd::string::StringExecFns;
use crate::sorted_map::{SortedMap, strictly_ascending};

verus! {

/// Increments of one rotation.
pub const INC_PER_ROT: i64 = 3600;

/// Increments of travel per sample of a trajectory.
pub const INC_PER_SAMPLE: u64 = 10;

/// The jerk limit of every move, in rotations per second cubed.
pub const MAX_JERK: u32 = 10;

/// Why a commanded move does not start.
#[derive(Debug, Clone, Copy, PartialEq, Eq, Structural)]
pub enum InvalidMotionParameters {
    /// The maximum acceleration is zero.
    MaxAcceleration,
    /// The profile velocity is zero.
    Velocity,
}

impl InvalidMotionParameters {
    /// The description of this error.
    pub open spec fn description(self) -> Seq<char> {
        match self {
            InvalidMotionParameters::MaxAcceleration => "Max acceleration 0"@,
            InvalidMotionParameters::Velocity => "Target position invalid"@,
        }
    }

    /// A description for the log.
    pub fn message(&self) -> (text: String)
        ensures
            text@ == self.description(),
    {
        match self {
            InvalidMotionParameters::MaxAcceleration => String::from_str("Max acceleration 0"),
            InvalidMotionParameters::Velocity => String::from_str("Target position invalid"),
        }
    }
}

/// What a trajectory generator needs to know of a move. Positions are in
/// increments, velocity in rotations per minute, acceleration in rotations per
/// minute per second.
#[derive(Debug, Clone, Copy, PartialEq, Eq, Structural)]
pub struct MotionRequest {
    /// The acceleration limit: the profile acceleration, or the maximum
    /// acceleration where that is zero.
    pub acceleration: u32,
    /// The velocity limit.
    pub velocity: u32,
    /// Where the move starts.
    pub start: i32,
    /// Where the move ends: the target, or start plus target for a relative move.
    pub end: i64,
    /// The number of sample intervals: the trajectory has one point more.
    pub samples: u64,
}

/// How a commanded move is carried out.
#[derive(Debug, Clone, Copy, PartialEq, Eq, Structural)]
pub enum MotionPlan {
    /// Nothing to travel: the trajectory is the single point 0 -> 0.
    Stationary,
    /// A trajectory has to be generated.
    Generate(MotionRequest),
}

/// The distance of a move from `actual` to `target`, in increments.
pub open spec fn travel_distance(actual: i32, target: i32) -> int {
    target - actual
}

/// The magnitude of `x`.
pub open spec fn magnitude(x: int) -> int {
    if x < 0 {
        -x
    } else {
        x
    }
}

/// The plan for a move, or why there is none. The maximum acceleration and the
/// velocity must not be zero. The acceleration is the profile acceleration, or
/// the maximum where that is zero. A move of no distance is stationary; any
/// other is sampled once per ten increments of travel.
pub open spec fn motion_plan(
    profile_acceleration: u32,
    max_acceleration: u32,
    profile_velocity: u32,
    actual_position: i32,
    target_position: i32,
    relative: bool,
) -> Result<MotionPlan, InvalidMotionParameters> {
    if max_acceleration == 0 {
        Err(InvalidMotionParameters::MaxAcceleration)
    } else if profile_velocity == 0 {
        Err(InvalidMotionParameters::Velocity)
    } else if travel_distance(actual_position, target_position) == 0 {
        Ok(MotionPlan::Stationary)
    } else {
        Ok(
            MotionPlan::Generate(
                MotionRequest {
                    acceleration: if profile_acceleration == 0 {
                        max_acceleration
                    } else {
                        profile_acceleration
                    },
                    velocity: profile_velocity,
                    start: actual_position,
                    end: if relative {
                        (actual_position + target_position) as i64
                    } else {
                        target_position as i64
                    },
                    samples: (magnitude(travel_distance(actual_position, target_position))
                        / INC_PER_SAMPLE as int) as u64,
                },
            ),
        )
    }
}

/// Plans the move of node `node_id` from `actual_position` to
/// `target_position`.
pub fn position_motion_map(
    node_id: u8,
    profile_acceleration: u32,
    max_acceleration: u32,
    profile_velocity: u32,
    actual_position: i32,
    target_position: i32,
    relative: bool,
) -> (plan: Result<MotionPlan, InvalidMotionParameters>)
    ensures
        plan == motion_plan(
            profile_acceleration,
            max_acceleration,
            profile_velocity,
            actual_position,
            target_position,
            relative,
        ),
{
    if max_acceleration == 0 {
        return Err(InvalidMotionParameters::MaxAcceleration);
    }
    let acceleration = if profile_acceleration == 0 {
        max_acceleration
    } else {
        profile_acceleration
    };
    if profile_velocity == 0 {
        return Err(InvalidMotionParameters::Velocity);
    }
    let travel_distance: i64 = target_position as i64 - actual_position as i64;
    if travel_distance == 0 {
        return Ok(MotionPlan::Stationary);
    }
    let end: i64 = if relative {
        actual_position as i64 + target_position as i64
    } else {
        target_position as i64
    };
    let distance: u64 = if travel_distance < 0 {
        (-travel_distance) as u64
    } else {
        travel_distance as u64
    };
    Ok(
        MotionPlan::Generate(
            MotionRequest {
                acceleration,
                velocity: profile_velocity,
                start: actual_position,
                end,
                samples: distance / INC_PER_SAMPLE,
            },
        ),
    )
}

/// Whether `key` is the greatest key of `points` that is at most `bound`.
pub open spec fn is_floor(points: Map<u64, i32>, bound: u64, key: u64) -> bool {
    &&& points.contains_key(key)
    &&& key <= bound
    &&& forall|other: u64| points.contains_key(other) && other <= bound ==> other <= key
}

/// The position that the trajectory `points` has reached at `elapsed`: the one
/// at its greatest key that is at most `elapsed`.
pub open spec fn position_at(points: Map<u64, i32>, elapsed: u64) -> Option<i32> {
    if exists|key: u64| is_floor(points, elapsed, key) {
        Some(points[choose|key: u64| is_floor(points, elapsed, key)])
    } else {
        None
    }
}

/// Whether `key` is the greatest key of `points`.
pub open spec fn is_end(points: Map<u64, i32>, key: u64) -> bool {
    &&& points.contains_key(key)
    &&& forall|other: u64| points.contains_key(other) ==> other <= key
}

/// The time at which the trajectory `points` ends: its greatest key.
pub open spec fn end_of(points: Map<u64, i32>) -> u64 {
    choose|key: u64| is_end(points, key)
}

/// The map that the samples `samples` make, entered in order: a later sample
/// replaces an earlier one of the same time.
pub open spec fn samples_map(samples: Seq<(u64, i32)>) -> Map<u64, i32>
    decreases samples.len(),
{
    if samples.len() == 0 {
        Map::empty()
    } else {
        samples_map(samples.drop_last()).insert(samples.last().0, samples.last().1)
    }
}

/// A trajectory: positions in increments at times in milliseconds, never empty,
/// and walked in ascending order of time.
#[derive(Debug)]
pub struct MotionMap {
    points: SortedMap<i32>,
}

impl MotionMap {
    /// A trajectory has at least one point.
    #[verifier::type_invariant]
    pub closed spec fn wf(&self) -> bool {
        self.points.wf() && self.points.keys().len() > 0
    }

    /// The points of this trajectory: position by time.
    pub closed spec fn view(&self) -> Map<u64, i32> {
        self.points@
    }

    /// The times of this trajectory in ascending order.
    pub closed spec fn times(&self) -> Seq<u64> {
        self.points.keys()
    }

    /// The times of a trajectory are strictly ascending, at least one, and just
    /// the times that have a point; so it has an end, which is its last time.
    pub proof fn lemma_times(&self)
        requires
            self.wf(),
        ensures
            strictly_ascending(self.times()),
            self.times().len() > 0,
            forall|i: int| 0 <= i < self.times().len() ==> self@.contains_key(#[trigger] self.times()[i]),
            forall|key: u64| self@.contains_key(key) ==> #[trigger] self.times().contains(key),
            is_end(self@, self.times().last()),
            end_of(self@) == self.times().last(),
    {
        self.points.lemma_wf();
        let times = self.times();
        let last = times.last();
        assert(is_end(self@, last));
        let chosen = end_of(self@);
        assert(is_end(self@, chosen));
    }

    /// The trajectory of the single point `time` -> `position`.
    pub fn single(time: u64, position: i32) -> (map: Self)
        ensures
            map.wf(),
            map@ == Map::<u64, i32>::empty().insert(time, position),
            strictly_ascending(map.times()),
    {
        let mut points: SortedMap<i32> = SortedMap::new();
        points.insert(time, position);
        proof {
            points.lemma_wf();
        }
        let map = MotionMap { points };
        proof {
            map.lemma_times();
        }
        map
    }

    /// This trajectory with the point `time` -> `position`, in place of the one
    /// it had at that time.
    pub fn with_point(self, time: u64, position: i32) -> (map: Self)
        ensures
            map.wf(),
            map@ == self@.insert(time, position),
            strictly_ascending(map.times()),
    {
        proof {
            use_type_invariant(&self);
        }
        let MotionMap { mut points } = self;
        points.insert(time, position);
        proof {
            points.lemma_wf();
            assert(points@.contains_key(time));
        }
        let map = MotionMap { points };
        proof {
            map.lemma_times();
        }
        map
    }

    /// The trajectory that `samples` make, entered in order. There is none for
    /// no samples.
    pub fn from_samples(samples: &Vec<(u64, i32)>) -> (map: Option<Self>)
        ensures
            match map {
                Some(m) => samples@.len() > 0 && m.wf() && m@ == samples_map(samples@)
                    && strictly_ascending(m.times()),
                None => samples@.len() == 0,
            },
    {
        if samples.len() == 0 {
            return None;
        }
        let mut map = MotionMap::single(samples[0].0, samples[0].1);
        proof {
            let first = samples@.take(1);
            assert(samples_map(first.drop_last()) == Map::<u64, i32>::empty());
        }
        let mut i: usize = 1;
        while i < samples.len()
            invariant
                1 <= i <= samples@.len(),
                map.wf(),
                map@ == samples_map(samples@.take(i as int)),
            decreases samples@.len() - i,
        {
            assert(samples@.take(i + 1).drop_last() =~= samples@.take(i as int));
            map = map.with_point(samples[i].0, samples[i].1);
            i = i + 1;
        }
        assert(samples@.take(i as int) =~= samples@);
        proof {
            map.lemma_times();
        }
        Some(map)
    }

    /// The number of points.
    pub fn len(&self) -> (n: usize)
        ensures
            n == self.times().len(),
            n > 0,
    {
        proof {
            use_type_invariant(self);
        }
        self.points.len()
    }

    /// The time at position `i` of the ascending order.
    pub fn time_at(&self, i: usize) -> (time: u64)
        requires
            i < self.times().len(),
        ensures
            time == self.times()[i as int],
            self@.contains_key(time),
    {
        self.points.key_at(i)
    }

    /// The position at `time`, where the trajectory has a point there.
    pub fn get(&self, time: u64) -> (position: Option<i32>)
        ensures
            position == if self@.contains_key(time) {
                Some(self@[time])
            } else {
                None
            },
    {
        match self.points.get(time) {
            Some(p) => Some(*p),
            None => None,
        }
    }

    /// The position reached at `elapsed`: the one at the greatest time that is
    /// at most `elapsed`. There is none before the first time.
    pub fn position_at(&self, elapsed: u64) -> (position: Option<i32>)
        ensures
            position == position_at(self@, elapsed),
    {
        proof {
            use_type_invariant(self);
            self.points.lemma_wf();
        }
        let ghost times = self.points.keys();
        match self.points.floor(elapsed) {
            Some(i) => {
                let p = *self.points.value_at(i);
                proof {
                    let key = times[i as int];
                    assert(is_floor(self@, elapsed, key));
                    let chosen = choose|k: u64| is_floor(self@, elapsed, k);
                    assert(is_floor(self@, elapsed, chosen));
                }
                Some(p)
            },
            None => {
                proof {
                    assert forall|key: u64| !is_floor(self@, elapsed, key) by {
                        if self@.contains_key(key) {
                            let j = times.index_of(key);
                            assert(0 <= j < times.len() && times[j] == key);
                        }
                    }
                }
                None
            },
        }
    }

    /// The time at which this trajectory ends: its greatest time.
    pub fn end_time(&self) -> (end: u64)
        ensures
            end == end_of(self@),
            is_end(self@, end),
    {
        proof {
            use_type_invariant(self);
            self.lemma_times();
        }
        self.points.key_at(self.points.len() - 1)
    }
}

} // verus!
