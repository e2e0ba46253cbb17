//! How many videos may move from one favorite folder into another.
//!
//! A folder holds at most [`MAX_FOLDER_CAPACITY`] videos. A move is bounded
//! by the room left in the target folder, by what the source folder holds
//! and by what the caller asked for.

use vstd::prelude::*;

verus! {

/// The platform's hard cap on the number of videos in one folder.
pub const MAX_FOLDER_CAPACITY: i32 = 1000;

/// The smaller of two integers.
pub open spec fn min_int(a: int, b: int) -> int {
    if a <= b {
        a
    } else {
        b
    }
}

/// The larger of two integers.
pub open spec fn max_int(a: int, b: int) -> int {
    if a >= b {
        a
    } else {
        b
    }
}

/// Free room left in a folder that declares `target_count` videos.
pub open spec fn available_room(target_count: int) -> int {
    MAX_FOLDER_CAPACITY as int - target_count
}

/// Why a plan moves the number of videos it does.
#[derive(Debug, Clone, Copy, PartialEq, Eq, Structural)]
pub enum PlanReason {
    /// The target folder has no room left.
    TargetFull,
    /// There is nothing to take: the source folder is empty or nothing was asked for.
    SourceEmpty,
    /// At least one video can move.
    Movable,
}

/// The outcome of planning a move.
#[derive(Debug, Clone, Copy, PartialEq, Eq, Structural)]
pub struct MovePlan {
    /// How many videos may move; never negative.
    pub movable_count: i32,
    pub reason: PlanReason,
}

/// How many videos may move from a folder declaring `source_count` videos
/// into one declaring `target_count`, when `requested_count` are asked for.
///
/// A full target yields zero, and so does an empty source. Otherwise it is
/// the least of the room left, the source's size and the number asked for. A
/// source that declares a negative size counts as empty.
pub open spec fn movable(source_count: int, target_count: int, requested_count: int) -> int {
    if available_room(target_count) <= 0 {
        0
    } else if source_count <= 0 {
        0
    } else {
        max_int(
            0,
            min_int(available_room(target_count), min_int(source_count, requested_count)),
        )
    }
}

/// The reason that goes with [`movable`].
pub open spec fn plan_reason(source_count: int, target_count: int, requested_count: int)
    -> PlanReason {
    if available_room(target_count) <= 0 {
        PlanReason::TargetFull
    } else if movable(source_count, target_count, requested_count) == 0 {
        PlanReason::SourceEmpty
    } else {
        PlanReason::Movable
    }
}

/// Plans a move of `requested_count` videos between two folders of the given sizes.
pub fn plan_move(source_count: i32, target_count: i32, requested_count: usize) -> (plan: MovePlan)
    ensures
        plan.movable_count == movable(
            source_count as int,
            target_count as int,
            requested_count as int,
        ),
        plan.reason == plan_reason(source_count as int, target_count as int, requested_count as int),
{
    let room: i64 = MAX_FOLDER_CAPACITY as i64 - target_count as i64;
    if room <= 0 {
        return MovePlan { movable_count: 0, reason: PlanReason::TargetFull };
    }
    if source_count <= 0 {
        return MovePlan { movable_count: 0, reason: PlanReason::SourceEmpty };
    }
    let mut least: i64 = if room < source_count as i64 {
        room
    } else {
        source_count as i64
    };
    if requested_count < i32::MAX as usize && (requested_count as i64) < least {
        least = requested_count as i64;
    }
    if least == 0 {
        MovePlan { movable_count: 0, reason: PlanReason::SourceEmpty }
    } else {
        MovePlan { movable_count: least as i32, reason: PlanReason::Movable }
    }
}

/// For folder sizes that the platform allows, the plan moves the least of
/// the room left in the target, the size of the source and the number asked
/// for; a target at the cap takes nothing.
pub proof fn lemma_movable_is_least(source_count: int, target_count: int, requested_count: int)
    requires
        0 <= target_count <= MAX_FOLDER_CAPACITY,
        0 <= source_count,
        0 <= requested_count,
    ensures
        movable(source_count, target_count, requested_count) == min_int(
            max_int(0, MAX_FOLDER_CAPACITY - target_count),
            min_int(source_count, requested_count),
        ),
        target_count >= MAX_FOLDER_CAPACITY ==> movable(
            source_count,
            target_count,
            requested_count,
        ) == 0,
{
}

/// A target at or above the cap takes nothing, whatever the source holds and
/// whatever was asked for, and the plan says that the target is full.
pub proof fn lemma_full_target_takes_nothing(
    source_count: int,
    target_count: int,
    requested_count: int,
)
    requires
        target_count >= MAX_FOLDER_CAPACITY,
    ensures
        movable(source_count, target_count, requested_count) == 0,
        plan_reason(source_count, target_count, requested_count) == PlanReason::TargetFull,
{
}

/// A plan never moves more than the target has room for, than the source
/// holds, or than was asked for, and never a negative number. Into a target
/// that declares a size within the cap it never moves so many that the
/// target would pass the cap.
pub proof fn lemma_movable_bounds(source_count: int, target_count: int, requested_count: int)
    ensures
        0 <= movable(source_count, target_count, requested_count),
        movable(source_count, target_count, requested_count) <= max_int(
            0,
            available_room(target_count),
        ),
        movable(source_count, target_count, requested_count) <= max_int(0, source_count),
        movable(source_count, target_count, requested_count) <= max_int(0, requested_count),
        target_count <= MAX_FOLDER_CAPACITY ==> target_count + movable(
            source_count,
            target_count,
            requested_count,
        ) <= MAX_FOLDER_CAPACITY,
{
}

} // verus!
