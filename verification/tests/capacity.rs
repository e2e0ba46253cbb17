use bilibili_fav_cleaner::capacity::{plan_move, MovePlan, PlanReason, MAX_FOLDER_CAPACITY};

#[test]
fn cap_is_one_thousand() {
    assert_eq!(MAX_FOLDER_CAPACITY, 1000);
}

#[test]
fn nearly_full_target_takes_what_fits() {
    let plan = plan_move(10, 995, 10);
    assert_eq!(plan, MovePlan { movable_count: 5, reason: PlanReason::Movable });
}

#[test]
fn full_target_takes_nothing_whatever_the_source() {
    for source in [0, 1, 10, 1000, i32::MAX] {
        let plan = plan_move(source, 1000, 7);
        assert_eq!(plan.movable_count, 0);
        assert_eq!(plan.reason, PlanReason::TargetFull);
    }
}

#[test]
fn overfull_target_takes_nothing() {
    let plan = plan_move(10, 1200, 10);
    assert_eq!(plan, MovePlan { movable_count: 0, reason: PlanReason::TargetFull });
}

#[test]
fn empty_source_gives_nothing() {
    let plan = plan_move(0, 3, 10);
    assert_eq!(plan, MovePlan { movable_count: 0, reason: PlanReason::SourceEmpty });
}

#[test]
fn nothing_asked_for_moves_nothing() {
    let plan = plan_move(10, 3, 0);
    assert_eq!(plan, MovePlan { movable_count: 0, reason: PlanReason::SourceEmpty });
}

#[test]
fn plan_is_the_least_of_room_source_and_request() {
    assert_eq!(plan_move(300, 100, 500).movable_count, 300);
    assert_eq!(plan_move(300, 800, 500).movable_count, 200);
    assert_eq!(plan_move(300, 100, 40).movable_count, 40);
    assert_eq!(plan_move(1, 999, 1).movable_count, 1);
    assert_eq!(plan_move(1000, 0, 1000).movable_count, 1000);
}

#[test]
fn plan_matches_formula_on_a_grid() {
    for target in [0, 1, 500, 980, 999, 1000] {
        for source in [0, 1, 19, 20, 21, 1000] {
            for requested in [0usize, 1, 5, 20, 21, 2000] {
                let room = std::cmp::max(0, 1000 - target);
                let expected = std::cmp::min(room, std::cmp::min(source, requested as i32));
                assert_eq!(plan_move(source, target, requested).movable_count, expected);
            }
        }
    }
}

#[test]
fn huge_request_is_bounded_by_the_source() {
    assert_eq!(plan_move(12, 0, usize::MAX).movable_count, 12);
}

#[test]
fn negative_source_counts_as_empty() {
    let plan = plan_move(-4, 0, 3);
    assert_eq!(plan, MovePlan { movable_count: 0, reason: PlanReason::SourceEmpty });
}

#[test]
fn extreme_counts_do_not_overflow() {
    assert_eq!(plan_move(i32::MAX, i32::MIN, usize::MAX).movable_count, i32::MAX);
    assert_eq!(plan_move(i32::MIN, i32::MAX, 0).reason, PlanReason::TargetFull);
}
