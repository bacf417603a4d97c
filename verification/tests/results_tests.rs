use judge_core::compare::{compare_string, CompareConfig, Changeset, Diff};
use judge_core::results::{clone_changeset, BaseResult, BaseStatus, ResultTrait};

fn changeset_with_distance(distance: i32) -> Changeset {
    Changeset { diffs: Vec::new(), split: String::new(), distance }
}

#[test]
fn default_result_is_pending() {
    let r = BaseResult::default();
    assert_eq!(r.status, BaseStatus::PENDING);
    assert!(r.changeset.is_none());
    assert_eq!(r.time, 0);
    assert_eq!(r.memory, 0);
    assert!(r.info.is_none());
}

#[test]
fn update_zero_distance_is_accepted() {
    let mut r = BaseResult::default();
    r.update(&changeset_with_distance(0));
    assert_eq!(r.status, BaseStatus::AC);
    assert!(r.changeset.is_some());
}

#[test]
fn update_nonzero_distance_is_wrong_answer() {
    let mut r = BaseResult::default();
    r.update(&changeset_with_distance(3));
    assert_eq!(r.status, BaseStatus::WA);
}

#[test]
fn first_update_wins() {
    // distance 0 then distance 5: the verdict stays AC
    let mut r = BaseResult::default();
    r.update(&changeset_with_distance(0));
    r.update(&changeset_with_distance(5));
    assert_eq!(r.status, BaseStatus::AC);
}

#[test]
fn set_status_only_from_pending() {
    let mut r = BaseResult::default();
    r.set_status(BaseStatus::TLE);
    assert_eq!(r.status, BaseStatus::TLE);
    r.update(&changeset_with_distance(0));
    assert_eq!(r.status, BaseStatus::TLE);
    r.set_status(BaseStatus::MLE);
    assert_eq!(r.status, BaseStatus::TLE);
}

#[test]
fn update_through_trait() {
    let mut r = BaseResult::default();
    ResultTrait::update(&mut r, &changeset_with_distance(1));
    assert_eq!(r.status, BaseStatus::WA);
}

#[test]
fn clone_changeset_is_deep_and_equal() {
    let original = Changeset {
        diffs: vec![
            Diff::Same(String::from("a")),
            Diff::Rem(String::from("b")),
            Diff::Add(String::from("c")),
        ],
        split: String::from("\n"),
        distance: 2,
    };
    let copy = clone_changeset(&original);
    assert_eq!(copy.distance, 2);
    assert_eq!(copy.split, "\n");
    assert_eq!(copy.diffs.len(), 3);
    match (&copy.diffs[0], &copy.diffs[1], &copy.diffs[2]) {
        (Diff::Same(a), Diff::Rem(b), Diff::Add(c)) => {
            assert_eq!(a, "a");
            assert_eq!(b, "b");
            assert_eq!(c, "c");
        },
        _ => panic!("segment kinds should be preserved in order"),
    }
}

#[test]
fn update_retains_comparator_outcome() {
    let config = CompareConfig::default();
    let outcome = compare_string(String::from("1\n"), String::from("2\n"), &config);
    let mut r = BaseResult::default();
    r.update(&outcome);
    assert_eq!(r.status, BaseStatus::WA);
    let kept = r.changeset.expect("outcome should be retained");
    assert_eq!(kept.distance, outcome.distance);
}
