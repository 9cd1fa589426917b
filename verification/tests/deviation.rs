use quorum_time::deviation::{mean_minute, MAX_MINUTE_SKEW};
use quorum_time::{check_pair_deviation_and_average, check_sequential_low_deviation};

#[test]
fn skew_is_ten_minutes() {
    assert_eq!(MAX_MINUTE_SKEW, 10);
}

#[test]
fn sequential_accepts_small_gaps() {
    assert!(check_sequential_low_deviation(20, 25, 28));
    assert!(check_sequential_low_deviation(30, 30, 30));
}

#[test]
fn sequential_sorts_before_it_compares() {
    assert!(check_sequential_low_deviation(28, 20, 25));
    assert!(check_sequential_low_deviation(25, 28, 20));
    assert!(check_sequential_low_deviation(20, 0, 10));
    assert!(!check_sequential_low_deviation(8, 5, 50));
}

#[test]
fn sequential_rejects_a_wide_gap() {
    assert!(!check_sequential_low_deviation(5, 50, 8));
    assert!(!check_sequential_low_deviation(0, 5, 59));
}

#[test]
fn sequential_boundary_is_ten() {
    assert!(check_sequential_low_deviation(0, 10, 20));
    assert!(!check_sequential_low_deviation(0, 10, 21));
    assert!(!check_sequential_low_deviation(0, 11, 21));
    assert!(check_sequential_low_deviation(245, 255, 235));
}

#[test]
fn pair_average_takes_a_and_c_when_b_is_far() {
    assert_eq!(check_pair_deviation_and_average(5, 50, 8), Some(6));
}

#[test]
fn pair_average_takes_b_and_c_when_a_is_far() {
    assert_eq!(check_pair_deviation_and_average(50, 5, 8), Some(6));
    assert_eq!(check_pair_deviation_and_average(0, 40, 45), Some(42));
}

#[test]
fn pair_average_prefers_a_and_b_over_a_and_c() {
    assert_eq!(check_pair_deviation_and_average(10, 20, 5), Some(15));
    assert_eq!(check_pair_deviation_and_average(10, 5, 20), Some(7));
}

#[test]
fn pair_average_prefers_a_and_c_over_b_and_c() {
    assert_eq!(check_pair_deviation_and_average(20, 40, 30), Some(25));
    assert_eq!(check_pair_deviation_and_average(40, 20, 30), Some(35));
}

#[test]
fn pair_average_none_when_all_are_far() {
    assert_eq!(check_pair_deviation_and_average(0, 20, 40), None);
    assert_eq!(check_pair_deviation_and_average(0, 11, 22), None);
}

#[test]
fn pair_average_boundary_is_ten() {
    assert_eq!(check_pair_deviation_and_average(10, 20, 59), Some(15));
    assert_eq!(check_pair_deviation_and_average(20, 10, 59), Some(15));
    assert_eq!(check_pair_deviation_and_average(10, 21, 59), None);
    assert_eq!(check_pair_deviation_and_average(21, 10, 59), None);
}

#[test]
fn pair_average_does_not_overflow() {
    assert_eq!(check_pair_deviation_and_average(255, 250, 0), Some(252));
    assert_eq!(check_pair_deviation_and_average(255, 255, 255), Some(255));
}

#[test]
fn mean_minute_rounds_down() {
    assert_eq!(mean_minute(20, 25, 28), 24);
    assert_eq!(mean_minute(0, 0, 2), 0);
    assert_eq!(mean_minute(255, 255, 255), 255);
}
