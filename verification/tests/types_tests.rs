use codopsy::defaults;
use codopsy::types::{to_grade, ComparisonStatus, Grade};

#[test]
fn grade_boundaries() {
    assert_eq!(to_grade(100), Grade::A);
    assert_eq!(to_grade(defaults::GRADE_A_MIN), Grade::A);
    assert_eq!(to_grade(defaults::GRADE_A_MIN - 1), Grade::B);
    assert_eq!(to_grade(defaults::GRADE_B_MIN), Grade::B);
    assert_eq!(to_grade(defaults::GRADE_B_MIN - 1), Grade::C);
    assert_eq!(to_grade(defaults::GRADE_C_MIN), Grade::C);
    assert_eq!(to_grade(defaults::GRADE_C_MIN - 1), Grade::D);
    assert_eq!(to_grade(defaults::GRADE_D_MIN), Grade::D);
    assert_eq!(to_grade(defaults::GRADE_D_MIN - 1), Grade::F);
    assert_eq!(to_grade(0), Grade::F);
}

#[test]
fn grade_display() {
    assert_eq!(Grade::A.to_string(), "A");
    assert_eq!(Grade::F.to_string(), "F");
}

#[test]
fn comparison_status_display() {
    assert_eq!(ComparisonStatus::Improved.to_string(), "improved");
    assert_eq!(ComparisonStatus::Degraded.to_string(), "degraded");
    assert_eq!(ComparisonStatus::Unchanged.to_string(), "unchanged");
}

#[test]
fn every_grade_has_its_letter() {
    assert_eq!(Grade::B.to_string(), "B");
    assert_eq!(Grade::C.to_string(), "C");
    assert_eq!(Grade::D.to_string(), "D");
}

#[test]
fn grades_below_zero_and_above_hundred() {
    assert_eq!(to_grade(-5), Grade::F);
    assert_eq!(to_grade(1000), Grade::A);
}

#[test]
fn grades_follow_the_documented_table() {
    assert_eq!(to_grade(89), Grade::B);
    assert_eq!(to_grade(80), Grade::B);
    assert_eq!(to_grade(79), Grade::C);
    assert_eq!(to_grade(75), Grade::C);
    assert_eq!(to_grade(70), Grade::C);
    assert_eq!(to_grade(69), Grade::D);
    assert_eq!(to_grade(60), Grade::D);
    assert_eq!(to_grade(59), Grade::F);
}
