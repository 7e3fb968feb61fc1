use kalk::model::{
    credit_weighted, credits_at_risk, credits_fit, first_ungraded, global_target_category, pinned_global_target, shows_global_row, total_credits, GlobalPolicyKind, NeededGradeStatus, AttendanceAction, AveragingMethod, CourseOutcome,
    MinimumNotMetAction, OutcomeCounts,
};
use kalk::semesters::{next_semester_order, reopened_semester, semester_name};
use kalk::status::StatusSeverity;
use kalk::text::{is_blank, numbered_name, same_str, trimmed};

#[test]
fn actions_cycle_in_order() {
    let all = [
        MinimumNotMetAction::FinalEqualsAverage,
        MinimumNotMetAction::RequiresGlobal,
        MinimumNotMetAction::FailCourse,
        MinimumNotMetAction::CapFinalGrade,
    ];
    for (i, a) in all.iter().enumerate() {
        assert_eq!(a.next(), all[(i + 1) % 4]);
        assert_eq!(a.previous(), all[(i + 3) % 4]);
        assert_eq!(a.next().previous(), *a);
    }
}

#[test]
fn defaults() {
    assert_eq!(MinimumNotMetAction::default(), MinimumNotMetAction::FinalEqualsAverage);
    assert_eq!(AveragingMethod::default(), AveragingMethod::Arithmetic);
    assert_eq!(AttendanceAction::default(), AttendanceAction::WarnOnly);
    assert_eq!(StatusSeverity::default(), StatusSeverity::Info);
    assert_eq!(OutcomeCounts::default(), OutcomeCounts { passing: 0, failing: 0, pending_global: 0, no_data: 0 });
}

#[test]
fn outcomes_are_tallied() {
    let outcomes = [
        CourseOutcome::Passing,
        CourseOutcome::Failing,
        CourseOutcome::NoData,
        CourseOutcome::Passing,
        CourseOutcome::PendingGlobal,
    ];
    let c = OutcomeCounts::tally(&outcomes);
    assert_eq!(c, OutcomeCounts { passing: 2, failing: 1, pending_global: 1, no_data: 1 });
    assert_eq!(c.passing + c.failing + c.pending_global + c.no_data, outcomes.len());
    assert_eq!(OutcomeCounts::tally(&[]), OutcomeCounts::default());
}

#[test]
fn semester_credits() {
    assert_eq!(total_credits(&[Some(5), None, Some(8)]), Some(13));
    assert_eq!(total_credits(&[None, None]), None);
    assert_eq!(total_credits(&[]), None);
    assert_eq!(total_credits(&[Some(0)]), Some(0));
    assert!(credits_fit(&[Some(u32::MAX), None]));
    assert!(!credits_fit(&[Some(u32::MAX), Some(1)]));
    // The passing course with 5 credits is safe, the failing one with 8 is
    // at risk, the course without grades declares none.
    assert_eq!(
        credits_at_risk(&[
            (CourseOutcome::Passing, Some(5)),
            (CourseOutcome::Failing, Some(8)),
            (CourseOutcome::NoData, None),
        ]),
        Some(8)
    );
    assert_eq!(credits_at_risk(&[(CourseOutcome::PendingGlobal, None)]), None);
    assert_eq!(credits_at_risk(&[(CourseOutcome::Passing, Some(4))]), Some(0));
}

#[test]
fn names_with_numbers() {
    assert_eq!(semester_name("Semester", 0), "Semester 1");
    assert_eq!(semester_name("Semestre", 11), "Semestre 12");
    assert_eq!(numbered_name("Certamen", 3), "Certamen 3");
    assert_eq!(numbered_name("Lab", 100), "Lab 100");
    assert_eq!(numbered_name("", 0), " 0");
    assert_eq!(next_semester_order(None), 0);
    assert_eq!(next_semester_order(Some(4)), 5);
}

#[test]
fn trimming() {
    assert_eq!(trimmed("  a b \n"), "a b");
    assert_eq!(trimmed("\u{2003}x\u{2028}"), "x");
    assert!(is_blank(" \t\n"));
    assert!(is_blank(""));
    assert!(!is_blank(" x "));
    assert!(same_str("Año", "Año"));
    assert!(!same_str("Año", "Ano"));
}

#[test]
fn credit_weighting_needs_every_graded_course() {
    assert!(credit_weighted(&[Some(5), Some(3)]));
    assert!(!credit_weighted(&[Some(5), None]));
    assert!(!credit_weighted(&[]));
}

#[test]
fn global_target_prefers_the_explicit_category() {
    let cats = [
        (MinimumNotMetAction::FinalEqualsAverage, true),
        (MinimumNotMetAction::RequiresGlobal, false),
        (MinimumNotMetAction::RequiresGlobal, true),
        (MinimumNotMetAction::RequiresGlobal, true),
    ];
    assert_eq!(global_target_category(Some(1), &cats), Some(1));
    assert_eq!(global_target_category(Some(9), &cats), Some(2));
    assert_eq!(global_target_category(None, &cats), Some(2));
    assert_eq!(global_target_category(None, &cats[..2]), Some(0));
    assert_eq!(global_target_category(None, &[]), None);
}

#[test]
fn first_ungraded_scans_in_order() {
    assert_eq!(first_ungraded(&vec![vec![true, true], vec![true, false, false]]), Some((1, 1)));
    assert_eq!(first_ungraded(&vec![vec![], vec![false]]), Some((1, 0)));
    assert_eq!(first_ungraded(&vec![vec![true], vec![]]), None);
}

#[test]
fn global_grade_pins_the_first_category_that_requires_it() {
    let failed = [
        (MinimumNotMetAction::FinalEqualsAverage, 2),
        (MinimumNotMetAction::RequiresGlobal, 4),
        (MinimumNotMetAction::RequiresGlobal, 5),
    ];
    assert_eq!(pinned_global_target(&failed), Some(4));
    let none_require = [(MinimumNotMetAction::FailCourse, 3), (MinimumNotMetAction::CapFinalGrade, 1)];
    assert_eq!(pinned_global_target(&none_require), Some(3));
    assert_eq!(pinned_global_target(&[]), None);
}

#[test]
fn credits_at_risk_stay_within_the_total() {
    let courses = [
        (CourseOutcome::Failing, Some(6)),
        (CourseOutcome::Passing, Some(4)),
        (CourseOutcome::PendingGlobal, None),
        (CourseOutcome::PendingGlobal, Some(5)),
    ];
    let credits: Vec<Option<u32>> = courses.iter().map(|c| c.1).collect();
    assert_eq!(credits_at_risk(&courses), Some(11));
    assert_eq!(total_credits(&credits), Some(15));
    assert!(credits_at_risk(&courses).unwrap() <= total_credits(&credits).unwrap());
}

#[test]
fn generated_semester_names_differ() {
    let names: Vec<String> = (0..12).map(|i| semester_name("Semester", i)).collect();
    for (i, a) in names.iter().enumerate() {
        for b in &names[i + 1..] {
            assert_ne!(a, b);
        }
    }
    assert_eq!(names[9], "Semester 10");
}

#[test]
fn global_row_appears_only_while_the_exam_can_matter() {
    let w = GlobalPolicyKind::Weighted;
    assert!(shows_global_row(w, true, false, NeededGradeStatus::Warning));
    assert!(shows_global_row(w, true, true, NeededGradeStatus::Failure));
    assert!(!shows_global_row(w, true, false, NeededGradeStatus::Failure));
    assert!(!shows_global_row(w, false, true, NeededGradeStatus::Success));
    assert!(!shows_global_row(GlobalPolicyKind::NoGlobal, true, true, NeededGradeStatus::Success));
}

#[test]
fn trimming_follows_the_unicode_white_space_set() {
    assert_eq!(trimmed("\u{3000}\u{85} x \t\u{2029}"), "x");
    assert_eq!(trimmed("\u{200B}x"), "\u{200B}x");
    assert!(is_blank("\u{A0}\u{1680}\u{202F}"));
    assert!(!is_blank("`"));
}

#[test]
fn the_saved_semester_is_reopened_else_the_last() {
    let ids = [10u128, 20, 30];
    assert_eq!(reopened_semester(&ids, Some(20)), Some(1));
    assert_eq!(reopened_semester(&ids, Some(99)), Some(2));
    assert_eq!(reopened_semester(&ids, None), Some(2));
    assert_eq!(reopened_semester(&[], Some(20)), None);
}
