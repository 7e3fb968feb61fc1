use kalk::forms::{
    drop_lowest_next, drop_lowest_previous, field_after_collapse, form_state, initial_screen,
    next_input_field, cycle_toggle, FormState, InputField, Screen, Toggles, MAX_DROP_LOWEST,
};
use kalk::model::{AttendanceAction, AveragingMethod, GlobalPolicyKind, MinimumNotMetAction};

fn plain() -> FormState {
    form_state(GlobalPolicyKind::NoGlobal, false, "", " ", "", false)
}

#[test]
fn toggle_and_numeric_fields() {
    for field in [
        InputField::DropLowest,
        InputField::AvgMethod,
        InputField::OnMinNotMet,
        InputField::OnMinPerEvalNotMet,
        InputField::OnMinOneEvalNotMet,
        InputField::RoundBeforeWeight,
        InputField::WeightedEvals,
        InputField::AttendanceAction,
        InputField::GlobalPolicy,
    ] {
        assert!(field.is_toggle(), "{field:?} should be a toggle");
        assert!(!field.has_text(), "{field:?} handed out a text buffer");
        assert!(!field.is_numeric());
    }
    for field in [
        InputField::Name,
        InputField::PassingGrade,
        InputField::Credits,
        InputField::Weight,
        InputField::Grade,
        InputField::Description,
        InputField::EvalWeight,
        InputField::MinimumAverage,
        InputField::MinPerEval,
        InputField::MinOneEval,
        InputField::ClassesTotal,
        InputField::ClassesMissed,
        InputField::AttendanceRequired,
        InputField::GlobalSemesterWeight,
        InputField::GlobalExamWeight,
        InputField::GlobalMinGrade,
    ] {
        assert!(!field.is_toggle(), "{field:?} should not be a toggle");
        assert!(field.has_text(), "{field:?} has no buffer to type into");
    }
    assert!(!InputField::Name.is_numeric());
    assert!(!InputField::Description.is_numeric());
    assert!(InputField::Grade.is_numeric());
}

#[test]
fn numeric_fields_take_only_digits_and_separators() {
    assert!(InputField::Grade.accepts('7'));
    assert!(InputField::Grade.accepts(','));
    assert!(InputField::Grade.accepts('.'));
    assert!(!InputField::Grade.accepts('a'));
    assert!(!InputField::Grade.accepts('-'));
    assert!(InputField::Name.accepts('a'));
    assert!(InputField::Name.accepts('ñ'));
}

#[test]
fn course_form_tab_order_follows_the_policy() {
    let course = Screen::EditingCourse { is_new: true };
    let mut st = plain();
    assert_eq!(next_input_field(course, InputField::Name, st), InputField::PassingGrade);
    assert_eq!(next_input_field(course, InputField::Credits, st), InputField::GlobalPolicy);
    assert_eq!(next_input_field(course, InputField::GlobalPolicy, st), InputField::Name);
    st.global_policy = GlobalPolicyKind::Weighted;
    assert_eq!(
        next_input_field(course, InputField::GlobalPolicy, st),
        InputField::GlobalSemesterWeight
    );
    st.global_policy = GlobalPolicyKind::ReplacesWorstGrade;
    assert_eq!(
        next_input_field(course, InputField::GlobalPolicy, st),
        InputField::GlobalMinGrade
    );
}

#[test]
fn category_form_skips_what_does_not_apply() {
    let cat = Screen::EditingCategory { is_new: false };
    assert_eq!(next_input_field(cat, InputField::Weight, plain()), InputField::Name);
    let st = form_state(GlobalPolicyKind::NoGlobal, true, "50", "  ", "60", false);
    assert!(st.has_min_average && !st.has_min_per_eval && st.has_min_one_eval);
    assert_eq!(next_input_field(cat, InputField::Weight, st), InputField::DropLowest);
    assert_eq!(next_input_field(cat, InputField::MinimumAverage, st), InputField::OnMinNotMet);
    assert_eq!(next_input_field(cat, InputField::MinPerEval, st), InputField::MinOneEval);
    assert_eq!(
        next_input_field(cat, InputField::MinOneEval, st),
        InputField::OnMinOneEvalNotMet
    );
    assert_eq!(next_input_field(cat, InputField::WeightedEvals, st), InputField::Name);
}

#[test]
fn tab_cycles_back_to_the_name() {
    let cat = Screen::EditingCategory { is_new: true };
    let st = form_state(GlobalPolicyKind::NoGlobal, true, "", "", "", false);
    let mut f = InputField::Name;
    let mut steps = 0;
    loop {
        f = next_input_field(cat, f, st);
        steps += 1;
        if f == InputField::Name {
            break;
        }
    }
    assert_eq!(steps, 9);
}

#[test]
fn evaluation_and_template_forms() {
    let eval = Screen::EditingEvaluation { is_new: true };
    let mut st = plain();
    assert_eq!(next_input_field(eval, InputField::Name, st), InputField::Grade);
    st.weighted_evaluations = true;
    assert_eq!(next_input_field(eval, InputField::Name, st), InputField::EvalWeight);
    assert_eq!(next_input_field(eval, InputField::EvalWeight, st), InputField::Grade);
    assert_eq!(
        next_input_field(Screen::SavingTemplate, InputField::Name, st),
        InputField::Description
    );
    assert_eq!(next_input_field(Screen::Main, InputField::Grade, st), InputField::Grade);
    assert_eq!(
        next_input_field(Screen::EditingAttendance, InputField::AttendanceAction, st),
        InputField::ClassesTotal
    );
}

#[test]
fn toggles_cycle() {
    assert_eq!(drop_lowest_next(0), 1);
    assert_eq!(drop_lowest_next(MAX_DROP_LOWEST), 0);
    assert_eq!(drop_lowest_previous(0), MAX_DROP_LOWEST);
    assert_eq!(drop_lowest_previous(3), 2);
    assert_eq!(AveragingMethod::Arithmetic.toggled(), AveragingMethod::Geometric);
    assert_eq!(AttendanceAction::WarnOnly.toggled(), AttendanceAction::FailCourse);
    assert_eq!(GlobalPolicyKind::NoGlobal.next(), GlobalPolicyKind::Weighted);
    assert_eq!(GlobalPolicyKind::NoGlobal.previous(), GlobalPolicyKind::ReplacesWorstGrade);
    assert_eq!(
        MinimumNotMetAction::CapFinalGrade.next(),
        MinimumNotMetAction::FinalEqualsAverage
    );
    assert_eq!(
        MinimumNotMetAction::FinalEqualsAverage.previous(),
        MinimumNotMetAction::CapFinalGrade
    );
}

#[test]
fn collapsing_advanced_rules_moves_focus_to_the_weight() {
    assert_eq!(field_after_collapse(InputField::DropLowest), InputField::Weight);
    assert_eq!(field_after_collapse(InputField::MinPerEval), InputField::Weight);
    assert_eq!(field_after_collapse(InputField::Name), InputField::Name);
    assert_eq!(field_after_collapse(InputField::WeightedEvals), InputField::Weight);
    assert_eq!(field_after_collapse(InputField::OnMinPerEvalNotMet), InputField::Weight);
    assert_eq!(field_after_collapse(InputField::MinOneEval), InputField::Weight);
    assert_eq!(field_after_collapse(InputField::OnMinOneEvalNotMet), InputField::Weight);
    assert_eq!(field_after_collapse(InputField::Weight), InputField::Weight);
}

#[test]
fn opening_screen() {
    assert_eq!(initial_screen(false, true), Screen::Welcome);
    assert_eq!(initial_screen(true, true), Screen::Home);
    assert_eq!(initial_screen(true, false), Screen::Main);
}

fn toggles() -> Toggles {
    Toggles {
        drop_lowest: 0,
        averaging_method: AveragingMethod::Arithmetic,
        on_min_not_met: MinimumNotMetAction::FinalEqualsAverage,
        on_min_per_eval_not_met: MinimumNotMetAction::FailCourse,
        on_min_one_eval_not_met: MinimumNotMetAction::CapFinalGrade,
        round_before_weighting: false,
        weighted_evaluations: true,
        global_policy: GlobalPolicyKind::NoGlobal,
        attendance_action: AttendanceAction::WarnOnly,
    }
}

#[test]
fn cycle_toggle_steps_each_field() {
    let t = toggles();
    assert_eq!(cycle_toggle(t, InputField::DropLowest, true).drop_lowest, 1);
    assert_eq!(cycle_toggle(t, InputField::DropLowest, false).drop_lowest, MAX_DROP_LOWEST);
    assert_eq!(cycle_toggle(t, InputField::AvgMethod, false).averaging_method, AveragingMethod::Geometric);
    assert_eq!(cycle_toggle(t, InputField::OnMinNotMet, true).on_min_not_met, MinimumNotMetAction::RequiresGlobal);
    assert_eq!(cycle_toggle(t, InputField::OnMinNotMet, false).on_min_not_met, MinimumNotMetAction::CapFinalGrade);
    assert_eq!(cycle_toggle(t, InputField::OnMinPerEvalNotMet, true).on_min_per_eval_not_met, MinimumNotMetAction::CapFinalGrade);
    assert_eq!(cycle_toggle(t, InputField::OnMinOneEvalNotMet, true).on_min_one_eval_not_met, MinimumNotMetAction::FinalEqualsAverage);
    assert!(cycle_toggle(t, InputField::RoundBeforeWeight, true).round_before_weighting);
    assert!(!cycle_toggle(t, InputField::WeightedEvals, false).weighted_evaluations);
    assert_eq!(cycle_toggle(t, InputField::GlobalPolicy, true).global_policy, GlobalPolicyKind::Weighted);
    assert_eq!(cycle_toggle(t, InputField::GlobalPolicy, false).global_policy, GlobalPolicyKind::ReplacesWorstGrade);
    assert_eq!(cycle_toggle(t, InputField::AttendanceAction, true).attendance_action, AttendanceAction::FailCourse);
    assert_eq!(cycle_toggle(t, InputField::Name, true), t);
}

#[test]
fn cycle_toggle_back_and_forth_restores() {
    let t = Toggles { drop_lowest: 5, ..toggles() };
    for f in [InputField::DropLowest, InputField::OnMinNotMet, InputField::GlobalPolicy, InputField::AvgMethod] {
        assert_eq!(cycle_toggle(cycle_toggle(t, f, true), f, false), t);
        assert_eq!(cycle_toggle(cycle_toggle(t, f, false), f, true), t);
    }
}

#[test]
fn cycle_toggle_ignores_a_huge_drop_count_elsewhere() {
    let t = Toggles { drop_lowest: usize::MAX, ..toggles() };
    let r = cycle_toggle(t, InputField::OnMinNotMet, true);
    assert_eq!(r.on_min_not_met, MinimumNotMetAction::RequiresGlobal);
    assert_eq!(r.drop_lowest, usize::MAX);
    assert_eq!(cycle_toggle(t, InputField::DropLowest, false).drop_lowest, usize::MAX - 1);
}
