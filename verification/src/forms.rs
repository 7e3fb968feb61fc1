use vstd::prelude::*;
use crate::model::{
    action_after, action_before, lemma_action_cycle, AttendanceAction, AveragingMethod,
    GlobalPolicyKind, MinimumNotMetAction,
};
use crate::text::{is_blank, trim};

verus! {

/// Current screen/mode of the application.
#[derive(Debug, Clone, Copy, PartialEq, Eq, Structural)]
pub enum Screen {
    Main,
    SelectingTemplate,
    EditingCourse { is_new: bool },
    EditingCategory { is_new: bool },
    EditingEvaluation { is_new: bool },
    ConfirmDelete,
    ConfirmDeleteTemplate,
    SavingTemplate,
    SelectingLanguage,
    Settings,
    BulkAddEvaluations,
    EnteringGlobalGrade,
    /// Full keyboard cheat-sheet overlay.
    Help,
    /// AI import wizard, step 1: shows the prompt to copy to the clipboard.
    ImportPrompt,
    /// AI import wizard, step 2: waits for the user to paste the AI response.
    ImportPaste,
    /// AI import wizard, step 3: previews the parsed course and confirms.
    ImportPreview,
    /// Semester list and dashboard.
    Home,
    /// First run, step 1: pick a language.
    Welcome,
    /// First run, step 2: confirm whether Nerd Font icons render.
    WelcomeFonts,
    EditingSemester { is_new: bool },
    ConfirmDeleteSemester,
    /// Attendance for the selected course.
    EditingAttendance,
}

/// The screen the application opens on: the first-run wizard until it has
/// been completed, else the dashboard or the course view as last left.
pub fn initial_screen(configured: bool, start_on_home: bool) -> (s: Screen)
    ensures
        s == (if !configured {
            Screen::Welcome
        } else if start_on_home {
            Screen::Home
        } else {
            Screen::Main
        }),
{
    if !configured {
        Screen::Welcome
    } else if start_on_home {
        Screen::Home
    } else {
        Screen::Main
    }
}

/// Input field being edited.
#[derive(Debug, Clone, Copy, PartialEq, Eq, Structural)]
pub enum InputField {
    Name,
    PassingGrade,
    Credits,
    Weight,
    Grade,
    Description,
    /// Evaluation weight within a weighted-evaluations category (text input).
    EvalWeight,
    MinimumAverage,
    MinPerEval,
    MinOneEval,
    DropLowest,
    AvgMethod,
    OnMinNotMet,
    OnMinPerEvalNotMet,
    OnMinOneEvalNotMet,
    RoundBeforeWeight,
    /// Toggle: whether evaluations in this category have individual weights.
    WeightedEvals,
    GlobalPolicy,
    GlobalSemesterWeight,
    GlobalExamWeight,
    GlobalMinGrade,
    /// Attendance popup: classes held so far.
    ClassesTotal,
    /// Attendance popup: classes missed.
    ClassesMissed,
    /// Attendance popup: minimum attendance percentage.
    AttendanceRequired,
    /// Attendance popup toggle: what missing the requirement does.
    AttendanceAction,
}

/// Fields that are cycled with Space/Enter/arrows rather than typed into.
pub open spec fn spec_is_toggle(f: InputField) -> bool {
    f == InputField::DropLowest || f == InputField::AvgMethod || f == InputField::OnMinNotMet || f
        == InputField::OnMinPerEvalNotMet || f == InputField::OnMinOneEvalNotMet || f
        == InputField::RoundBeforeWeight || f == InputField::WeightedEvals || f
        == InputField::GlobalPolicy || f == InputField::AttendanceAction
}

/// Fields that only take numbers (digits, dot, comma).
pub open spec fn spec_is_numeric(f: InputField) -> bool {
    f == InputField::PassingGrade || f == InputField::Credits || f == InputField::Weight || f
        == InputField::Grade || f == InputField::EvalWeight || f == InputField::MinimumAverage || f
        == InputField::MinPerEval || f == InputField::MinOneEval || f
        == InputField::GlobalSemesterWeight || f == InputField::GlobalExamWeight || f
        == InputField::GlobalMinGrade || f == InputField::ClassesTotal || f
        == InputField::ClassesMissed || f == InputField::AttendanceRequired
}

/// Whether typing `c` into a field of this kind is accepted.
pub open spec fn spec_accepts(numeric: bool, c: char) -> bool {
    !numeric || ('0' <= c <= '9') || c == '.' || c == ','
}

/// Whether a field holds typed text (toggles are cycled and have none).
pub open spec fn spec_has_text(f: InputField) -> bool {
    !spec_is_toggle(f)
}

impl InputField {
    /// Returns true if this field is a toggle (cycled, not typed).
    pub fn is_toggle(&self) -> (b: bool)
        ensures
            b == spec_is_toggle(*self),
    {
        match self {
            InputField::DropLowest | InputField::AvgMethod | InputField::OnMinNotMet
            | InputField::OnMinPerEvalNotMet | InputField::OnMinOneEvalNotMet
            | InputField::RoundBeforeWeight | InputField::WeightedEvals
            | InputField::GlobalPolicy | InputField::AttendanceAction => true,
            _ => false,
        }
    }

    /// Returns true if this field only accepts numeric input (digits, dot, comma).
    pub fn is_numeric(&self) -> (b: bool)
        ensures
            b == spec_is_numeric(*self),
    {
        match self {
            InputField::PassingGrade | InputField::Credits | InputField::Weight
            | InputField::Grade | InputField::EvalWeight | InputField::MinimumAverage
            | InputField::MinPerEval | InputField::MinOneEval | InputField::GlobalSemesterWeight
            | InputField::GlobalExamWeight | InputField::GlobalMinGrade | InputField::ClassesTotal
            | InputField::ClassesMissed | InputField::AttendanceRequired => true,
            _ => false,
        }
    }

    /// Whether this field has a text buffer to type into: every field but
    /// the toggles.
    pub fn has_text(&self) -> (b: bool)
        ensures
            b == spec_has_text(*self),
    {
        !self.is_toggle()
    }

    /// Whether a typed character goes into this field's buffer: numeric
    /// fields take only digits, dots and commas; text fields take anything.
    pub fn accepts(&self, c: char) -> (b: bool)
        ensures
            b == spec_accepts(spec_is_numeric(*self), c),
    {
        !self.is_numeric() || ('0' <= c && c <= '9') || c == '.' || c == ','
    }
}

/// What decides which fields a form shows, besides the screen.
#[derive(Debug, Clone, Copy, PartialEq, Eq, Structural)]
pub struct FormState {
    /// Global-exam policy chosen in the course form.
    pub global_policy: GlobalPolicyKind,
    /// Whether the advanced-rules section of the category form is expanded.
    pub show_advanced_rules: bool,
    /// Whether a minimum average has been typed.
    pub has_min_average: bool,
    /// Whether a minimum per evaluation has been typed.
    pub has_min_per_eval: bool,
    /// Whether a minimum for at least one evaluation has been typed.
    pub has_min_one_eval: bool,
    /// Whether the evaluation's category weighs its evaluations individually.
    pub weighted_evaluations: bool,
}

/// The field Tab moves to. Each form visits its fields in order and wraps
/// to the name; fields that do not apply (a policy's weights, the action
/// for a minimum that is not set, the advanced rules while collapsed, an
/// evaluation weight outside weighted categories) are skipped.
pub open spec fn next_field(screen: Screen, field: InputField, st: FormState) -> InputField {
    match screen {
        Screen::EditingCourse { .. } => match field {
            InputField::Name => InputField::PassingGrade,
            InputField::PassingGrade => InputField::Credits,
            InputField::Credits => InputField::GlobalPolicy,
            InputField::GlobalPolicy => match st.global_policy {
                GlobalPolicyKind::NoGlobal => InputField::Name,
                GlobalPolicyKind::Weighted => InputField::GlobalSemesterWeight,
                GlobalPolicyKind::ReplacesWorstGrade => InputField::GlobalMinGrade,
            },
            InputField::GlobalSemesterWeight => InputField::GlobalExamWeight,
            InputField::GlobalExamWeight => InputField::GlobalMinGrade,
            InputField::GlobalMinGrade => InputField::Name,
            _ => field,
        },
        Screen::EditingCategory { .. } => match field {
            InputField::Name => InputField::Weight,
            InputField::Weight => if st.show_advanced_rules {
                InputField::DropLowest
            } else {
                InputField::Name
            },
            InputField::DropLowest => InputField::AvgMethod,
            InputField::AvgMethod => InputField::MinimumAverage,
            InputField::MinimumAverage => if st.has_min_average {
                InputField::OnMinNotMet
            } else {
                InputField::MinPerEval
            },
            InputField::OnMinNotMet => InputField::MinPerEval,
            InputField::MinPerEval => if st.has_min_per_eval {
                InputField::OnMinPerEvalNotMet
            } else {
                InputField::MinOneEval
            },
            InputField::OnMinPerEvalNotMet => InputField::MinOneEval,
            InputField::MinOneEval => if st.has_min_one_eval {
                InputField::OnMinOneEvalNotMet
            } else {
                InputField::RoundBeforeWeight
            },
            InputField::OnMinOneEvalNotMet => InputField::RoundBeforeWeight,
            InputField::RoundBeforeWeight => InputField::WeightedEvals,
            InputField::WeightedEvals => InputField::Name,
            _ => field,
        },
        Screen::EditingEvaluation { .. } => match field {
            InputField::Grade => InputField::Name,
            InputField::Name => if st.weighted_evaluations {
                InputField::EvalWeight
            } else {
                InputField::Grade
            },
            InputField::EvalWeight => InputField::Grade,
            _ => field,
        },
        Screen::SavingTemplate => match field {
            InputField::Name => InputField::Description,
            InputField::Description => InputField::Name,
            _ => field,
        },
        Screen::EditingAttendance => match field {
            InputField::ClassesTotal => InputField::ClassesMissed,
            InputField::ClassesMissed => InputField::AttendanceRequired,
            InputField::AttendanceRequired => InputField::AttendanceAction,
            InputField::AttendanceAction => InputField::ClassesTotal,
            _ => field,
        },
        _ => field,
    }
}

/// The form state given the typed minimum buffers: a minimum counts as set
/// once anything but white space has been typed.
pub open spec fn form_state_of(
    global_policy: GlobalPolicyKind,
    show_advanced_rules: bool,
    min_average: Seq<char>,
    min_per_eval: Seq<char>,
    min_one_eval: Seq<char>,
    weighted_evaluations: bool,
) -> FormState {
    FormState {
        global_policy,
        show_advanced_rules,
        has_min_average: trim(min_average).len() > 0,
        has_min_per_eval: trim(min_per_eval).len() > 0,
        has_min_one_eval: trim(min_one_eval).len() > 0,
        weighted_evaluations,
    }
}

/// Read the form state from the editor's buffers.
pub fn form_state(
    global_policy: GlobalPolicyKind,
    show_advanced_rules: bool,
    min_average: &str,
    min_per_eval: &str,
    min_one_eval: &str,
    weighted_evaluations: bool,
) -> (st: FormState)
    ensures
        st == form_state_of(
            global_policy,
            show_advanced_rules,
            min_average@,
            min_per_eval@,
            min_one_eval@,
            weighted_evaluations,
        ),
{
    FormState {
        global_policy,
        show_advanced_rules,
        has_min_average: !is_blank(min_average),
        has_min_per_eval: !is_blank(min_per_eval),
        has_min_one_eval: !is_blank(min_one_eval),
        weighted_evaluations,
    }
}

/// The field Tab moves to (see [`next_field`]).
pub fn next_input_field(screen: Screen, field: InputField, st: FormState) -> (f: InputField)
    ensures
        f == next_field(screen, field, st),
{
    match screen {
        Screen::EditingCourse { .. } => match field {
            InputField::Name => InputField::PassingGrade,
            InputField::PassingGrade => InputField::Credits,
            InputField::Credits => InputField::GlobalPolicy,
            InputField::GlobalPolicy => match st.global_policy {
                GlobalPolicyKind::NoGlobal => InputField::Name,
                GlobalPolicyKind::Weighted => InputField::GlobalSemesterWeight,
                GlobalPolicyKind::ReplacesWorstGrade => InputField::GlobalMinGrade,
            },
            InputField::GlobalSemesterWeight => InputField::GlobalExamWeight,
            InputField::GlobalExamWeight => InputField::GlobalMinGrade,
            InputField::GlobalMinGrade => InputField::Name,
            _ => field,
        },
        Screen::EditingCategory { .. } => match field {
            InputField::Name => InputField::Weight,
            InputField::Weight => if st.show_advanced_rules {
                InputField::DropLowest
            } else {
                InputField::Name
            },
            InputField::DropLowest => InputField::AvgMethod,
            InputField::AvgMethod => InputField::MinimumAverage,
            InputField::MinimumAverage => if st.has_min_average {
                InputField::OnMinNotMet
            } else {
                InputField::MinPerEval
            },
            InputField::OnMinNotMet => InputField::MinPerEval,
            InputField::MinPerEval => if st.has_min_per_eval {
                InputField::OnMinPerEvalNotMet
            } else {
                InputField::MinOneEval
            },
            InputField::OnMinPerEvalNotMet => InputField::MinOneEval,
            InputField::MinOneEval => if st.has_min_one_eval {
                InputField::OnMinOneEvalNotMet
            } else {
                InputField::RoundBeforeWeight
            },
            InputField::OnMinOneEvalNotMet => InputField::RoundBeforeWeight,
            InputField::RoundBeforeWeight => InputField::WeightedEvals,
            InputField::WeightedEvals => InputField::Name,
            _ => field,
        },
        Screen::EditingEvaluation { .. } => match field {
            InputField::Grade => InputField::Name,
            InputField::Name => if st.weighted_evaluations {
                InputField::EvalWeight
            } else {
                InputField::Grade
            },
            InputField::EvalWeight => InputField::Grade,
            _ => field,
        },
        Screen::SavingTemplate => match field {
            InputField::Name => InputField::Description,
            InputField::Description => InputField::Name,
            _ => field,
        },
        Screen::EditingAttendance => match field {
            InputField::ClassesTotal => InputField::ClassesMissed,
            InputField::ClassesMissed => InputField::AttendanceRequired,
            InputField::AttendanceRequired => InputField::AttendanceAction,
            InputField::AttendanceAction => InputField::ClassesTotal,
            _ => field,
        },
        _ => field,
    }
}

/// Tab applied `n` times.
pub open spec fn tabbed(screen: Screen, field: InputField, st: FormState, n: nat) -> InputField
    decreases n,
{
    if n == 0 {
        field
    } else {
        next_field(screen, tabbed(screen, field, st, (n - 1) as nat), st)
    }
}

/// Tab cycles every form back to its name field: from the name, the course
/// form returns within seven presses, the category form within fourteen,
/// the evaluation form within three and the template form within two.
pub proof fn lemma_tab_returns_to_name(screen: Screen, st: FormState)
    ensures
        screen is EditingCourse ==> exists|n: nat|
            1 <= n <= 7 && #[trigger] tabbed(screen, InputField::Name, st, n) == InputField::Name,
        screen is EditingCategory ==> exists|n: nat|
            1 <= n <= 14 && #[trigger] tabbed(screen, InputField::Name, st, n) == InputField::Name,
        screen is EditingEvaluation ==> exists|n: nat|
            1 <= n <= 3 && #[trigger] tabbed(screen, InputField::Name, st, n) == InputField::Name,
        screen == Screen::SavingTemplate ==> tabbed(screen, InputField::Name, st, 2)
            == InputField::Name,
{
    reveal_with_fuel(tabbed, 15);
    let f = InputField::Name;
    if screen is EditingCourse {
        let n: nat = match st.global_policy {
            GlobalPolicyKind::NoGlobal => 4,
            GlobalPolicyKind::Weighted => 7,
            GlobalPolicyKind::ReplacesWorstGrade => 5,
        };
        assert(tabbed(screen, f, st, n) == InputField::Name);
    }
    if screen is EditingCategory {
        let n: nat = if !st.show_advanced_rules {
            2
        } else {
            (9 + (if st.has_min_average { 1nat } else { 0nat }) + (if st.has_min_per_eval {
                1nat
            } else {
                0nat
            }) + (if st.has_min_one_eval { 1nat } else { 0nat })) as nat
        };
        assert(tabbed(screen, f, st, n) == InputField::Name);
    }
    if screen is EditingEvaluation {
        let n: nat = if st.weighted_evaluations { 3 } else { 2 };
        assert(tabbed(screen, f, st, n) == InputField::Name);
    }
}

/// Largest number of lowest grades a category may drop.
pub const MAX_DROP_LOWEST: usize = 5;

/// The drop-lowest setting after cycling forward: 0, 1, ..., 5, then 0.
pub fn drop_lowest_next(d: usize) -> (r: usize)
    requires
        d < usize::MAX,
    ensures
        r == (d + 1) % (MAX_DROP_LOWEST + 1) as int,
        r <= MAX_DROP_LOWEST,
{
    (d + 1) % (MAX_DROP_LOWEST + 1)
}

/// The drop-lowest setting after cycling backward: 0 goes to 5.
pub fn drop_lowest_previous(d: usize) -> (r: usize)
    ensures
        r == (if d == 0 { MAX_DROP_LOWEST } else { (d - 1) as usize }),
{
    if d == 0 {
        MAX_DROP_LOWEST
    } else {
        d - 1
    }
}

impl GlobalPolicyKind {
    /// The next policy when cycling the course form's toggle:
    /// none, weighted, replaces-worst, then none again.
    pub fn next(self) -> (k: GlobalPolicyKind)
        ensures
            k == match self {
                GlobalPolicyKind::NoGlobal => GlobalPolicyKind::Weighted,
                GlobalPolicyKind::Weighted => GlobalPolicyKind::ReplacesWorstGrade,
                GlobalPolicyKind::ReplacesWorstGrade => GlobalPolicyKind::NoGlobal,
            },
    {
        match self {
            GlobalPolicyKind::NoGlobal => GlobalPolicyKind::Weighted,
            GlobalPolicyKind::Weighted => GlobalPolicyKind::ReplacesWorstGrade,
            GlobalPolicyKind::ReplacesWorstGrade => GlobalPolicyKind::NoGlobal,
        }
    }

    /// The previous policy when cycling the course form's toggle backward.
    pub fn previous(self) -> (k: GlobalPolicyKind)
        ensures
            k == match self {
                GlobalPolicyKind::NoGlobal => GlobalPolicyKind::ReplacesWorstGrade,
                GlobalPolicyKind::ReplacesWorstGrade => GlobalPolicyKind::Weighted,
                GlobalPolicyKind::Weighted => GlobalPolicyKind::NoGlobal,
            },
    {
        match self {
            GlobalPolicyKind::NoGlobal => GlobalPolicyKind::ReplacesWorstGrade,
            GlobalPolicyKind::ReplacesWorstGrade => GlobalPolicyKind::Weighted,
            GlobalPolicyKind::Weighted => GlobalPolicyKind::NoGlobal,
        }
    }
}

/// The values of a form that are cycled rather than typed.
#[derive(Debug, Clone, Copy, PartialEq, Eq, Structural)]
pub struct Toggles {
    pub drop_lowest: usize,
    pub averaging_method: AveragingMethod,
    pub on_min_not_met: MinimumNotMetAction,
    pub on_min_per_eval_not_met: MinimumNotMetAction,
    pub on_min_one_eval_not_met: MinimumNotMetAction,
    pub round_before_weighting: bool,
    pub weighted_evaluations: bool,
    pub global_policy: GlobalPolicyKind,
    pub attendance_action: AttendanceAction,
}

pub open spec fn policy_after(k: GlobalPolicyKind) -> GlobalPolicyKind {
    match k {
        GlobalPolicyKind::NoGlobal => GlobalPolicyKind::Weighted,
        GlobalPolicyKind::Weighted => GlobalPolicyKind::ReplacesWorstGrade,
        GlobalPolicyKind::ReplacesWorstGrade => GlobalPolicyKind::NoGlobal,
    }
}

pub open spec fn policy_before(k: GlobalPolicyKind) -> GlobalPolicyKind {
    match k {
        GlobalPolicyKind::NoGlobal => GlobalPolicyKind::ReplacesWorstGrade,
        GlobalPolicyKind::ReplacesWorstGrade => GlobalPolicyKind::Weighted,
        GlobalPolicyKind::Weighted => GlobalPolicyKind::NoGlobal,
    }
}

pub open spec fn other_method(m: AveragingMethod) -> AveragingMethod {
    match m {
        AveragingMethod::Arithmetic => AveragingMethod::Geometric,
        AveragingMethod::Geometric => AveragingMethod::Arithmetic,
    }
}

pub open spec fn other_attendance_action(a: AttendanceAction) -> AttendanceAction {
    match a {
        AttendanceAction::WarnOnly => AttendanceAction::FailCourse,
        AttendanceAction::FailCourse => AttendanceAction::WarnOnly,
    }
}

/// The toggles after cycling the value of `field` one step, forward or
/// backward. A field that is not a toggle leaves everything as it was; two-
/// state toggles flip either way.
pub open spec fn cycled(t: Toggles, field: InputField, forward: bool) -> Toggles {
    match field {
        InputField::DropLowest => Toggles {
            drop_lowest: if forward {
                ((t.drop_lowest + 1) % (MAX_DROP_LOWEST + 1) as int) as usize
            } else if t.drop_lowest == 0 {
                MAX_DROP_LOWEST
            } else {
                (t.drop_lowest - 1) as usize
            },
            ..t
        },
        InputField::AvgMethod => Toggles { averaging_method: other_method(t.averaging_method), ..t },
        InputField::OnMinNotMet => Toggles {
            on_min_not_met: if forward {
                action_after(t.on_min_not_met)
            } else {
                action_before(t.on_min_not_met)
            },
            ..t
        },
        InputField::OnMinPerEvalNotMet => Toggles {
            on_min_per_eval_not_met: if forward {
                action_after(t.on_min_per_eval_not_met)
            } else {
                action_before(t.on_min_per_eval_not_met)
            },
            ..t
        },
        InputField::OnMinOneEvalNotMet => Toggles {
            on_min_one_eval_not_met: if forward {
                action_after(t.on_min_one_eval_not_met)
            } else {
                action_before(t.on_min_one_eval_not_met)
            },
            ..t
        },
        InputField::RoundBeforeWeight => Toggles {
            round_before_weighting: !t.round_before_weighting,
            ..t
        },
        InputField::WeightedEvals => Toggles { weighted_evaluations: !t.weighted_evaluations, ..t },
        InputField::GlobalPolicy => Toggles {
            global_policy: if forward {
                policy_after(t.global_policy)
            } else {
                policy_before(t.global_policy)
            },
            ..t
        },
        InputField::AttendanceAction => Toggles {
            attendance_action: other_attendance_action(t.attendance_action),
            ..t
        },
        _ => t,
    }
}

/// Cycle the toggle under the cursor (forward: Right, Space, Enter, `l`;
/// backward: Left, `h`). Only stepping the drop-lowest count forward adds to
/// it, so only there must it be below `usize::MAX`.
pub fn cycle_toggle(t: Toggles, field: InputField, forward: bool) -> (r: Toggles)
    requires
        field == InputField::DropLowest && forward ==> t.drop_lowest < usize::MAX,
    ensures
        r == cycled(t, field, forward),
{
    let mut r = t;
    match field {
        InputField::DropLowest => {
            r.drop_lowest = if forward {
                drop_lowest_next(t.drop_lowest)
            } else {
                drop_lowest_previous(t.drop_lowest)
            };
        },
        InputField::AvgMethod => {
            r.averaging_method = t.averaging_method.toggled();
        },
        InputField::OnMinNotMet => {
            r.on_min_not_met = if forward {
                t.on_min_not_met.next()
            } else {
                t.on_min_not_met.previous()
            };
        },
        InputField::OnMinPerEvalNotMet => {
            r.on_min_per_eval_not_met = if forward {
                t.on_min_per_eval_not_met.next()
            } else {
                t.on_min_per_eval_not_met.previous()
            };
        },
        InputField::OnMinOneEvalNotMet => {
            r.on_min_one_eval_not_met = if forward {
                t.on_min_one_eval_not_met.next()
            } else {
                t.on_min_one_eval_not_met.previous()
            };
        },
        InputField::RoundBeforeWeight => {
            r.round_before_weighting = !t.round_before_weighting;
        },
        InputField::WeightedEvals => {
            r.weighted_evaluations = !t.weighted_evaluations;
        },
        InputField::GlobalPolicy => {
            r.global_policy = if forward {
                t.global_policy.next()
            } else {
                t.global_policy.previous()
            };
        },
        InputField::AttendanceAction => {
            r.attendance_action = t.attendance_action.toggled();
        },
        _ => {},
    }
    r
}

/// Cycling a toggle one step backward undoes one step forward (and the other
/// way round), whatever the field, once the drop-lowest setting is in range.
pub proof fn lemma_cycle_round_trip(t: Toggles, field: InputField)
    requires
        t.drop_lowest <= MAX_DROP_LOWEST,
    ensures
        cycled(cycled(t, field, true), field, false) == t,
        cycled(cycled(t, field, false), field, true) == t,
{
    lemma_action_cycle(t.on_min_not_met);
    lemma_action_cycle(t.on_min_per_eval_not_met);
    lemma_action_cycle(t.on_min_one_eval_not_met);
}

/// Whether a field of the category form belongs to its advanced rules.
pub open spec fn is_advanced_rule(f: InputField) -> bool {
    f == InputField::DropLowest || f == InputField::AvgMethod || f == InputField::MinimumAverage
        || f == InputField::OnMinNotMet || f == InputField::MinPerEval || f
        == InputField::OnMinPerEvalNotMet || f == InputField::MinOneEval || f
        == InputField::OnMinOneEvalNotMet || f == InputField::RoundBeforeWeight || f
        == InputField::WeightedEvals
}

/// The minimum-not-met action that `f` edits (for the three action fields).
pub open spec fn action_of(t: Toggles, f: InputField) -> MinimumNotMetAction {
    if f == InputField::OnMinNotMet {
        t.on_min_not_met
    } else if f == InputField::OnMinPerEvalNotMet {
        t.on_min_per_eval_not_met
    } else {
        t.on_min_one_eval_not_met
    }
}

/// Cycling a minimum-not-met action forward runs through all four actions,
/// in the order final = average, requires global, fail course, cap final
/// grade, and back: four presses return the form to where it was, the four
/// actions seen on the way are all different, and nothing else changes.
pub proof fn lemma_action_toggle_cycles(t: Toggles, f: InputField)
    requires
        f == InputField::OnMinNotMet || f == InputField::OnMinPerEvalNotMet || f
            == InputField::OnMinOneEvalNotMet,
    ensures
        ({
            let t1 = cycled(t, f, true);
            let t2 = cycled(t1, f, true);
            let t3 = cycled(t2, f, true);
            let a0 = action_of(t, f);
            let a1 = action_of(t1, f);
            let a2 = action_of(t2, f);
            let a3 = action_of(t3, f);
            &&& cycled(t3, f, true) == t
            &&& a0 != a1 && a0 != a2 && a0 != a3 && a1 != a2 && a1 != a3 && a2 != a3
            &&& a0 == MinimumNotMetAction::FinalEqualsAverage ==> a1
                == MinimumNotMetAction::RequiresGlobal && a2 == MinimumNotMetAction::FailCourse
                && a3 == MinimumNotMetAction::CapFinalGrade
            &&& t1.drop_lowest == t.drop_lowest && t1.averaging_method == t.averaging_method
                && t1.round_before_weighting == t.round_before_weighting
                && t1.weighted_evaluations == t.weighted_evaluations && t1.global_policy
                == t.global_policy && t1.attendance_action == t.attendance_action
        }),
{
}

/// Whether Tab, pressed one to fourteen times from the name, lands on `f`.
pub open spec fn tab_reaches(screen: Screen, st: FormState, f: InputField) -> bool {
    exists|n: nat| 1 <= n <= 14 && #[trigger] tabbed(screen, InputField::Name, st, n) == f
}

/// The other toggles: the drop-lowest count steps up by one and wraps from
/// five to zero (and back the other way), the global-exam policy runs through
/// its three kinds in the order none, weighted, replaces worst, and the
/// two-valued toggles flip; each press changes only the field under the
/// cursor.
pub proof fn lemma_other_toggles_step(t: Toggles)
    requires
        t.drop_lowest <= MAX_DROP_LOWEST,
    ensures
        cycled(t, InputField::DropLowest, true).drop_lowest == (if t.drop_lowest == 5 {
            0
        } else {
            t.drop_lowest + 1
        }),
        cycled(t, InputField::DropLowest, false).drop_lowest == (if t.drop_lowest == 0 {
            5
        } else {
            t.drop_lowest - 1
        }),
        cycled(t, InputField::DropLowest, true).global_policy == t.global_policy,
        t.global_policy == GlobalPolicyKind::NoGlobal ==> cycled(t, InputField::GlobalPolicy, true).global_policy
            == GlobalPolicyKind::Weighted,
        t.global_policy == GlobalPolicyKind::Weighted ==> cycled(t, InputField::GlobalPolicy, true).global_policy
            == GlobalPolicyKind::ReplacesWorstGrade,
        t.global_policy == GlobalPolicyKind::ReplacesWorstGrade ==> cycled(
            t,
            InputField::GlobalPolicy,
            true,
        ).global_policy == GlobalPolicyKind::NoGlobal,
        cycled(t, InputField::GlobalPolicy, true).drop_lowest == t.drop_lowest,
        cycled(t, InputField::AvgMethod, true).averaging_method != t.averaging_method,
        cycled(t, InputField::AvgMethod, false).averaging_method != t.averaging_method,
        cycled(t, InputField::RoundBeforeWeight, true).round_before_weighting
            != t.round_before_weighting,
        cycled(t, InputField::WeightedEvals, true).weighted_evaluations != t.weighted_evaluations,
        cycled(t, InputField::AttendanceAction, true).attendance_action != t.attendance_action,
        cycled(t, InputField::Name, true) == t,
        cycled(t, InputField::Weight, false) == t,
{
}

/// In the category form with its advanced rules shown, Tab from the name
/// reaches every field that applies: the weight, each rule, and the action
/// of each minimum that has been typed, all within one round.
pub proof fn lemma_category_tab_visits_every_rule(screen: Screen, st: FormState)
    requires
        screen is EditingCategory,
        st.show_advanced_rules,
    ensures
        tab_reaches(screen, st, InputField::Weight),
        tab_reaches(screen, st, InputField::DropLowest),
        tab_reaches(screen, st, InputField::AvgMethod),
        tab_reaches(screen, st, InputField::MinimumAverage),
        st.has_min_average ==> tab_reaches(screen, st, InputField::OnMinNotMet),
        tab_reaches(screen, st, InputField::MinPerEval),
        st.has_min_per_eval ==> tab_reaches(screen, st, InputField::OnMinPerEvalNotMet),
        tab_reaches(screen, st, InputField::MinOneEval),
        st.has_min_one_eval ==> tab_reaches(screen, st, InputField::OnMinOneEvalNotMet),
        tab_reaches(screen, st, InputField::RoundBeforeWeight),
        tab_reaches(screen, st, InputField::WeightedEvals),
{
    reveal_with_fuel(tabbed, 15);
    let a: nat = if st.has_min_average { 1 } else { 0 };
    let b: nat = if st.has_min_per_eval { 1 } else { 0 };
    let c: nat = if st.has_min_one_eval { 1 } else { 0 };
    let name = InputField::Name;
    assert(tabbed(screen, name, st, 1) == InputField::Weight);
    assert(tabbed(screen, name, st, 2) == InputField::DropLowest);
    assert(tabbed(screen, name, st, 3) == InputField::AvgMethod);
    assert(tabbed(screen, name, st, 4) == InputField::MinimumAverage);
    if st.has_min_average {
        assert(tabbed(screen, name, st, 5) == InputField::OnMinNotMet);
    }
    assert(tabbed(screen, name, st, 5 + a) == InputField::MinPerEval);
    if st.has_min_per_eval {
        assert(tabbed(screen, name, st, 6 + a) == InputField::OnMinPerEvalNotMet);
    }
    assert(tabbed(screen, name, st, 6 + a + b) == InputField::MinOneEval);
    if st.has_min_one_eval {
        assert(tabbed(screen, name, st, 7 + a + b) == InputField::OnMinOneEvalNotMet);
    }
    assert(tabbed(screen, name, st, 7 + a + b + c) == InputField::RoundBeforeWeight);
    assert(tabbed(screen, name, st, 8 + a + b + c) == InputField::WeightedEvals);
}

/// The focused field once the advanced-rules section collapses: a field
/// that just disappeared hands the focus back to the weight.
pub fn field_after_collapse(field: InputField) -> (f: InputField)
    ensures
        f == (if is_advanced_rule(field) {
            InputField::Weight
        } else {
            field
        }),
{
    match field {
        InputField::DropLowest | InputField::AvgMethod | InputField::MinimumAverage
        | InputField::OnMinNotMet | InputField::MinPerEval | InputField::OnMinPerEvalNotMet
        | InputField::MinOneEval | InputField::OnMinOneEvalNotMet
        | InputField::RoundBeforeWeight | InputField::WeightedEvals => InputField::Weight,
        _ => field,
    }
}

/// No field is both typed and cycled.
pub proof fn lemma_toggle_fields_are_not_numeric(f: InputField)
    ensures
        !(spec_is_toggle(f) && spec_is_numeric(f)),
{
}

} // verus!
