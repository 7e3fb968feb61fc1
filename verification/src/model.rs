use vstd::prelude::*;

verus! {

/// How to average evaluations within a category.
#[derive(Debug, Clone, Copy, PartialEq, Eq, Structural)]
pub enum AveragingMethod {
    /// Standard arithmetic mean: sum / count
    Arithmetic,
    /// Geometric mean: (product)^(1/count) — a single 0 makes the result 0
    Geometric,
}

impl Default for AveragingMethod {
    fn default() -> (m: AveragingMethod)
        ensures
            m == AveragingMethod::Arithmetic,
    {
        AveragingMethod::Arithmetic
    }
}

impl AveragingMethod {
    /// The other averaging method (the form toggles between the two).
    pub fn toggled(self) -> (m: AveragingMethod)
        ensures
            m != self,
    {
        match self {
            AveragingMethod::Arithmetic => AveragingMethod::Geometric,
            AveragingMethod::Geometric => AveragingMethod::Arithmetic,
        }
    }
}

/// What happens when a category's minimum requirement is not met.
#[derive(Debug, Clone, Copy, PartialEq, Eq, Structural)]
pub enum MinimumNotMetAction {
    /// Final grade = this category's average (other categories ignored)
    FinalEqualsAverage,
    /// Student must take the global exam (handled at course level)
    RequiresGlobal,
    /// Course is automatically failed (grade capped at 0)
    FailCourse,
    /// The final grade may not exceed the category's cap.
    CapFinalGrade,
}

impl Default for MinimumNotMetAction {
    fn default() -> (a: MinimumNotMetAction)
        ensures
            a == MinimumNotMetAction::FinalEqualsAverage,
    {
        MinimumNotMetAction::FinalEqualsAverage
    }
}

/// Position of an action in the order the form cycles through them.
pub open spec fn action_index(a: MinimumNotMetAction) -> int {
    match a {
        MinimumNotMetAction::FinalEqualsAverage => 0,
        MinimumNotMetAction::RequiresGlobal => 1,
        MinimumNotMetAction::FailCourse => 2,
        MinimumNotMetAction::CapFinalGrade => 3,
    }
}

/// Number of minimum-not-met actions.
pub open spec fn action_count() -> int {
    4
}

/// The action after `a` in the cycle order, wrapping to the first.
pub open spec fn action_after(a: MinimumNotMetAction) -> MinimumNotMetAction {
    match a {
        MinimumNotMetAction::FinalEqualsAverage => MinimumNotMetAction::RequiresGlobal,
        MinimumNotMetAction::RequiresGlobal => MinimumNotMetAction::FailCourse,
        MinimumNotMetAction::FailCourse => MinimumNotMetAction::CapFinalGrade,
        MinimumNotMetAction::CapFinalGrade => MinimumNotMetAction::FinalEqualsAverage,
    }
}

/// The action before `a` in the cycle order, wrapping to the last.
pub open spec fn action_before(a: MinimumNotMetAction) -> MinimumNotMetAction {
    match a {
        MinimumNotMetAction::FinalEqualsAverage => MinimumNotMetAction::CapFinalGrade,
        MinimumNotMetAction::RequiresGlobal => MinimumNotMetAction::FinalEqualsAverage,
        MinimumNotMetAction::FailCourse => MinimumNotMetAction::RequiresGlobal,
        MinimumNotMetAction::CapFinalGrade => MinimumNotMetAction::FailCourse,
    }
}

impl MinimumNotMetAction {
    /// The action after this one in the cycle order, wrapping to the first.
    pub fn next(self) -> (a: MinimumNotMetAction)
        ensures
            a == action_after(self),
            action_index(a) == (action_index(self) + 1) % action_count(),
    {
        match self {
            MinimumNotMetAction::FinalEqualsAverage => MinimumNotMetAction::RequiresGlobal,
            MinimumNotMetAction::RequiresGlobal => MinimumNotMetAction::FailCourse,
            MinimumNotMetAction::FailCourse => MinimumNotMetAction::CapFinalGrade,
            MinimumNotMetAction::CapFinalGrade => MinimumNotMetAction::FinalEqualsAverage,
        }
    }

    /// The action before this one in the cycle order, wrapping to the last.
    pub fn previous(self) -> (a: MinimumNotMetAction)
        ensures
            a == action_before(self),
            action_index(a) == (action_index(self) + action_count() - 1) % action_count(),
    {
        match self {
            MinimumNotMetAction::FinalEqualsAverage => MinimumNotMetAction::CapFinalGrade,
            MinimumNotMetAction::RequiresGlobal => MinimumNotMetAction::FinalEqualsAverage,
            MinimumNotMetAction::FailCourse => MinimumNotMetAction::RequiresGlobal,
            MinimumNotMetAction::CapFinalGrade => MinimumNotMetAction::FailCourse,
        }
    }
}

/// `next` and `previous` undo each other, and stepping forward once per
/// action goes full circle: every action is reached and the cycle closes.
pub proof fn lemma_action_cycle(a: MinimumNotMetAction)
    ensures
        action_before(action_after(a)) == a,
        action_after(action_before(a)) == a,
        action_after(action_after(action_after(action_after(a)))) == a,
        a != action_after(a),
{
}

/// Which global-exam policy a course follows, without its weights.
#[derive(Debug, Clone, Copy, PartialEq, Eq, Structural)]
pub enum GlobalPolicyKind {
    /// No global exam.
    NoGlobal,
    /// Final grade is a weighted mix of the semester grade and the global.
    Weighted,
    /// The global replaces the worst grade of a category.
    ReplacesWorstGrade,
}

/// What falling below the required attendance does to the course.
#[derive(Debug, Clone, Copy, PartialEq, Eq, Structural)]
pub enum AttendanceAction {
    /// Show it, but let the grades decide the verdict.
    WarnOnly,
    /// The course is failed regardless of the grades.
    FailCourse,
}

impl Default for AttendanceAction {
    fn default() -> (a: AttendanceAction)
        ensures
            a == AttendanceAction::WarnOnly,
    {
        AttendanceAction::WarnOnly
    }
}

impl AttendanceAction {
    /// The other action (the attendance popup toggles between the two).
    pub fn toggled(self) -> (a: AttendanceAction)
        ensures
            a != self,
    {
        match self {
            AttendanceAction::WarnOnly => AttendanceAction::FailCourse,
            AttendanceAction::FailCourse => AttendanceAction::WarnOnly,
        }
    }
}

/// Result status for a needed-grade calculation.
#[derive(Debug, Clone, Copy, PartialEq, Eq, Structural)]
pub enum NeededGradeStatus {
    /// Already passing or needs 0+
    Success,
    /// Cannot pass (needs > 100 or impossible)
    Failure,
    /// Needs a specific achievable grade
    Warning,
    /// Informational (no evaluations, etc.)
    Info,
}

/// Where a course stands overall.
#[derive(Debug, Clone, Copy, PartialEq, Eq, Structural)]
pub enum CourseOutcome {
    /// No evaluations to judge yet.
    NoData,
    Passing,
    Failing,
    /// Failing its semester grade, with a global exam still to decide it.
    PendingGlobal,
}

/// How many courses fall into each [`CourseOutcome`].
#[derive(Debug, Clone, Copy, PartialEq, Eq, Structural)]
pub struct OutcomeCounts {
    pub passing: usize,
    pub failing: usize,
    pub pending_global: usize,
    pub no_data: usize,
}

impl Default for OutcomeCounts {
    fn default() -> (c: OutcomeCounts)
        ensures
            c.passing == 0 && c.failing == 0 && c.pending_global == 0 && c.no_data == 0,
    {
        OutcomeCounts { passing: 0, failing: 0, pending_global: 0, no_data: 0 }
    }
}

/// Number of entries of `s` equal to `o`.
pub open spec fn count_of(s: Seq<CourseOutcome>, o: CourseOutcome) -> nat
    decreases s.len(),
{
    if s.len() == 0 {
        0
    } else {
        count_of(s.drop_last(), o) + if s.last() == o { 1nat } else { 0nat }
    }
}

/// Each count of a tally is the number of times the outcome occurs among the
/// courses (its multiplicity in them).
pub proof fn lemma_count_of_is_multiplicity(s: Seq<CourseOutcome>, o: CourseOutcome)
    ensures
        count_of(s, o) == s.to_multiset().count(o),
    decreases s.len(),
{
    broadcast use vstd::multiset::group_multiset_axioms;
    broadcast use vstd::seq_lib::group_to_multiset_ensures;

    if s.len() == 0 {
        assert(!s.contains(o));
    } else {
        let rest = s.drop_last();
        lemma_count_of_is_multiplicity(rest, o);
        assert(rest.push(s.last()) =~= s);
        vstd::seq_lib::to_multiset_build(rest, s.last());
    }
}

/// A count of one outcome never exceeds the number of outcomes.
pub proof fn lemma_count_of_bounded(s: Seq<CourseOutcome>, o: CourseOutcome)
    ensures
        count_of(s, o) <= s.len(),
    decreases s.len(),
{
    if s.len() > 0 {
        lemma_count_of_bounded(s.drop_last(), o);
    }
}

/// Every outcome is counted exactly once: the four counts add up to the
/// number of courses.
pub proof fn lemma_counts_partition(s: Seq<CourseOutcome>)
    ensures
        count_of(s, CourseOutcome::Passing) + count_of(s, CourseOutcome::Failing) + count_of(
            s,
            CourseOutcome::PendingGlobal,
        ) + count_of(s, CourseOutcome::NoData) == s.len(),
    decreases s.len(),
{
    if s.len() > 0 {
        lemma_counts_partition(s.drop_last());
    }
}

impl OutcomeCounts {
    /// Count the outcomes of a semester's courses.
    pub fn tally(outcomes: &[CourseOutcome]) -> (c: OutcomeCounts)
        ensures
            c.passing == count_of(outcomes@, CourseOutcome::Passing),
            c.failing == count_of(outcomes@, CourseOutcome::Failing),
            c.pending_global == count_of(outcomes@, CourseOutcome::PendingGlobal),
            c.no_data == count_of(outcomes@, CourseOutcome::NoData),
    {
        let mut c = OutcomeCounts::default();
        let mut i: usize = 0;
        while i < outcomes.len()
            invariant
                i <= outcomes@.len(),
                c.passing == count_of(outcomes@.take(i as int), CourseOutcome::Passing),
                c.failing == count_of(outcomes@.take(i as int), CourseOutcome::Failing),
                c.pending_global == count_of(outcomes@.take(i as int), CourseOutcome::PendingGlobal),
                c.no_data == count_of(outcomes@.take(i as int), CourseOutcome::NoData),
            decreases outcomes@.len() - i,
        {
            let ghost prefix = outcomes@.take(i as int);
            let ghost next = outcomes@.take(i + 1);
            assert(next.drop_last() =~= prefix);
            proof {
                lemma_count_of_bounded(prefix, outcomes@[i as int]);
            }
            match outcomes[i] {
                CourseOutcome::Passing => c.passing = c.passing + 1,
                CourseOutcome::Failing => c.failing = c.failing + 1,
                CourseOutcome::PendingGlobal => c.pending_global = c.pending_global + 1,
                CourseOutcome::NoData => c.no_data = c.no_data + 1,
            }
            i = i + 1;
        }
        assert(outcomes@.take(outcomes@.len() as int) =~= outcomes@);
        c
    }
}


/// Sum of the declared credits (undeclared ones count as nothing).
pub open spec fn declared_sum(credits: Seq<Option<u32>>) -> int
    decreases credits.len(),
{
    if credits.len() == 0 {
        0
    } else {
        declared_sum(credits.drop_last()) + match credits.last() {
            Some(c) => c as int,
            None => 0,
        }
    }
}

/// Sum of the credits declared by courses whose outcome leaves them at risk
/// (failing, or pending a global exam).
pub open spec fn at_risk_sum(courses: Seq<(CourseOutcome, Option<u32>)>) -> int
    decreases courses.len(),
{
    if courses.len() == 0 {
        0
    } else {
        at_risk_sum(courses.drop_last()) + if is_at_risk(courses.last().0) {
            match courses.last().1 {
                Some(c) => c as int,
                None => 0,
            }
        } else {
            0
        }
    }
}

/// Whether an outcome leaves a course's credits at risk.
pub open spec fn is_at_risk(o: CourseOutcome) -> bool {
    o == CourseOutcome::Failing || o == CourseOutcome::PendingGlobal
}

/// Whether any course declares credits.
pub open spec fn any_declared(credits: Seq<Option<u32>>) -> bool {
    exists|i: int| 0 <= i < credits.len() && credits[i] is Some
}

proof fn lemma_declared_sum_step(credits: Seq<Option<u32>>, i: int)
    requires
        0 <= i < credits.len(),
    ensures
        declared_sum(credits.take(i + 1)) == declared_sum(credits.take(i)) + match credits[i] {
            Some(c) => c as int,
            None => 0,
        },
{
    assert(credits.take(i + 1).drop_last() =~= credits.take(i));
}

proof fn lemma_declared_sum_nonneg(credits: Seq<Option<u32>>)
    ensures
        declared_sum(credits) >= 0,
    decreases credits.len(),
{
    if credits.len() > 0 {
        lemma_declared_sum_nonneg(credits.drop_last());
    }
}

proof fn lemma_declared_sum_prefix(credits: Seq<Option<u32>>, i: int)
    requires
        0 <= i <= credits.len(),
    ensures
        declared_sum(credits.take(i)) <= declared_sum(credits),
    decreases credits.len() - i,
{
    if i < credits.len() {
        lemma_declared_sum_prefix(credits, i + 1);
        lemma_declared_sum_step(credits, i);
    } else {
        assert(credits.take(i) =~= credits);
    }
}

/// Whether the declared credits add up to no more than a `u32` holds.
pub fn credits_fit(credits: &[Option<u32>]) -> (b: bool)
    ensures
        b == (declared_sum(credits@) <= u32::MAX),
{
    let mut total: u64 = 0;
    let mut i: usize = 0;
    while i < credits.len()
        invariant
            i <= credits@.len(),
            total == declared_sum(credits@.take(i as int)),
            total <= u32::MAX,
        decreases credits@.len() - i,
    {
        proof {
            lemma_declared_sum_step(credits@, i as int);
        }
        match credits[i] {
            Some(c) => total = total + c as u64,
            None => {},
        }
        if total > 4294967295u64 {
            proof {
                lemma_declared_sum_prefix(credits@, i + 1);
            }
            return false;
        }
        i = i + 1;
    }
    assert(credits@.take(credits@.len() as int) =~= credits@);
    true
}

/// Total declared credits of a semester's courses, `None` when no course
/// declares any.
pub fn total_credits(credits: &[Option<u32>]) -> (r: Option<u32>)
    requires
        declared_sum(credits@) <= u32::MAX,
    ensures
        r == (if any_declared(credits@) {
            Some(declared_sum(credits@) as u32)
        } else {
            None
        }),
{
    let mut total: u32 = 0;
    let mut any = false;
    let mut i: usize = 0;
    while i < credits.len()
        invariant
            i <= credits@.len(),
            declared_sum(credits@) <= u32::MAX,
            total == declared_sum(credits@.take(i as int)),
            any == exists|k: int| 0 <= k < i && credits@[k] is Some,
        decreases credits@.len() - i,
    {
        proof {
            lemma_declared_sum_step(credits@, i as int);
            lemma_declared_sum_prefix(credits@, i + 1);
        }
        match credits[i] {
            Some(c) => {
                total = total + c;
                any = true;
            },
            None => {},
        }
        i = i + 1;
    }
    assert(credits@.take(credits@.len() as int) =~= credits@);
    if any {
        Some(total)
    } else {
        None
    }
}


proof fn lemma_at_risk_step(courses: Seq<(CourseOutcome, Option<u32>)>, i: int)
    requires
        0 <= i < courses.len(),
    ensures
        at_risk_sum(courses.take(i + 1)) == at_risk_sum(courses.take(i)) + if is_at_risk(
            courses[i].0,
        ) {
            match courses[i].1 {
                Some(c) => c as int,
                None => 0,
            }
        } else {
            0
        },
{
    assert(courses.take(i + 1).drop_last() =~= courses.take(i));
}

proof fn lemma_at_risk_prefix(courses: Seq<(CourseOutcome, Option<u32>)>, i: int)
    requires
        0 <= i <= courses.len(),
    ensures
        0 <= at_risk_sum(courses.take(i)) <= at_risk_sum(courses),
    decreases courses.len() - i,
{
    if i < courses.len() {
        lemma_at_risk_prefix(courses, i + 1);
        lemma_at_risk_step(courses, i);
    } else {
        assert(courses.take(i) =~= courses);
    }
    lemma_at_risk_nonneg(courses.take(i));
}

proof fn lemma_at_risk_nonneg(courses: Seq<(CourseOutcome, Option<u32>)>)
    ensures
        at_risk_sum(courses) >= 0,
    decreases courses.len(),
{
    if courses.len() > 0 {
        lemma_at_risk_nonneg(courses.drop_last());
    }
}

/// The declared credits of each course, in order.
pub open spec fn credits_of(courses: Seq<(CourseOutcome, Option<u32>)>) -> Seq<Option<u32>> {
    courses.map_values(|c: (CourseOutcome, Option<u32>)| c.1)
}

/// Credits at risk never exceed the credits declared in total.
pub proof fn lemma_at_risk_within_declared(courses: Seq<(CourseOutcome, Option<u32>)>)
    ensures
        at_risk_sum(courses) <= declared_sum(credits_of(courses)),
    decreases courses.len(),
{
    if courses.len() > 0 {
        let rest = courses.drop_last();
        lemma_at_risk_within_declared(rest);
        assert(credits_of(courses).drop_last() =~= credits_of(rest));
        assert(credits_of(courses).last() == courses.last().1);
    }
}

/// Credits tied up in courses that are failing or pending a global exam,
/// given each course's outcome and declared credits; `None` when no course
/// declares credits.
pub fn credits_at_risk(courses: &[(CourseOutcome, Option<u32>)]) -> (r: Option<u32>)
    requires
        at_risk_sum(courses@) <= u32::MAX,
    ensures
        r == (if exists|i: int| 0 <= i < courses@.len() && courses@[i].1 is Some {
            Some(at_risk_sum(courses@) as u32)
        } else {
            None
        }),
{
    let mut total: u32 = 0;
    let mut any = false;
    let mut i: usize = 0;
    while i < courses.len()
        invariant
            i <= courses@.len(),
            at_risk_sum(courses@) <= u32::MAX,
            total == at_risk_sum(courses@.take(i as int)),
            any == exists|k: int| 0 <= k < i && courses@[k].1 is Some,
        decreases courses@.len() - i,
    {
        proof {
            lemma_at_risk_step(courses@, i as int);
            lemma_at_risk_prefix(courses@, i + 1);
        }
        let (outcome, credits) = courses[i];
        if credits.is_some() {
            any = true;
        }
        match outcome {
            CourseOutcome::Failing | CourseOutcome::PendingGlobal => match credits {
                Some(c) => total = total + c,
                None => {},
            },
            _ => {},
        }
        i = i + 1;
    }
    assert(courses@.take(courses@.len() as int) =~= courses@);
    if any {
        Some(total)
    } else {
        None
    }
}


/// Whether a semester average is weighted by credits: only when some course
/// has a grade and every graded course declares its credits (a partial set
/// of credits would silently distort the average).
pub fn credit_weighted(graded_credits: &[Option<u32>]) -> (b: bool)
    ensures
        b == (graded_credits@.len() > 0 && forall|i: int|
            0 <= i < graded_credits@.len() ==> #[trigger] graded_credits@[i] is Some),
{
    if graded_credits.len() == 0 {
        return false;
    }
    let mut i: usize = 0;
    while i < graded_credits.len()
        invariant
            i <= graded_credits@.len(),
            forall|k: int| 0 <= k < i ==> #[trigger] graded_credits@[k] is Some,
        decreases graded_credits@.len() - i,
    {
        if graded_credits[i].is_none() {
            return false;
        }
        i = i + 1;
    }
    true
}

/// The category a global exam targets: the explicitly chosen one when it
/// exists, else the first category whose minimum sends the student to the
/// global exam and is failed, else the first category.
///
/// `categories[i]` holds category `i`'s action for an unmet minimum average
/// and whether it currently fails its minimum average or a per-evaluation
/// minimum.
pub open spec fn spec_global_target(
    explicit: Option<usize>,
    categories: Seq<(MinimumNotMetAction, bool)>,
) -> Option<usize> {
    if explicit is Some && explicit->0 < categories.len() {
        explicit
    } else if exists|i: int|
        0 <= i < categories.len() && #[trigger] sends_to_global(categories[i]) {
        Some(
            (choose|i: int|
                0 <= i < categories.len() && #[trigger] sends_to_global(categories[i]) && forall|
                    j: int,
                | 0 <= j < i ==> !sends_to_global(categories[j])) as usize,
        )
    } else if categories.len() > 0 {
        Some(0)
    } else {
        None
    }
}

/// Whether a category's failed minimum sends the student to the global exam.
pub open spec fn sends_to_global(c: (MinimumNotMetAction, bool)) -> bool {
    c.0 == MinimumNotMetAction::RequiresGlobal && c.1
}

/// Resolve which category the global exam targets (see
/// [`spec_global_target`]).
pub fn global_target_category(explicit: Option<usize>, categories: &[(
    MinimumNotMetAction,
    bool,
)]) -> (r: Option<usize>)
    ensures
        r == spec_global_target(explicit, categories@),
{
    if let Some(idx) = explicit {
        if idx < categories.len() {
            return Some(idx);
        }
    }
    let mut i: usize = 0;
    while i < categories.len()
        invariant
            i <= categories@.len(),
            !(explicit is Some && explicit->0 < categories@.len()),
            forall|j: int| 0 <= j < i ==> !sends_to_global(#[trigger] categories@[j]),
        decreases categories@.len() - i,
    {
        let (action, fails) = categories[i];
        if action == MinimumNotMetAction::RequiresGlobal && fails {
            proof {
                assert(sends_to_global(categories@[i as int]));
                let k = choose|k: int|
                    0 <= k < categories@.len() && #[trigger] sends_to_global(categories@[k])
                        && forall|j: int| 0 <= j < k ==> !sends_to_global(categories@[j]);
                assert(0 <= i < categories@.len() && sends_to_global(categories@[i as int])
                    && forall|j: int| 0 <= j < i ==> !sends_to_global(categories@[j]));
                if k < i {
                } else if k > i {
                    assert(!sends_to_global(categories@[i as int]));
                }
            }
            return Some(i);
        }
        i = i + 1;
    }
    if categories.len() > 0 {
        Some(0)
    } else {
        None
    }
}


/// Position of the first failed minimum at or after `i` that sends the
/// student to the global exam (`s.len()` when there is none).
pub open spec fn first_requiring_global(s: Seq<(MinimumNotMetAction, usize)>, i: int) -> int
    decreases s.len() - i,
{
    if i >= s.len() {
        s.len() as int
    } else if s[i].0 == MinimumNotMetAction::RequiresGlobal {
        i
    } else {
        first_requiring_global(s, i + 1)
    }
}

/// The category a global grade is pinned to, given the failed minimums as
/// `(action, category)` in course order: the first that requires the global
/// exam, else the first failed minimum at all.
pub open spec fn spec_pinned_target(s: Seq<(MinimumNotMetAction, usize)>) -> Option<usize> {
    let f = first_requiring_global(s, 0);
    if f < s.len() {
        Some(s[f].1)
    } else if s.len() > 0 {
        Some(s[0].1)
    } else {
        None
    }
}

/// Which category the global exam replaces a grade in, decided when its grade
/// is entered (see [`spec_pinned_target`]).
pub fn pinned_global_target(failed: &[(MinimumNotMetAction, usize)]) -> (r: Option<usize>)
    ensures
        r == spec_pinned_target(failed@),
{
    let mut i: usize = 0;
    while i < failed.len()
        invariant
            i <= failed@.len(),
            first_requiring_global(failed@, 0) == first_requiring_global(failed@, i as int),
        decreases failed@.len() - i,
    {
        let (action, category) = failed[i];
        if action == MinimumNotMetAction::RequiresGlobal {
            return Some(category);
        }
        i = i + 1;
    }
    if failed.len() > 0 {
        Some(failed[0].1)
    } else {
        None
    }
}

/// Whether the categories panel shows a row for the global exam: the course
/// has a global-exam policy and an unmet minimum sends the student to it,
/// and either a global grade is already entered or passing it is still
/// possible.
pub fn shows_global_row(
    policy: GlobalPolicyKind,
    needs_global: bool,
    global_taken: bool,
    needed: NeededGradeStatus,
) -> (b: bool)
    ensures
        b == (policy != GlobalPolicyKind::NoGlobal && needs_global && (global_taken || needed
            != NeededGradeStatus::Failure)),
{
    if policy == GlobalPolicyKind::NoGlobal || !needs_global {
        return false;
    }
    global_taken || needed != NeededGradeStatus::Failure
}

/// Adding a course changes the credits at risk by its declared credits when
/// it is failing or pending a global exam, and by nothing when it is passing
/// or has no grades yet.
pub proof fn lemma_at_risk_add_course(
    courses: Seq<(CourseOutcome, Option<u32>)>,
    outcome: CourseOutcome,
    credits: Option<u32>,
)
    ensures
        outcome == CourseOutcome::Failing || outcome == CourseOutcome::PendingGlobal
            ==> at_risk_sum(courses.push((outcome, credits))) == at_risk_sum(courses) + match credits {
            Some(c) => c as int,
            None => 0,
        },
        outcome == CourseOutcome::Passing || outcome == CourseOutcome::NoData ==> at_risk_sum(
            courses.push((outcome, credits)),
        ) == at_risk_sum(courses),
{
    let s = courses.push((outcome, credits));
    assert(s.drop_last() =~= courses);
}

/// Credits at risk of courses that are all passing or without grades are
/// zero, and those of courses that are all failing or pending a global exam
/// are their whole declared total.
pub proof fn lemma_at_risk_extremes(courses: Seq<(CourseOutcome, Option<u32>)>)
    ensures
        (forall|i: int|
            0 <= i < courses.len() ==> #[trigger] courses[i].0 == CourseOutcome::Passing
                || courses[i].0 == CourseOutcome::NoData) ==> at_risk_sum(courses) == 0,
        (forall|i: int|
            0 <= i < courses.len() ==> #[trigger] courses[i].0 == CourseOutcome::Failing
                || courses[i].0 == CourseOutcome::PendingGlobal) ==> at_risk_sum(courses)
            == declared_sum(credits_of(courses)),
    decreases courses.len(),
{
    if courses.len() > 0 {
        let rest = courses.drop_last();
        lemma_at_risk_extremes(rest);
        assert(credits_of(courses).drop_last() =~= credits_of(rest));
        assert(credits_of(courses).last() == courses.last().1);
        assert forall|i: int| 0 <= i < rest.len() implies rest[i] == courses[i] by {}
    }
}

/// Whether `r` is the first category whose minimum fails with the action
/// "requires global", or category 0 when no category does (`None` only
/// without categories).
pub open spec fn is_first_requiring_target(
    categories: Seq<(MinimumNotMetAction, bool)>,
    r: Option<usize>,
) -> bool {
    match r {
        Some(i) => 0 <= i < categories.len() && (forall|j: int|
            #![trigger categories[j]]
            0 <= j < i ==> !(categories[j].0 == MinimumNotMetAction::RequiresGlobal
                && categories[j].1)) && ((categories[i as int].0
            == MinimumNotMetAction::RequiresGlobal && categories[i as int].1) || (i == 0
            && forall|j: int|
            #![trigger categories[j]]
            0 <= j < categories.len() ==> !(categories[j].0
                == MinimumNotMetAction::RequiresGlobal && categories[j].1))),
        None => categories.len() == 0,
    }
}

/// Without a valid explicit choice, the global exam targets the first
/// category whose minimum fails with the action "requires global", and the
/// first category when there is none: a category failing a minimum with
/// any other action is never chosen for that.
pub proof fn lemma_global_target_is_first_requiring(
    explicit: Option<usize>,
    categories: Seq<(MinimumNotMetAction, bool)>,
)
    requires
        categories.len() <= usize::MAX,
    ensures
        explicit is Some && explicit->0 < categories.len() ==> spec_global_target(
            explicit,
            categories,
        ) == explicit,
        !(explicit is Some && explicit->0 < categories.len()) ==> is_first_requiring_target(
            categories,
            spec_global_target(explicit, categories),
        ),
{
    if !(explicit is Some && explicit->0 < categories.len()) {
        if exists|i: int| 0 <= i < categories.len() && #[trigger] sends_to_global(categories[i]) {
            let k = choose|i: int| 0 <= i < categories.len() && #[trigger] sends_to_global(categories[i]);
            lemma_first_sending(categories, k);
            let i = choose|i: int|
                0 <= i < categories.len() && #[trigger] sends_to_global(categories[i]) && forall|
                    j: int,
                | 0 <= j < i ==> !sends_to_global(categories[j]);
            assert(sends_to_global(categories[i]));
            assert(spec_global_target(explicit, categories) == Some(i as usize));
            assert(categories[i].0 == MinimumNotMetAction::RequiresGlobal && categories[i].1);
            assert forall|j: int| #![trigger categories[j]] 0 <= j < i implies !(categories[j].0
                == MinimumNotMetAction::RequiresGlobal && categories[j].1) by {
                assert(!sends_to_global(categories[j]));
            }
            assert(is_first_requiring_target(categories, Some(i as usize)));
        } else {
            assert(categories.len() > 0 ==> spec_global_target(explicit, categories) == Some(0usize));
            assert forall|j: int| #![trigger categories[j]] 0 <= j < categories.len() implies !(
            categories[j].0 == MinimumNotMetAction::RequiresGlobal && categories[j].1) by {
                assert(!sends_to_global(categories[j]));
            }
            assert(is_first_requiring_target(categories, spec_global_target(explicit, categories)));
        }
    }
}

proof fn lemma_first_sending(categories: Seq<(MinimumNotMetAction, bool)>, k: int)
    requires
        0 <= k < categories.len(),
        sends_to_global(categories[k]),
    ensures
        exists|i: int|
            0 <= i < categories.len() && #[trigger] sends_to_global(categories[i]) && forall|
                j: int,
            | 0 <= j < i ==> !sends_to_global(categories[j]),
    decreases k,
{
    if exists|j: int| 0 <= j < k && #[trigger] sends_to_global(categories[j]) {
        let j = choose|j: int| 0 <= j < k && #[trigger] sends_to_global(categories[j]);
        lemma_first_sending(categories, j);
    } else {
        assert(forall|j: int| 0 <= j < k ==> !sends_to_global(categories[j]));
    }
}

/// Whether `(c, e)` is the first ungraded evaluation, scanning categories in
/// order and evaluations in order within each.
pub open spec fn is_first_ungraded(graded: Seq<Seq<bool>>, c: int, e: int) -> bool {
    &&& 0 <= c < graded.len()
    &&& 0 <= e < graded[c].len()
    &&& !graded[c][e]
    &&& forall|j: int| 0 <= j < e ==> graded[c][j]
    &&& forall|i: int, j: int| 0 <= i < c && 0 <= j < graded[i].len() ==> graded[i][j]
}

/// First evaluation still without a grade, as `(category, evaluation)`;
/// `graded[c][e]` tells whether evaluation `e` of category `c` has a grade.
pub fn first_ungraded(graded: &Vec<Vec<bool>>) -> (r: Option<(usize, usize)>)
    ensures
        match r {
            Some((c, e)) => is_first_ungraded(graded@.map_values(|v: Vec<bool>| v@), c as int, e as int),
            None => forall|i: int, j: int|
                0 <= i < graded@.len() && 0 <= j < graded@[i]@.len() ==> graded@[i]@[j],
        },
{
    let ghost g = graded@.map_values(|v: Vec<bool>| v@);
    let mut c: usize = 0;
    while c < graded.len()
        invariant
            c <= graded@.len(),
            g == graded@.map_values(|v: Vec<bool>| v@),
            forall|i: int, j: int| 0 <= i < c && 0 <= j < graded@[i]@.len() ==> graded@[i]@[j],
        decreases graded@.len() - c,
    {
        let row = &graded[c];
        let mut e: usize = 0;
        while e < row.len()
            invariant
                c < graded@.len(),
                *row == graded@[c as int],
                g == graded@.map_values(|v: Vec<bool>| v@),
                forall|i: int, j: int|
                    0 <= i < c && 0 <= j < graded@[i]@.len() ==> graded@[i]@[j],
                e <= row@.len(),
                forall|j: int| 0 <= j < e ==> row@[j],
            decreases row@.len() - e,
        {
            if !row[e] {
                assert(is_first_ungraded(g, c as int, e as int));
                return Some((c, e));
            }
            e = e + 1;
        }
        c = c + 1;
    }
    None
}

} // verus!
