use vstd::prelude::*;
use vstd::set_lib::{lemma_int_range, lemma_len_subset, lemma_map_size, set_int_range};
use crate::i18n::Messages;
use crate::model::{AttendanceAction, AveragingMethod, GlobalPolicyKind, MinimumNotMetAction};
use crate::text::{
    chars_of, chars_of_all, contains_text, decimal, ends_with, has_prefix, has_suffix, is_blank,
    lemma_decimal_injective, lemma_decimal_nonempty, lemma_trim_idempotent, lemma_trim_end_of_clean, lemma_trim_start_append,
    lemma_trim_start_clean, lemma_trim_start_of_clean, push_all, push_decimal, same_str,
    skip_white_back, skip_white_front, starts_with, string_of, trim, trim_end, trim_start,
    is_white_space,
};

verus! {

/// Version of the import schema this build understands.
pub const IMPORT_SCHEMA_VERSION: u32 = 1;

/// The schema version an import blob is taken to have when it names none.
pub fn default_schema_version() -> (v: u32)
    ensures
        v == IMPORT_SCHEMA_VERSION,
{
    IMPORT_SCHEMA_VERSION
}

/// Three backticks, the markdown code-fence marker.
pub open spec fn fence() -> Seq<char> {
    seq!['`', '`', '`']
}

/// An opening fence tagged `json`.
pub open spec fn fence_json() -> Seq<char> {
    fence() + seq!['j', 's', 'o', 'n']
}

/// An opening fence tagged `JSON`.
pub open spec fn fence_json_upper() -> Seq<char> {
    fence() + seq!['J', 'S', 'O', 'N']
}

/// `t` without an opening code fence (tagged `json`, `JSON` or bare) and the
/// white space after it.
pub open spec fn strip_open_fence(t: Seq<char>) -> Seq<char> {
    if starts_with(t, fence_json()) {
        trim_start(t.skip(7))
    } else if starts_with(t, fence_json_upper()) {
        trim_start(t.skip(7))
    } else if starts_with(t, fence()) {
        trim_start(t.skip(3))
    } else {
        t
    }
}

/// The text an import blob is parsed from: trimmed, with a surrounding
/// markdown code fence removed.
pub open spec fn sanitized(raw: Seq<char>) -> Seq<char> {
    let opened = strip_open_fence(trim(raw));
    let tail = trim_end(opened);
    if ends_with(tail, fence()) {
        trim(tail.subrange(0, tail.len() - 3))
    } else {
        trim(opened)
    }
}

/// Strip markdown code fences (```json ... ``` or ``` ... ```) and trim.
pub fn sanitize_json_input(raw: &str) -> (out: String)
    ensures
        out@ == sanitized(raw@),
{
    let v = chars_of(raw);
    let n = v.len();
    proof {
        assert(v@.subrange(0, n as int) =~= v@);
    }
    // The trimmed input is v[lo..hi].
    let lo = skip_white_front(&v, 0, n);
    let hi = skip_white_back(&v, lo, n);
    let ghost t = v@.subrange(lo as int, hi as int);
    assert(t == trim(raw@));

    let tick = '`';
    let fence_lower = [tick, tick, tick, 'j', 's', 'o', 'n'];
    let fence_upper = [tick, tick, tick, 'J', 'S', 'O', 'N'];
    let fence_bare = [tick, tick, tick];
    assert(fence_lower@ =~= fence_json());
    assert(fence_upper@ =~= fence_json_upper());
    assert(fence_bare@ =~= fence());

    // The text after the opening fence is v[a..hi].
    let a = if has_prefix(&v, lo, hi, &fence_lower) || has_prefix(&v, lo, hi, &fence_upper) {
        assert(t.skip(7) =~= v@.subrange(lo + 7, hi as int));
        skip_white_front(&v, lo + 7, hi)
    } else if has_prefix(&v, lo, hi, &fence_bare) {
        assert(t.skip(3) =~= v@.subrange(lo + 3, hi as int));
        skip_white_front(&v, lo + 3, hi)
    } else {
        lo
    };
    assert(v@.subrange(a as int, hi as int) == strip_open_fence(t));

    let b = skip_white_back(&v, a, hi);
    let ghost tail = v@.subrange(a as int, b as int);
    if has_suffix(&v, a, b, &fence_bare) {
        assert(tail.subrange(0, tail.len() - 3) =~= v@.subrange(a as int, b - 3));
        let c = skip_white_front(&v, a, b - 3);
        let d = skip_white_back(&v, c, b - 3);
        string_of(&v, c, d)
    } else {
        let c = skip_white_front(&v, a, hi);
        let d = skip_white_back(&v, c, hi);
        string_of(&v, c, d)
    }
}

/// A reply with no code fence around it is only trimmed.
pub proof fn lemma_sanitize_unfenced(raw: Seq<char>)
    requires
        !starts_with(trim(raw), fence()),
        !ends_with(trim(raw), fence()),
    ensures
        sanitized(raw) == trim(raw),
{
    let t = trim(raw);
    lemma_trim_idempotent(raw);
    // A tagged opening fence starts with the bare one.
    assert forall|p: Seq<char>|
        p.len() >= 3 && p.subrange(0, 3) == fence() && starts_with(t, p) implies starts_with(
        t,
        fence(),
    ) by {
        assert(t.subrange(0, 3) =~= t.subrange(0, p.len() as int).subrange(0, 3));
    }
    assert(fence_json().subrange(0, 3) =~= fence());
    assert(fence_json_upper().subrange(0, 3) =~= fence());
    assert(strip_open_fence(t) == t);
}

/// A reply wrapped in a code fence (tagged `json`, `JSON`, or bare when the
/// body does not itself begin with such a tag) gives its body, trimmed.
pub proof fn lemma_sanitize_fenced(raw: Seq<char>, open: Seq<char>, body: Seq<char>)
    requires
        trim(raw) == open + body + fence(),
        open == fence_json() || open == fence_json_upper() || (open == fence() && !starts_with(
            trim(raw),
            fence_json(),
        ) && !starts_with(trim(raw), fence_json_upper())),
    ensures
        sanitized(raw) == trim(body),
{
    let t = trim(raw);
    let f = fence();
    assert(!is_white_space('`'));
    assert(f[0] == '`' && f.last() == '`');
    // The text after the opening fence.
    let rest = body + f;
    assert(t.skip(open.len() as int) =~= rest);
    if open == fence_json() {
        assert(t.subrange(0, 7) =~= fence_json());
    } else if open == fence_json_upper() {
        assert(t.subrange(0, 7) =~= fence_json_upper());
    } else {
        assert(t.subrange(0, 3) =~= fence());
    }
    assert(strip_open_fence(t) == trim_start(rest));
    // Leading white space of the body goes, the closing fence stays.
    let b = trim_start(body);
    lemma_trim_start_append(body, f);
    lemma_trim_start_of_clean(f);
    assert(trim_start(rest) =~= b + f);
    let opened = b + f;
    assert(opened.last() == '`');
    lemma_trim_end_of_clean(opened);
    assert(ends_with(opened, f)) by {
        assert(opened.subrange(opened.len() - 3, opened.len() as int) =~= f);
    }
    assert(opened.subrange(0, opened.len() - 3) =~= b);
    // Trimming the front of the body again changes nothing.
    lemma_trim_start_clean(body);
    lemma_trim_start_of_clean(b);
}


/// The texts of a list of string slices.
pub open spec fn names(existing: Seq<&str>) -> Seq<Seq<char>> {
    existing.map_values(|s: &str| s@)
}

/// `name (suffix` followed by `tail`, the shape every copy name has.
pub open spec fn copy_with(name: Seq<char>, suffix: Seq<char>, tail: Seq<char>) -> Seq<char> {
    name + seq![' ', '('] + suffix + tail
}

/// The first name tried for a copy: `name (suffix)`.
pub open spec fn copy_name(name: Seq<char>, suffix: Seq<char>) -> Seq<char> {
    copy_with(name, suffix, seq![')'])
}

/// The `k`-th numbered copy name: `name (suffix k)`.
pub open spec fn numbered_copy_name(name: Seq<char>, suffix: Seq<char>, k: nat) -> Seq<char> {
    copy_with(name, suffix, seq![' '] + decimal(k) + seq![')'])
}

/// What `unique_name` returns: `name` when it is free, else `name (suffix)`
/// when that is free, else the numbered copy with the least number from 2 on
/// that is free.
pub open spec fn is_unique_name_for(
    out: Seq<char>,
    name: Seq<char>,
    taken: Seq<Seq<char>>,
    suffix: Seq<char>,
) -> bool {
    if !taken.contains(name) {
        out == name
    } else if !taken.contains(copy_name(name, suffix)) {
        out == copy_name(name, suffix)
    } else {
        exists|k: nat|
            k >= 2 && out == numbered_copy_name(name, suffix, k) && !taken.contains(out) && (
            forall|j: nat| 2 <= j < k ==> taken.contains(#[trigger] numbered_copy_name(name, suffix, j)))
    }
}

proof fn lemma_numbered_injective(name: Seq<char>, suffix: Seq<char>, a: nat, b: nat)
    requires
        numbered_copy_name(name, suffix, a) == numbered_copy_name(name, suffix, b),
    ensures
        a == b,
{
    let p = name + seq![' ', '('] + suffix + seq![' '];
    assert(numbered_copy_name(name, suffix, a) =~= p + decimal(a) + seq![')']);
    assert(numbered_copy_name(name, suffix, b) =~= p + decimal(b) + seq![')']);
    let x = p + decimal(a) + seq![')'];
    let y = p + decimal(b) + seq![')'];
    assert(decimal(a).len() == decimal(b).len());
    assert(x.subrange(p.len() as int, (p.len() + decimal(a).len()) as int) =~= decimal(a));
    assert(y.subrange(p.len() as int, (p.len() + decimal(b).len()) as int) =~= decimal(b));
    lemma_decimal_injective(a, b);
}

/// If every numbered copy name from 2 up to `hi` is taken, there are at least
/// that many taken names.
proof fn lemma_taken_copies_bounded(name: Seq<char>, suffix: Seq<char>, taken: Seq<Seq<char>>, hi: int)
    requires
        2 <= hi,
        forall|j: nat| 2 <= j < hi ==> taken.contains(#[trigger] numbered_copy_name(name, suffix, j)),
    ensures
        hi - 2 <= taken.len(),
{
    let f = |j: int| numbered_copy_name(name, suffix, j as nat);
    let xs = set_int_range(2, hi);
    let ys = xs.map(f);
    lemma_int_range(2, hi);
    assert forall|a: int, b: int| xs.contains(a) && xs.contains(b) && #[trigger] f(a) == #[trigger] f(b) implies a == b by {
        lemma_numbered_injective(name, suffix, a as nat, b as nat);
    }
    lemma_map_size(xs, ys, f);
    assert forall|y: Seq<char>| ys.contains(y) implies taken.to_set().contains(y) by {
        let j = choose|j: int| xs.contains(j) && f(j) == y;
        assert(taken.contains(numbered_copy_name(name, suffix, j as nat)));
    }
    taken.lemma_cardinality_of_set();
    lemma_len_subset(ys, taken.to_set());
}

/// A name for a new course that collides with none of `existing`: `name`
/// itself, else `name (copy_suffix)`, else `name (copy_suffix N)` for the
/// least free N from 2 on.
pub fn unique_name(name: &str, existing: &[&str], copy_suffix: &str) -> (out: String)
    requires
        existing@.len() + 2 <= usize::MAX,
    ensures
        is_unique_name_for(out@, name@, names(existing@), copy_suffix@),
        !names(existing@).contains(out@),
{
    let taken = chars_of_all(existing);
    let ghost t = names(existing@);
    assert(crate::text::texts(taken@) == t);
    let base = chars_of(name);
    if !contains_text(&taken, &base) {
        assert(base@.subrange(0, base@.len() as int) =~= base@);
        return string_of(&base, 0, base.len());
    }
    let suffix = chars_of(copy_suffix);
    let mut prefix = base.clone();
    prefix.push(' ');
    prefix.push('(');
    push_all(&mut prefix, &suffix);
    let mut first = prefix.clone();
    first.push(')');
    assert(first@ =~= copy_name(name@, copy_suffix@));
    if !contains_text(&taken, &first) {
        assert(first@.subrange(0, first@.len() as int) =~= first@);
        return string_of(&first, 0, first.len());
    }
    let mut i: usize = 2;
    loop
        invariant
            2 <= i <= t.len() + 2,
            t.len() + 2 <= usize::MAX,
            crate::text::texts(taken@) == t,
            t == names(existing@),
            prefix@ == name@ + seq![' ', '('] + copy_suffix@,
            t.contains(name@),
            t.contains(copy_name(name@, copy_suffix@)),
            forall|j: nat| 2 <= j < i ==> t.contains(#[trigger] numbered_copy_name(name@, copy_suffix@, j)),
        decreases t.len() + 2 - i,
    {
        let mut candidate = prefix.clone();
        candidate.push(' ');
        push_decimal(&mut candidate, i);
        candidate.push(')');
        assert(candidate@ =~= numbered_copy_name(name@, copy_suffix@, i as nat));
        if !contains_text(&taken, &candidate) {
            assert(candidate@.subrange(0, candidate@.len() as int) =~= candidate@);
            let out = string_of(&candidate, 0, candidate.len());
            assert(out@ == numbered_copy_name(name@, copy_suffix@, i as nat));
            assert(is_unique_name_for(out@, name@, t, copy_suffix@));
            return out;
        }
        proof {
            lemma_taken_copies_bounded(name@, copy_suffix@, t, i + 1);
        }
        i = i + 1;
    }
}


/// The action an import names; anything unrecognised (or nothing) falls back
/// to the default rather than failing the whole import.
pub open spec fn action_named(raw: Option<Seq<char>>) -> MinimumNotMetAction {
    match raw {
        Some(s) => if s == "requires_global"@ {
            MinimumNotMetAction::RequiresGlobal
        } else if s == "fail_course"@ {
            MinimumNotMetAction::FailCourse
        } else if s == "cap_final_grade"@ {
            MinimumNotMetAction::CapFinalGrade
        } else {
            MinimumNotMetAction::FinalEqualsAverage
        },
        None => MinimumNotMetAction::FinalEqualsAverage,
    }
}

/// The view of an optional string slice.
pub open spec fn opt_view(raw: Option<&str>) -> Option<Seq<char>> {
    match raw {
        Some(s) => Some(s@),
        None => None,
    }
}

/// Map a minimum-not-met action name onto the enum.
pub fn parse_action(raw: Option<&str>) -> (a: MinimumNotMetAction)
    ensures
        a == action_named(opt_view(raw)),
{
    match raw {
        Some(s) => if same_str(s, "requires_global") {
            MinimumNotMetAction::RequiresGlobal
        } else if same_str(s, "fail_course") {
            MinimumNotMetAction::FailCourse
        } else if same_str(s, "cap_final_grade") {
            MinimumNotMetAction::CapFinalGrade
        } else {
            MinimumNotMetAction::FinalEqualsAverage
        },
        None => MinimumNotMetAction::FinalEqualsAverage,
    }
}

/// What an import's attendance `if_not_met` names: `fails_course` fails the
/// course, anything else only warns.
pub fn parse_attendance_action(raw: Option<&str>) -> (a: AttendanceAction)
    ensures
        a == (if opt_view(raw) == Some("fails_course"@) {
            AttendanceAction::FailCourse
        } else {
            AttendanceAction::WarnOnly
        }),
{
    match raw {
        Some(s) => if same_str(s, "fails_course") {
            AttendanceAction::FailCourse
        } else {
            AttendanceAction::WarnOnly
        },
        None => AttendanceAction::WarnOnly,
    }
}

/// What an import's `averaging_method` names: `geometric`, else arithmetic.
pub fn parse_averaging_method(raw: Option<&str>) -> (m: AveragingMethod)
    ensures
        m == (if opt_view(raw) == Some("geometric"@) {
            AveragingMethod::Geometric
        } else {
            AveragingMethod::Arithmetic
        }),
{
    match raw {
        Some(s) => if same_str(s, "geometric") {
            AveragingMethod::Geometric
        } else {
            AveragingMethod::Arithmetic
        },
        None => AveragingMethod::Arithmetic,
    }
}


/// The global-exam policy an import names.
pub open spec fn policy_named(s: Seq<char>) -> GlobalPolicyKind {
    if s == "weighted"@ {
        GlobalPolicyKind::Weighted
    } else if s == "replaces_worst"@ || s == "replaces_worst_grade"@ {
        GlobalPolicyKind::ReplacesWorstGrade
    } else {
        GlobalPolicyKind::NoGlobal
    }
}

/// Map an import's global-exam `policy` name onto the kind of policy:
/// `weighted`, `replaces_worst` (or `replaces_worst_grade`), anything else none.
pub fn parse_global_policy(raw: &str) -> (k: GlobalPolicyKind)
    ensures
        k == policy_named(raw@),
{
    if same_str(raw, "weighted") {
        GlobalPolicyKind::Weighted
    } else if same_str(raw, "replaces_worst") || same_str(raw, "replaces_worst_grade") {
        GlobalPolicyKind::ReplacesWorstGrade
    } else {
        GlobalPolicyKind::NoGlobal
    }
}

/// Credits an import declares: zero counts as not declared.
pub fn declared_credits(credits: Option<u32>) -> (c: Option<u32>)
    ensures
        c == (match credits {
            Some(n) => if n > 0 { Some(n) } else { None },
            None => None,
        }),
{
    match credits {
        Some(n) => if n > 0 { Some(n) } else { None },
        None => None,
    }
}

/// Whether `i` is the first position of `target` in `list`.
pub open spec fn is_first_position(list: Seq<Seq<char>>, target: Seq<char>, i: int) -> bool {
    0 <= i < list.len() && list[i] == target && forall|j: int| 0 <= j < i ==> list[j] != target
}

/// The first position of `target` among `list`, if it occurs.
pub fn position_of(list: &[&str], target: &str) -> (r: Option<usize>)
    ensures
        match r {
            Some(i) => is_first_position(names(list@), target@, i as int),
            None => !names(list@).contains(target@),
        },
{
    let mut i: usize = 0;
    while i < list.len()
        invariant
            i <= list@.len(),
            forall|j: int| 0 <= j < i ==> names(list@)[j] != target@,
        decreases list@.len() - i,
    {
        if same_str(list[i], target) {
            assert(names(list@)[i as int] == target@);
            return Some(i);
        }
        i = i + 1;
    }
    assert forall|j: int| 0 <= j < names(list@).len() implies names(list@)[j] != target@ by {}
    None
}

/// The first position of `target` in `list` (meaningful when it occurs).
pub open spec fn first_position(list: Seq<Seq<char>>, target: Seq<char>) -> int {
    choose|i: int| is_first_position(list, target, i)
}

proof fn lemma_first_position(list: Seq<Seq<char>>, target: Seq<char>, i: int)
    requires
        is_first_position(list, target, i),
    ensures
        first_position(list, target) == i,
{
    let k = first_position(list, target);
    assert(is_first_position(list, target, k));
    if k < i {
        assert(list[k] != target);
    } else if i < k {
        assert(list[i] != target);
    }
}

/// The positions of the named prerequisites among the category names, in the
/// order they are named; names that match no category are dropped.
pub open spec fn prerequisite_positions(required: Seq<Seq<char>>, categories: Seq<Seq<char>>) -> Seq<usize>
    decreases required.len(),
{
    if required.len() == 0 {
        Seq::empty()
    } else {
        let before = prerequisite_positions(required.drop_last(), categories);
        if categories.contains(required.last()) {
            before.push(first_position(categories, required.last()) as usize)
        } else {
            before
        }
    }
}

/// Resolve prerequisite category names to category positions, dropping
/// names that match no category.
pub fn resolve_prerequisites(required: &[&str], categories: &[&str]) -> (r: Vec<usize>)
    ensures
        r@ == prerequisite_positions(names(required@), names(categories@)),
{
    let mut r: Vec<usize> = Vec::new();
    let mut i: usize = 0;
    while i < required.len()
        invariant
            i <= required@.len(),
            r@ == prerequisite_positions(names(required@).take(i as int), names(categories@)),
        decreases required@.len() - i,
    {
        let ghost req = names(required@).take(i + 1);
        assert(req.drop_last() =~= names(required@).take(i as int));
        assert(req.last() == required@[i as int]@);
        match position_of(categories, required[i]) {
            Some(p) => {
                proof {
                    let cs = names(categories@);
                    assert(cs[p as int] == required@[i as int]@);
                    lemma_first_position(cs, required@[i as int]@, p as int);
                }
                r.push(p);
            },
            None => {},
        }
        i = i + 1;
    }
    assert(names(required@).take(required@.len() as int) =~= names(required@));
    r
}


/// Why a well-formed import blob is still rejected.
#[derive(Debug, Clone, Copy, PartialEq, Eq, Structural)]
pub enum SchemaProblem {
    /// The blob declares a schema version this build does not understand.
    UnsupportedSchema(u32),
    /// The course name is empty or white space only.
    EmptyName,
    /// The course has no categories.
    NoCategories,
}

/// Validate the parts of an import blob that decide whether it is accepted:
/// its schema version, then its name, then that it has categories.
pub fn check_schema(schema_version: u32, name: &str, category_count: usize) -> (r: Result<
    (),
    SchemaProblem,
>)
    ensures
        schema_version != IMPORT_SCHEMA_VERSION ==> r == Err::<(), SchemaProblem>(
            SchemaProblem::UnsupportedSchema(schema_version),
        ),
        schema_version == IMPORT_SCHEMA_VERSION && trim(name@).len() == 0 ==> r == Err::<
            (),
            SchemaProblem,
        >(SchemaProblem::EmptyName),
        schema_version == IMPORT_SCHEMA_VERSION && trim(name@).len() > 0 && category_count == 0
            ==> r == Err::<(), SchemaProblem>(SchemaProblem::NoCategories),
        r is Ok <==> (schema_version == IMPORT_SCHEMA_VERSION && trim(name@).len() > 0
            && category_count > 0),
{
    if schema_version != IMPORT_SCHEMA_VERSION {
        return Err(SchemaProblem::UnsupportedSchema(schema_version));
    }
    if is_blank(name) {
        return Err(SchemaProblem::EmptyName);
    }
    if category_count == 0 {
        return Err(SchemaProblem::NoCategories);
    }
    Ok(())
}

/// The words between the rejected version and the one this build reads.
pub open spec fn expected_words() -> Seq<char> {
    seq![' ', '(', 'e', 'x', 'p', 'e', 'c', 't', 'e', 'd', ' ']
}

/// The message shown for a rejected import, in the user's language.
pub open spec fn problem_text(p: SchemaProblem, m: Messages) -> Seq<char> {
    match p {
        SchemaProblem::UnsupportedSchema(v) => m.import_err_schema_version@ + seq![' '] + decimal(
            v as nat,
        ) + expected_words() + decimal(IMPORT_SCHEMA_VERSION as nat) + seq![')'],
        SchemaProblem::EmptyName => m.import_err_empty_name@,
        SchemaProblem::NoCategories => m.import_err_no_categories@,
    }
}

impl SchemaProblem {
    /// Render the problem as a human-readable, translated string, such as
    /// "Unsupported schema version 2 (expected 1)".
    pub fn user_message(&self, m: &Messages) -> (out: String)
        ensures
            out@ == problem_text(*self, *m),
    {
        match self {
            SchemaProblem::UnsupportedSchema(v) => {
                let mut out = chars_of(m.import_err_schema_version);
                out.push(' ');
                push_decimal(&mut out, *v as usize);
                let words = chars_of(" (expected ");
                proof {
                    reveal_strlit(" (expected ");
                    assert(words@ =~= expected_words());
                }
                push_all(&mut out, &words);
                push_decimal(&mut out, IMPORT_SCHEMA_VERSION as usize);
                out.push(')');
                assert(out@ =~= problem_text(*self, *m));
                string_of(&out, 0, out.len())
            },
            SchemaProblem::EmptyName => {
                let out = chars_of(m.import_err_empty_name);
                string_of(&out, 0, out.len())
            },
            SchemaProblem::NoCategories => {
                let out = chars_of(m.import_err_no_categories);
                string_of(&out, 0, out.len())
            },
        }
    }
}

} // verus!
