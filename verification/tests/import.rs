use kalk::import::{
    check_schema, declared_credits, default_schema_version, parse_action, parse_attendance_action,
    parse_averaging_method, parse_global_policy, position_of, resolve_prerequisites,
    sanitize_json_input, unique_name, SchemaProblem, IMPORT_SCHEMA_VERSION,
};
use kalk::i18n::Language;
use kalk::model::{AttendanceAction, AveragingMethod, GlobalPolicyKind, MinimumNotMetAction};

#[test]
fn sanitize_strips_json_fence() {
    let raw = "```json\n{\"name\":\"x\"}\n```";
    assert_eq!(sanitize_json_input(raw), "{\"name\":\"x\"}");
}

#[test]
fn sanitize_strips_bare_fence() {
    let raw = "```\n{\"name\":\"x\"}\n```";
    assert_eq!(sanitize_json_input(raw), "{\"name\":\"x\"}");
}

#[test]
fn sanitize_handles_no_fence() {
    assert_eq!(sanitize_json_input("  {\"x\":1}  "), "{\"x\":1}");
}

#[test]
fn sanitize_strips_upper_case_fence_and_inner_blank_lines() {
    let raw = "\n  ```JSON\n\n  {\"a\":[1]}  \n\n```  \n";
    assert_eq!(sanitize_json_input(raw), "{\"a\":[1]}");
}

#[test]
fn sanitize_keeps_text_without_closing_fence() {
    assert_eq!(sanitize_json_input("```json {\"a\":1}"), "{\"a\":1}");
    assert_eq!(sanitize_json_input("{\"a\":1}```"), "{\"a\":1}");
    assert_eq!(sanitize_json_input("   "), "");
}

#[test]
fn sanitize_handles_unicode_white_space() {
    assert_eq!(sanitize_json_input("\u{3000}\u{a0}{}\t"), "{}");
}

#[test]
fn unique_name_appends_copy_when_taken() {
    let existing = vec!["Algebra"];
    assert_eq!(
        unique_name("Algebra", &existing, "copia"),
        "Algebra (copia)"
    );
}

#[test]
fn unique_name_keeps_original_when_free() {
    let existing: Vec<&str> = vec![];
    assert_eq!(unique_name("Algebra", &existing, "copia"), "Algebra");
}

#[test]
fn unique_name_increments_when_copy_taken_too() {
    let existing = vec!["Algebra", "Algebra (copia)"];
    assert_eq!(
        unique_name("Algebra", &existing, "copia"),
        "Algebra (copia 2)"
    );
}

#[test]
fn unique_name_skips_every_taken_number() {
    let existing = vec![
        "Algebra",
        "Algebra (copy)",
        "Algebra (copy 2)",
        "Algebra (copy 3)",
        "Algebra (copy 5)",
    ];
    assert_eq!(unique_name("Algebra", &existing, "copy"), "Algebra (copy 4)");
}

#[test]
fn unique_name_counts_past_nine() {
    let mut taken: Vec<String> = vec!["X".to_string(), "X (c)".to_string()];
    for i in 2..=10 {
        taken.push(format!("X (c {})", i));
    }
    let existing: Vec<&str> = taken.iter().map(|s| s.as_str()).collect();
    assert_eq!(unique_name("X", &existing, "c"), "X (c 11)");
}

#[test]
fn prompt_documents_every_importable_field() {
    // The prompt is the only thing that makes the AI emit these, so a new
    // schema field that never reaches the prompt is a silent dead end.
    for prompt in [
        Language::English.messages().import_prompt,
        Language::Spanish.messages().import_prompt,
    ] {
        for field in [
            "credits",
            "passing_grade",
            "minimum_average",
            "minimum_per_evaluation",
            "minimum_one_eval",
            "on_minimum_not_met",
            "on_min_per_eval_not_met",
            "on_min_one_eval_not_met",
            "drop_lowest",
            "averaging_method",
            "round_before_weighting",
            "weighted_evaluations",
            "semester_weight",
            "global_weight",
            "min_grade",
            "cap_final_grade",
            "requires_categories",
            "only_if_category_below",
            "cap_if_passed",
            "cap_if_failed",
            "required_percent",
        ] {
            assert!(prompt.contains(field), "prompt is missing {field}");
        }
    }
}

#[test]
fn parse_action_reads_every_action_name() {
    assert_eq!(parse_action(Some("requires_global")), MinimumNotMetAction::RequiresGlobal);
    assert_eq!(parse_action(Some("fail_course")), MinimumNotMetAction::FailCourse);
    assert_eq!(parse_action(Some("cap_final_grade")), MinimumNotMetAction::CapFinalGrade);
    assert_eq!(
        parse_action(Some("final_equals_average")),
        MinimumNotMetAction::FinalEqualsAverage
    );
}

#[test]
fn unknown_action_falls_back_to_the_default() {
    assert_eq!(parse_action(Some("explode")), MinimumNotMetAction::FinalEqualsAverage);
    assert_eq!(parse_action(None), MinimumNotMetAction::FinalEqualsAverage);
    assert_eq!(parse_action(Some("Fail_Course")), MinimumNotMetAction::FinalEqualsAverage);
}

#[test]
fn attendance_and_averaging_names() {
    assert_eq!(parse_attendance_action(Some("fails_course")), AttendanceAction::FailCourse);
    assert_eq!(parse_attendance_action(Some("warn_only")), AttendanceAction::WarnOnly);
    assert_eq!(parse_attendance_action(None), AttendanceAction::WarnOnly);
    assert_eq!(parse_averaging_method(Some("geometric")), AveragingMethod::Geometric);
    assert_eq!(parse_averaging_method(Some("arithmetic")), AveragingMethod::Arithmetic);
    assert_eq!(parse_averaging_method(None), AveragingMethod::Arithmetic);
}

#[test]
fn global_policy_names() {
    assert_eq!(parse_global_policy("weighted"), GlobalPolicyKind::Weighted);
    assert_eq!(parse_global_policy("replaces_worst"), GlobalPolicyKind::ReplacesWorstGrade);
    assert_eq!(
        parse_global_policy("replaces_worst_grade"),
        GlobalPolicyKind::ReplacesWorstGrade
    );
    assert_eq!(parse_global_policy("none"), GlobalPolicyKind::NoGlobal);
    assert_eq!(parse_global_policy("anything"), GlobalPolicyKind::NoGlobal);
}

#[test]
fn zero_credits_count_as_undeclared() {
    assert_eq!(declared_credits(Some(10)), Some(10));
    assert_eq!(declared_credits(Some(0)), None);
    assert_eq!(declared_credits(None), None);
}

#[test]
fn schema_checks_come_in_order() {
    assert_eq!(default_schema_version(), IMPORT_SCHEMA_VERSION);
    assert_eq!(check_schema(99, "x", 1), Err(SchemaProblem::UnsupportedSchema(99)));
    assert_eq!(check_schema(99, "  ", 0), Err(SchemaProblem::UnsupportedSchema(99)));
    assert_eq!(check_schema(1, "  ", 1), Err(SchemaProblem::EmptyName));
    assert_eq!(check_schema(1, "  ", 0), Err(SchemaProblem::EmptyName));
    assert_eq!(check_schema(1, "x", 0), Err(SchemaProblem::NoCategories));
    assert_eq!(check_schema(1, " x ", 2), Ok(()));
}

#[test]
fn prerequisites_resolve_by_name_and_drop_unknown_ones() {
    let categories = ["Informes", "Controles", "Informes"];
    assert_eq!(resolve_prerequisites(&["Informes"], &categories), vec![0]);
    assert_eq!(resolve_prerequisites(&["Ghost"], &categories), Vec::<usize>::new());
    assert_eq!(
        resolve_prerequisites(&["Controles", "Ghost", "Informes"], &categories),
        vec![1, 0]
    );
    assert_eq!(position_of(&categories, "Controles"), Some(1));
    assert_eq!(position_of(&categories, "controles"), None);
}

#[test]
fn schema_problem_messages_name_the_versions() {
    let m = Language::English.messages();
    assert_eq!(
        SchemaProblem::UnsupportedSchema(2).user_message(&m),
        "Unsupported schema version: 2 (expected 1)"
    );
    assert_eq!(SchemaProblem::EmptyName.user_message(&m), m.import_err_empty_name);
    assert_eq!(SchemaProblem::NoCategories.user_message(&m), m.import_err_no_categories);
}

/// Read the fields that decide acceptance from a pasted reply, the way the
/// import schema does (a missing version counts as the current one).
fn check_raw(raw: &str) -> Result<(), SchemaProblem> {
    let v: serde_json::Value = serde_json::from_str(&sanitize_json_input(raw)).unwrap();
    let version = v
        .get("schema_version")
        .and_then(|x| x.as_u64())
        .map(|x| x as u32)
        .unwrap_or(default_schema_version());
    let name = v.get("name").and_then(|x| x.as_str()).unwrap_or("");
    let count = v.get("categories").and_then(|x| x.as_array()).map_or(0, |a| a.len());
    check_schema(version, name, count)
}

fn category_names(v: &serde_json::Value) -> Vec<String> {
    v["categories"]
        .as_array()
        .unwrap()
        .iter()
        .map(|c| c["name"].as_str().unwrap().to_string())
        .collect()
}

#[test]
fn parse_rejects_wrong_schema_version() {
    let raw = r#"{"schema_version":99,"name":"x","categories":[{"name":"c","weight":100}]}"#;
    assert_eq!(check_raw(raw), Err(SchemaProblem::UnsupportedSchema(99)));
}

#[test]
fn parse_rejects_empty_name() {
    let raw = r#"{"name":"  ","categories":[{"name":"c","weight":100}]}"#;
    assert_eq!(check_raw(raw), Err(SchemaProblem::EmptyName));
}

#[test]
fn parse_rejects_no_categories() {
    let raw = r#"{"name":"x","categories":[]}"#;
    assert_eq!(check_raw(raw), Err(SchemaProblem::NoCategories));
}

#[test]
fn to_course_reads_credits() {
    let raw = r#"{"schema_version":1,"name":"Math","credits":10,
        "categories":[{"name":"C","weight":100}]}"#;
    assert_eq!(check_raw(raw), Ok(()));
    let v: serde_json::Value = serde_json::from_str(raw).unwrap();
    let credits = v.get("credits").and_then(|c| c.as_u64()).map(|c| c as u32);
    assert_eq!(declared_credits(credits), Some(10));
}

#[test]
fn to_course_treats_missing_or_zero_credits_as_none() {
    for raw in [
        r#"{"schema_version":1,"name":"Math","categories":[{"name":"C","weight":100}]}"#,
        r#"{"schema_version":1,"name":"Math","credits":0,"categories":[{"name":"C","weight":100}]}"#,
    ] {
        assert_eq!(check_raw(raw), Ok(()));
        let v: serde_json::Value = serde_json::from_str(raw).unwrap();
        let credits = v.get("credits").and_then(|c| c.as_u64()).map(|c| c as u32);
        assert!(declared_credits(credits).is_none());
    }
}

#[test]
fn to_course_reads_minimum_rules_and_actions() {
    let raw = r#"{"schema_version":1,"name":"Math","categories":[{
        "name":"C","weight":100,
        "minimum_average":50,"on_minimum_not_met":"requires_global",
        "minimum_per_evaluation":30,"on_min_per_eval_not_met":"fail_course",
        "minimum_one_eval":60,"on_min_one_eval_not_met":"final_equals_average"
    }]}"#;
    assert_eq!(check_raw(raw), Ok(()));
    let v: serde_json::Value = serde_json::from_str(raw).unwrap();
    let c = &v["categories"][0];
    assert_eq!(parse_action(c["on_minimum_not_met"].as_str()), MinimumNotMetAction::RequiresGlobal);
    assert_eq!(parse_action(c["on_min_per_eval_not_met"].as_str()), MinimumNotMetAction::FailCourse);
    assert_eq!(
        parse_action(c["on_min_one_eval_not_met"].as_str()),
        MinimumNotMetAction::FinalEqualsAverage
    );
}

#[test]
fn unknown_action_falls_back_instead_of_failing_the_import() {
    let raw = r#"{"schema_version":1,"name":"Math","categories":[{
        "name":"C","weight":100,"minimum_average":50,
        "on_minimum_not_met":"explode"}]}"#;
    assert_eq!(check_raw(raw), Ok(()));
    let v: serde_json::Value = serde_json::from_str(raw).unwrap();
    assert_eq!(
        parse_action(v["categories"][0]["on_minimum_not_met"].as_str()),
        MinimumNotMetAction::FinalEqualsAverage
    );
}

#[test]
fn to_course_reads_caps_attendance_and_prerequisites() {
    let raw = r#"{"schema_version":1,"name":"LabCom",
        "attendance":{"required_percent":85,"if_not_met":"fails_course"},
        "global_exam":{"policy":"weighted","semester_weight":0.7,"global_weight":0.3,
            "only_if_category_below":{"category":"Informes","below_average":60},
            "cap_if_passed":55,"cap_if_failed":54},
        "categories":[
          {"name":"Informes","weight":60},
          {"name":"Controles","weight":40,"minimum_average":51,
           "on_minimum_not_met":"cap_final_grade","cap_final_grade":54,
           "requires_categories":["Informes"]}
        ]}"#;
    assert_eq!(check_raw(raw), Ok(()));
    let v: serde_json::Value = serde_json::from_str(raw).unwrap();
    assert_eq!(
        parse_attendance_action(v["attendance"]["if_not_met"].as_str()),
        AttendanceAction::FailCourse
    );
    assert_eq!(parse_global_policy(v["global_exam"]["policy"].as_str().unwrap()), GlobalPolicyKind::Weighted);
    let names = category_names(&v);
    let names: Vec<&str> = names.iter().map(|s| s.as_str()).collect();
    let threshold = v["global_exam"]["only_if_category_below"]["category"].as_str().unwrap();
    assert_eq!(position_of(&names, threshold), Some(0), "resolved by category name");
    let controls = &v["categories"][1];
    assert_eq!(parse_action(controls["on_minimum_not_met"].as_str()), MinimumNotMetAction::CapFinalGrade);
    let required: Vec<&str> = controls["requires_categories"]
        .as_array()
        .unwrap()
        .iter()
        .map(|r| r.as_str().unwrap())
        .collect();
    assert_eq!(resolve_prerequisites(&required, &names), vec![0]);
}

#[test]
fn unknown_category_names_in_prerequisites_are_dropped() {
    let raw = r#"{"schema_version":1,"name":"X","categories":[
        {"name":"A","weight":100,"requires_categories":["Ghost"]}]}"#;
    assert_eq!(check_raw(raw), Ok(()));
    let v: serde_json::Value = serde_json::from_str(raw).unwrap();
    let names = category_names(&v);
    let names: Vec<&str> = names.iter().map(|s| s.as_str()).collect();
    assert!(resolve_prerequisites(&["Ghost"], &names).is_empty());
}
