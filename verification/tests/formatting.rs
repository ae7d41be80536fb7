use proposal_doc::formatter::{
    format_co_pi_emails, format_co_pi_names, format_deliverables, format_experts,
    format_keywords, format_objectives, format_references, format_timeline, total_months,
};
use proposal_doc::models::{CoPI, ProjectDuration, Submission};
use proposal_doc::text::{append_str, format_int, format_wide, join_strings, LIMB};

fn blank_submission() -> Submission {
    Submission {
        id: None,
        status: String::from("draft"),
        track: String::new(),
        track_code: None,
        unique_id: String::new(),
        updated_at: String::from("null"),
        user: String::new(),
        created_at: None,
        max_filled: None,
        additional_information: None,
        industry_partner: None,
        international_research_status: None,
        methodology: None,
        national_research_status: None,
        outside_tiet_uq_experts: None,
        outside_tiet_uq_experts_new: None,
        problem_definition: None,
        project_deliverables: None,
        project_deliverables_new: None,
        project_duration: None,
        project_importance: None,
        project_keywords: None,
        project_objective: None,
        project_objective_new: None,
        project_origin: None,
        project_summary: None,
        project_timeline: None,
        project_timeline_new: None,
        project_title: None,
        proposal_ppt: None,
        references: None,
        references_new: None,
        society_impact: None,
        supporting_documents: None,
        tiet_uq_facilities: None,
        timeline_diagram: None,
        trl_level: None,
        work_organization: None,
        budget: None,
        co_pi: None,
        discarded_at: None,
    }
}

fn words(items: &[&str]) -> Vec<String> {
    items.iter().map(|s| s.to_string()).collect()
}

fn person(name: &str, email: &str) -> CoPI {
    CoPI {
        email: email.to_string(),
        name: name.to_string(),
        status: String::from("accepted"),
        accessLevel: None,
        role: None,
    }
}

#[test]
fn decimal_numerals() {
    assert_eq!(format_int(0), "0");
    assert_eq!(format_int(7), "7");
    assert_eq!(format_int(10), "10");
    assert_eq!(format_int(-1), "-1");
    assert_eq!(format_int(-120), "-120");
    assert_eq!(format_int(2147483647), "2147483647");
    assert_eq!(format_int(-2147483648), "-2147483648");
    assert_eq!(format_int(i128::MAX), i128::MAX.to_string());
    assert_eq!(format_int(i128::MIN), i128::MIN.to_string());
}

#[test]
fn join_of_none_one_and_many() {
    assert_eq!(join_strings(&words(&[]), "; "), "");
    assert_eq!(join_strings(&words(&["a"]), "; "), "a");
    assert_eq!(join_strings(&words(&["a", "b", "c"]), "; "), "a; b; c");
    assert_eq!(join_strings(&words(&["", ""]), ", "), ", ");
}

#[test]
fn append_str_appends() {
    assert_eq!(append_str("• E-Code: ", "E42"), "• E-Code: E42");
    assert_eq!(append_str("", ""), "");
}

#[test]
fn empty_objective_list_falls_back_to_free_text() {
    let mut s = blank_submission();
    s.project_objective = Some(vec![]);
    s.project_objective_new = Some(String::from("Map the seabed"));
    assert_eq!(format_objectives(&s), "Map the seabed");
    s.project_objective = None;
    assert_eq!(format_objectives(&s), "Map the seabed");
}

#[test]
fn objective_list_wins_over_free_text() {
    let mut s = blank_submission();
    s.project_objective = Some(words(&["Survey", "Model", "Publish"]));
    s.project_objective_new = Some(String::from("ignored"));
    assert_eq!(format_objectives(&s), "Survey; Model; Publish");
    s.project_objective_new = None;
    assert_eq!(format_objectives(&s), "Survey; Model; Publish");
}

#[test]
fn absent_list_and_text_show_nothing() {
    let s = blank_submission();
    assert_eq!(format_objectives(&s), "");
    assert_eq!(format_references(&s), "");
    assert_eq!(format_timeline(&s), "");
    assert_eq!(format_deliverables(&s), "");
    assert_eq!(format_experts(&s), "");
    assert_eq!(format_keywords(&s), "");
}

#[test]
fn every_list_field_follows_the_same_rule() {
    let mut s = blank_submission();
    s.references = Some(words(&["[1]", "[2]"]));
    s.references_new = Some(String::from("x"));
    s.project_timeline = Some(vec![]);
    s.project_timeline_new = Some(String::from("Two phases"));
    s.project_deliverables = Some(words(&["Report"]));
    s.outside_tiet_uq_experts = None;
    s.outside_tiet_uq_experts_new = Some(String::from("Dr. A"));
    assert_eq!(format_references(&s), "[1]; [2]");
    assert_eq!(format_timeline(&s), "Two phases");
    assert_eq!(format_deliverables(&s), "Report");
    assert_eq!(format_experts(&s), "Dr. A");
}

#[test]
fn keywords_are_joined_by_commas() {
    let mut s = blank_submission();
    s.project_keywords = Some(words(&["ai", "health"]));
    assert_eq!(format_keywords(&s), "ai, health");
    s.project_keywords = Some(vec![]);
    assert_eq!(format_keywords(&s), "");
}

#[test]
fn duration_in_months() {
    let d = ProjectDuration { days: 40, months: 2, years: 1 };
    assert_eq!(total_months(&Some(d)), 15);
    assert_eq!(total_months(&None), 0);
    assert_eq!(total_months(&Some(ProjectDuration { days: 29, months: 0, years: 0 })), 0);
    assert_eq!(total_months(&Some(ProjectDuration { days: 30, months: 0, years: 0 })), 1);
    assert_eq!(total_months(&Some(ProjectDuration { days: 0, months: 7, years: 3 })), 43);
}

#[test]
fn negative_days_round_down() {
    assert_eq!(total_months(&Some(ProjectDuration { days: -1, months: 0, years: 0 })), -1);
    assert_eq!(total_months(&Some(ProjectDuration { days: -30, months: 0, years: 0 })), -1);
    assert_eq!(total_months(&Some(ProjectDuration { days: -31, months: 0, years: 0 })), -2);
}

#[test]
fn duration_does_not_overflow() {
    let d = ProjectDuration { days: i32::MAX, months: i32::MAX, years: i32::MAX };
    let expected = (i32::MAX as i64) * 12 + (i32::MAX as i64) + (i32::MAX as i64) / 30;
    assert_eq!(total_months(&Some(d)), expected);
    let d = ProjectDuration { days: i32::MIN, months: i32::MIN, years: i32::MIN };
    let expected = (i32::MIN as i64) * 12 + (i32::MIN as i64) + (i32::MIN as i64).div_euclid(30);
    assert_eq!(total_months(&Some(d)), expected);
}

#[test]
fn co_investigator_lists() {
    let people = Some(vec![person("Asha", "asha@example.org"), person("Ben", "ben@example.org")]);
    assert_eq!(format_co_pi_emails(&people), "asha@example.org, ben@example.org");
    assert_eq!(format_co_pi_names(&people), "Asha, Ben");
    assert_eq!(format_co_pi_emails(&None), "");
    assert_eq!(format_co_pi_names(&Some(vec![])), "");
}

#[test]
fn wide_numerals() {
    assert_eq!(LIMB, 10u128.pow(30));
    assert_eq!(format_wide(0, 0), "0");
    assert_eq!(format_wide(0, 42), "42");
    assert_eq!(format_wide(1, 5), "1000000000000000000000000000005");
    assert_eq!(format_wide(12, 0), "12000000000000000000000000000000");
    assert_eq!(format_wide(-1, 0), "-1000000000000000000000000000000");
    assert_eq!(format_wide(-1, 1), "-999999999999999999999999999999");
    assert_eq!(format_wide(-1, LIMB - 1), "-1");
    assert_eq!(format_wide(-2, LIMB - 7), "-1000000000000000000000000000007");
    assert_eq!(format_wide(3, LIMB - 1), "3999999999999999999999999999999");
}
