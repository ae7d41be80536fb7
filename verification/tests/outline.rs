use proposal_doc::content::{Alignment, Block, Inline, Span};
use proposal_doc::models::{BudgetCategory, BudgetItem, CoPI, ProjectDuration, Submission};
use proposal_doc::page2::{
    create_paragraph_with_bold_heading, create_spacing_paragraph, page2_content_signatures,
    page2_content_with_table,
};

fn vacant() -> Submission {
    Submission {
        id: None,
        status: String::from("draft"),
        track: String::new(),
        track_code: None,
        unique_id: String::new(),
        updated_at: String::from("null"),
        user: String::new(),
        created_at: None,
        max_filled: None,
        additional_information: None,
        industry_partner: None,
        international_research_status: None,
        methodology: None,
        national_research_status: None,
        outside_tiet_uq_experts: None,
        outside_tiet_uq_experts_new: None,
        problem_definition: None,
        project_deliverables: None,
        project_deliverables_new: None,
        project_duration: None,
        project_importance: None,
        project_keywords: None,
        project_objective: None,
        project_objective_new: None,
        project_origin: None,
        project_summary: None,
        project_timeline: None,
        project_timeline_new: None,
        project_title: None,
        proposal_ppt: None,
        references: None,
        references_new: None,
        society_impact: None,
        supporting_documents: None,
        tiet_uq_facilities: None,
        timeline_diagram: None,
        trl_level: None,
        work_organization: None,
        budget: None,
        co_pi: None,
        discarded_at: None,
    }
}

fn partner(n: usize) -> CoPI {
    CoPI {
        email: format!("p{}@example.org", n),
        name: format!("Partner {}", n),
        status: String::from("pending"),
        accessLevel: Some(String::from("edit")),
        role: None,
    }
}

fn with_partners(n: usize) -> Submission {
    let mut s = vacant();
    s.co_pi = Some((1..=n).map(partner).collect());
    s
}

fn heading_of(block: &Block) -> Option<String> {
    match block.runs.first() {
        Some(Inline::Text(span)) => Some(span.text.clone()),
        _ => None,
    }
}

fn content_of(block: &Block) -> Option<String> {
    match block.runs.get(1) {
        Some(Inline::Text(span)) => Some(span.text.clone()),
        _ => None,
    }
}

fn point(blocks: &[Block], heading: &str) -> Option<String> {
    let found: Vec<&Block> =
        blocks.iter().filter(|b| heading_of(b).as_deref() == Some(heading)).collect();
    assert_eq!(found.len(), 1, "point {:?}", heading);
    content_of(found[0])
}

fn second_heading() -> Block {
    create_paragraph_with_bold_heading("7. Name of the Co-Project Investigator-2 (UoQ/TIET):", "")
}

fn bullet(text: &str) -> Block {
    Block::new().indent(720).add_run(Span::new(text).size(28).font("Calibri").color("#000000"))
}

#[test]
fn no_second_investigator_block_without_co_investigators() {
    let (blocks, _) = page2_content_with_table(&vacant());
    assert!(!blocks.contains(&second_heading()));
    let (blocks, _) = page2_content_with_table(&with_partners(0));
    assert!(!blocks.contains(&second_heading()));
}

#[test]
fn no_second_investigator_block_with_one_co_investigator() {
    let (blocks, _) = page2_content_with_table(&with_partners(1));
    assert!(!blocks.contains(&second_heading()));
    assert_eq!(blocks.len(), 56);
}

#[test]
fn second_investigator_block_with_two_or_more() {
    for n in 2..=4 {
        let (blocks, _) = page2_content_with_table(&with_partners(n));
        let at = blocks.iter().position(|b| *b == second_heading()).expect("the block is there");
        assert_eq!(blocks[at - 1], create_spacing_paragraph());
        assert_eq!(blocks[at + 1], bullet("• Designation:"));
        assert_eq!(blocks[at + 5], bullet("• Date of Award of Ph.D Degree"));
        assert_eq!(blocks.len(), 56 + 7);
    }
}

#[test]
fn first_investigator_block_is_always_there() {
    for n in 0..=3 {
        let (blocks, _) = page2_content_with_table(&with_partners(n));
        let heading = create_paragraph_with_bold_heading(
            "6. Name of the Co-Project Investigator-1 (UoQ/TIET):",
            "",
        );
        assert_eq!(blocks.iter().filter(|b| **b == heading).count(), 1);
    }
}

#[test]
fn outline_of_an_unfilled_submission_shows_empty_fields() {
    let (blocks, _) = page2_content_with_table(&vacant());
    assert_eq!(blocks.len(), 56);
    assert_eq!(point(&blocks, "1. Project Title: ").as_deref(), Some(""));
    assert_eq!(point(&blocks, "2. Sub Area: ").as_deref(), Some(""));
    assert_eq!(point(&blocks, "3. Total Cost: ").as_deref(), Some("0"));
    assert_eq!(point(&blocks, "4. Duration in months: ").as_deref(), Some("0"));
    assert_eq!(point(&blocks, "10. Keywords: ").as_deref(), Some(""));
    assert_eq!(point(&blocks, "   11.3 Objective: ").as_deref(), Some(""));
    assert_eq!(point(&blocks, "   14.3 Society Impact: ").as_deref(), Some(""));
}

#[test]
fn outline_points_stand_in_order() {
    let (blocks, _) = page2_content_with_table(&with_partners(2));
    let headings: Vec<String> = blocks
        .iter()
        .filter(|b| b.runs.len() == 2 || b.align.is_some())
        .filter_map(heading_of)
        .collect();
    assert_eq!(
        headings,
        vec![
            "Section A",
            "1. Project Title: ",
            "2. Sub Area: ",
            "3. Total Cost: ",
            "4. Duration in months: ",
            "5. Name of the Project Investigator (UoQ/TIET):",
            "6. Name of the Co-Project Investigator-1 (UoQ/TIET):",
            "7. Name of the Co-Project Investigator-2 (UoQ/TIET):",
            "Section B",
            "8. Project Title: ",
            "9. Project Summary (maximum 500 words): ",
            "10. Keywords: ",
            "11. Introduction (under the following heads):",
            "   11.1 Origin of the proposal: ",
            "   11.2 Definition of the problem: ",
            "   11.3 Objective: ",
            "12. Review and status of Research and Development in the subject:",
            "   12.1 International Status: ",
            "   12.2 National Status: ",
            "   12.3 Importance of the proposed project in the context of current status: ",
            "   12.4 References: ",
            "13. Work plan:",
            "   13.1 Methodology: ",
            "   13.2 Organization of work elements: ",
            "   13.3 Time schedule of activities giving milestones: ",
            "   13.4 Deliverables: ",
            "14. Facilities available at TIET/UQ: ",
            "   14.1 Industry Partner: ",
            "   14.2 Outside TIET/UQ Experts: ",
            "   14.3 Society Impact: ",
        ]
    );
    let last = &blocks[blocks.len() - 3..];
    assert_eq!(last[0], Block::new());
    assert_eq!(
        heading_of(&last[1]).as_deref(),
        Some("15. Budget requirement with justification (Consumables, Equipment, Contingency)")
    );
    assert_eq!(last[2], create_spacing_paragraph());
}

#[test]
fn outline_shows_the_fields_of_a_submission() {
    let mut s = vacant();
    s.project_title = Some(String::from("Tidal Sensors"));
    s.track = String::from("Health");
    s.project_duration = Some(ProjectDuration { days: 40, months: 2, years: 1 });
    s.project_summary = Some(String::from("A summary"));
    s.project_keywords = Some(vec![String::from("tide"), String::from("sensor")]);
    s.project_origin = Some(String::from("Origin"));
    s.problem_definition = Some(String::from("Problem"));
    s.project_objective = Some(vec![String::from("One"), String::from("Two")]);
    s.project_objective_new = Some(String::from("unused"));
    s.international_research_status = Some(String::from("Abroad"));
    s.national_research_status = Some(String::from("Home"));
    s.project_importance = Some(String::from("Important"));
    s.references = Some(vec![]);
    s.references_new = Some(String::from("Refs"));
    s.methodology = Some(String::from("Method"));
    s.work_organization = Some(String::from("Work"));
    s.project_timeline_new = Some(String::from("Plan"));
    s.project_deliverables = Some(vec![String::from("Report")]);
    s.tiet_uq_facilities = Some(String::from("Lab"));
    s.industry_partner = Some(String::from("Acme"));
    s.outside_tiet_uq_experts = Some(vec![String::from("Dr. A"), String::from("Dr. B")]);
    s.society_impact = Some(String::from("Impact"));
    s.budget = Some(vec![BudgetCategory {
        category_type: String::from("Recurring"),
        items: vec![
            BudgetItem {
                heading: String::from("Staff"),
                id: String::from("1"),
                isRequired: true,
                justification: String::new(),
                total: 1200,
                years: vec![400, 400, 400],
            },
            BudgetItem {
                heading: String::from("Travel"),
                id: String::from("2"),
                isRequired: false,
                justification: String::new(),
                total: 34,
                years: vec![],
            },
        ],
    }]);
    let (blocks, table) = page2_content_with_table(&s);
    assert_eq!(point(&blocks, "1. Project Title: ").as_deref(), Some("Tidal Sensors"));
    assert_eq!(point(&blocks, "2. Sub Area: ").as_deref(), Some("Health"));
    assert_eq!(point(&blocks, "3. Total Cost: ").as_deref(), Some("1234"));
    assert_eq!(point(&blocks, "4. Duration in months: ").as_deref(), Some("15"));
    assert_eq!(point(&blocks, "8. Project Title: ").as_deref(), Some("Tidal Sensors"));
    assert_eq!(
        point(&blocks, "9. Project Summary (maximum 500 words): ").as_deref(),
        Some("A summary")
    );
    assert_eq!(point(&blocks, "10. Keywords: ").as_deref(), Some("tide, sensor"));
    assert_eq!(point(&blocks, "   11.1 Origin of the proposal: ").as_deref(), Some("Origin"));
    assert_eq!(point(&blocks, "   11.2 Definition of the problem: ").as_deref(), Some("Problem"));
    assert_eq!(point(&blocks, "   11.3 Objective: ").as_deref(), Some("One; Two"));
    assert_eq!(point(&blocks, "   12.1 International Status: ").as_deref(), Some("Abroad"));
    assert_eq!(point(&blocks, "   12.2 National Status: ").as_deref(), Some("Home"));
    assert_eq!(
        point(
            &blocks,
            "   12.3 Importance of the proposed project in the context of current status: "
        )
        .as_deref(),
        Some("Important")
    );
    assert_eq!(point(&blocks, "   12.4 References: ").as_deref(), Some("Refs"));
    assert_eq!(point(&blocks, "   13.1 Methodology: ").as_deref(), Some("Method"));
    assert_eq!(point(&blocks, "   13.2 Organization of work elements: ").as_deref(), Some("Work"));
    assert_eq!(
        point(&blocks, "   13.3 Time schedule of activities giving milestones: ").as_deref(),
        Some("Plan")
    );
    assert_eq!(point(&blocks, "   13.4 Deliverables: ").as_deref(), Some("Report"));
    assert_eq!(point(&blocks, "14. Facilities available at TIET/UQ: ").as_deref(), Some("Lab"));
    assert_eq!(point(&blocks, "   14.1 Industry Partner: ").as_deref(), Some("Acme"));
    assert_eq!(point(&blocks, "   14.2 Outside TIET/UQ Experts: ").as_deref(), Some("Dr. A; Dr. B"));
    assert_eq!(point(&blocks, "   14.3 Society Impact: ").as_deref(), Some("Impact"));
    assert_eq!(table.rows.len(), 1 + 1 + 2 + 1);
}

#[test]
fn details_of_the_principal_investigator() {
    let mut s = vacant();
    s.track_code = Some(String::from("E42"));
    s.user = String::from("pi@example.org");
    s.trl_level = Some(String::from("3"));
    let (blocks, _) = page2_content_with_table(&s);
    let at = blocks
        .iter()
        .position(|b| {
            heading_of(b).as_deref() == Some("5. Name of the Project Investigator (UoQ/TIET):")
        })
        .expect("point 5 is there");
    assert_eq!(blocks[at + 1], bullet("• Designation:"));
    assert_eq!(blocks[at + 2], bullet("• Department /School"));
    assert_eq!(blocks[at + 3], bullet("• Area of Specialization"));
    assert_eq!(blocks[at + 4], bullet("• Date of Joining the Institute"));
    assert_eq!(blocks[at + 5], bullet("• Date of Award of Ph.D Degree"));
    assert_eq!(blocks[at + 6], bullet("• E-Code: E42"));
    assert_eq!(blocks[at + 7], bullet("• Contact:"));
    assert_eq!(blocks[at + 8], bullet("• Email: pi@example.org"));
    assert_eq!(blocks[at + 9], bullet("• TRL Level: 3"));
    assert_eq!(blocks[at + 10], create_spacing_paragraph());
    assert_eq!(blocks.len(), 56 + 3);
}

#[test]
fn empty_details_are_left_out() {
    let mut s = vacant();
    s.track_code = Some(String::new());
    s.trl_level = None;
    s.user = String::new();
    let (blocks, _) = page2_content_with_table(&s);
    let shown: Vec<String> = blocks.iter().filter_map(heading_of).collect();
    assert!(shown.iter().all(|t| !t.starts_with("• E-Code")));
    assert!(shown.iter().all(|t| !t.starts_with("• Email")));
    assert!(shown.iter().all(|t| !t.starts_with("• TRL")));
    assert!(shown.contains(&String::from("• Contact:")));
    assert_eq!(blocks.len(), 56);
}

#[test]
fn numbered_points_are_bold_calibri_then_georgia() {
    let block = create_paragraph_with_bold_heading("2. Sub Area: ", "Health");
    assert_eq!(
        block,
        Block::new()
            .add_run(Span::new("2. Sub Area: ").bold().size(28).font("Calibri").color("#000000"))
            .add_run(Span::new("Health").size(28).font("Georgia").color("#333333"))
    );
    assert_eq!(create_spacing_paragraph(), Block::new().spacing_after(240));
    assert_eq!(create_spacing_paragraph().spacing_after, Some(240));
}

#[test]
fn section_titles_are_centred() {
    let (blocks, _) = page2_content_with_table(&vacant());
    assert_eq!(
        blocks[0],
        Block::new()
            .align(Alignment::Center)
            .add_run(Span::new("Section A").bold().size(48).font("Arial").color("#000000"))
    );
    assert_eq!(blocks[1], create_spacing_paragraph());
}

#[test]
fn closing_declaration() {
    let blocks = page2_content_signatures();
    assert_eq!(blocks.len(), 9);
    assert_eq!(blocks[0], Block::new());
    assert_eq!(
        blocks[1],
        Block::new().add_run(
            Span::new(
                "16. Any other information which the investigator may like to give in support of his proposal"
            )
            .bold()
            .size(28)
            .font("Calibri")
            .color("#000000")
        )
    );
    assert_eq!(blocks[2], create_spacing_paragraph());
    assert_eq!(
        blocks[5],
        Block::new().align(Alignment::Left).add_run(
            Span::new("Signature of the Applicant").size(24).font("Georgia").color("#333333")
        )
    );
    for at in [3, 4, 6, 7, 8] {
        assert_eq!(blocks[at], Block::new());
    }
}

#[test]
fn outline_is_the_same_every_time() {
    let s = with_partners(3);
    assert_eq!(page2_content_with_table(&s), page2_content_with_table(&s.clone()));
}
