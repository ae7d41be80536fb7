use proposal_doc::content::Block;
use proposal_doc::document::{assemble, assemble_on, ContentBlock};
use proposal_doc::models::{BudgetCategory, BudgetItem, CoPI, Submission};
use proposal_doc::page1::page1_content;
use proposal_doc::page2::{page2_content_signatures, page2_content_with_table};

fn plain() -> Submission {
    Submission {
        id: None,
        status: String::from("draft"),
        track: String::new(),
        track_code: None,
        unique_id: String::new(),
        updated_at: String::from("null"),
        user: String::new(),
        created_at: None,
        max_filled: None,
        additional_information: None,
        industry_partner: None,
        international_research_status: None,
        methodology: None,
        national_research_status: None,
        outside_tiet_uq_experts: None,
        outside_tiet_uq_experts_new: None,
        problem_definition: None,
        project_deliverables: None,
        project_deliverables_new: None,
        project_duration: None,
        project_importance: None,
        project_keywords: None,
        project_objective: None,
        project_objective_new: None,
        project_origin: None,
        project_summary: None,
        project_timeline: None,
        project_timeline_new: None,
        project_title: None,
        proposal_ppt: None,
        references: None,
        references_new: None,
        society_impact: None,
        supporting_documents: None,
        tiet_uq_facilities: None,
        timeline_diagram: None,
        trl_level: None,
        work_organization: None,
        budget: None,
        co_pi: None,
        discarded_at: None,
    }
}

fn filled() -> Submission {
    let mut s = plain();
    s.project_title = Some(String::from("Tidal Sensors"));
    s.user = String::from("pi@example.org");
    s.co_pi = Some(vec![
        CoPI {
            email: String::from("a@example.org"),
            name: String::from("A"),
            status: String::from("accepted"),
            accessLevel: None,
            role: Some(String::from("advisor")),
        },
        CoPI {
            email: String::from("b@example.org"),
            name: String::from("B"),
            status: String::from("accepted"),
            accessLevel: None,
            role: None,
        },
    ]);
    s.budget = Some(vec![BudgetCategory {
        category_type: String::from("Recurring"),
        items: vec![BudgetItem {
            heading: String::from("Staff"),
            id: String::from("1"),
            isRequired: true,
            justification: String::from("needed"),
            total: 10,
            years: vec![5, 5],
        }],
    }]);
    s
}

#[test]
fn assembling_twice_gives_the_same_content() {
    let s = filled();
    let twin = s.clone();
    let first = assemble(&s, Some(vec![1, 2, 3]), "May 2025");
    let second = assemble(&twin, Some(vec![1, 2, 3]), "May 2025");
    assert_eq!(first, second);
    assert_eq!(first, assemble(&s, Some(vec![1, 2, 3]), "May 2025"));
}

#[test]
fn document_is_cover_break_outline_table_closing() {
    let s = filled();
    let content = assemble(&s, None, "May 2025");
    let cover = page1_content(&s, None, "May 2025");
    let (outline, table) = page2_content_with_table(&s);
    let closing = page2_content_signatures();
    let mut expected: Vec<ContentBlock> = Vec::new();
    expected.extend(cover.into_iter().map(ContentBlock::Paragraph));
    expected.push(ContentBlock::Paragraph(Block::new().page_break_before(true)));
    expected.extend(outline.into_iter().map(ContentBlock::Paragraph));
    expected.push(ContentBlock::Table(table));
    expected.extend(closing.into_iter().map(ContentBlock::Paragraph));
    assert_eq!(content, expected);
}

#[test]
fn document_holds_one_table_between_heading_and_closing() {
    let s = filled();
    let content = assemble(&s, None, "May 2025");
    let tables: Vec<usize> = content
        .iter()
        .enumerate()
        .filter(|(_, b)| matches!(b, ContentBlock::Table(_)))
        .map(|(at, _)| at)
        .collect();
    assert_eq!(tables.len(), 1);
    let at = tables[0];
    assert_eq!(content.len(), at + 1 + 9);
    match &content[at - 2] {
        ContentBlock::Paragraph(block) => assert_eq!(block.runs.len(), 1),
        ContentBlock::Table(_) => panic!("two tables"),
    }
    assert_eq!(content[at + 1], ContentBlock::Paragraph(Block::new()));
}

#[test]
fn page_break_follows_the_cover() {
    let s = plain();
    let content = assemble(&s, None, "May 2025");
    let breaks: Vec<usize> = content
        .iter()
        .enumerate()
        .filter(|(_, b)| matches!(b, ContentBlock::Paragraph(p) if p.page_break_before))
        .map(|(at, _)| at)
        .collect();
    assert_eq!(breaks, vec![29]);
}

#[test]
fn document_dated_by_month_and_year() {
    let s = filled();
    assert_eq!(assemble_on(&s, None, 2025, 5), Some(assemble(&s, None, "May 2025")));
    assert_eq!(assemble_on(&s, None, 2025, 0), None);
    assert_eq!(assemble_on(&s, None, 2025, 13), None);
}
