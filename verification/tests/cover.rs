use proposal_doc::content::{Alignment, Block, Inline, Span};
use proposal_doc::models::{CoPI, Submission};
use proposal_doc::page1::{create_placeholder_content, page1_content, page1_content_on};

fn unfilled() -> Submission {
    Submission {
        id: None,
        status: String::from("draft"),
        track: String::new(),
        track_code: None,
        unique_id: String::new(),
        updated_at: String::from("null"),
        user: String::new(),
        created_at: None,
        max_filled: None,
        additional_information: None,
        industry_partner: None,
        international_research_status: None,
        methodology: None,
        national_research_status: None,
        outside_tiet_uq_experts: None,
        outside_tiet_uq_experts_new: None,
        problem_definition: None,
        project_deliverables: None,
        project_deliverables_new: None,
        project_duration: None,
        project_importance: None,
        project_keywords: None,
        project_objective: None,
        project_objective_new: None,
        project_origin: None,
        project_summary: None,
        project_timeline: None,
        project_timeline_new: None,
        project_title: None,
        proposal_ppt: None,
        references: None,
        references_new: None,
        society_impact: None,
        supporting_documents: None,
        tiet_uq_facilities: None,
        timeline_diagram: None,
        trl_level: None,
        work_organization: None,
        budget: None,
        co_pi: None,
        discarded_at: None,
    }
}

fn colleague(n: usize) -> CoPI {
    CoPI {
        email: format!("copi{}@example.org", n),
        name: format!("Colleague {}", n),
        status: String::from("accepted"),
        accessLevel: None,
        role: None,
    }
}

fn with_colleagues(n: usize) -> Submission {
    let mut s = unfilled();
    s.co_pi = Some((1..=n).map(colleague).collect());
    s
}

fn label() -> Block {
    Block::new()
        .align(Alignment::Center)
        .add_run(Span::new("Co-Principal Investigator(s)").size(32))
}

fn first_text(block: &Block) -> Option<String> {
    match block.runs.first() {
        Some(Inline::Text(span)) => Some(span.text.clone()),
        _ => None,
    }
}

fn blanks_after_head(blocks: &[Block], from: usize) -> usize {
    blocks[from..].iter().take_while(|b| **b == Block::new()).count()
}

#[test]
fn cover_without_co_investigators_has_no_label() {
    let blocks = page1_content(&unfilled(), None, "May 2025");
    assert!(!blocks.contains(&label()));
    assert_eq!(blocks.len(), 13 + 8 + 8);
    // the empty paragraph below the investigator, then eight more
    assert_eq!(blanks_after_head(&blocks, 12), 9);
    let listed_but_empty = with_colleagues(0);
    let blocks = page1_content(&listed_but_empty, None, "May 2025");
    assert!(!blocks.contains(&label()));
    assert_eq!(blocks.len(), 29);
}

#[test]
fn cover_names_each_co_investigator() {
    let blocks = page1_content(&with_colleagues(2), None, "May 2025");
    assert_eq!(blocks[13], label());
    assert_eq!(blocks[14], Block::new());
    assert_eq!(first_text(&blocks[15]).as_deref(), Some("copi1@example.org"));
    assert_eq!(first_text(&blocks[16]).as_deref(), Some("copi2@example.org"));
    assert_eq!(
        blocks[15],
        Block::new()
            .align(Alignment::Center)
            .add_run(Span::new("copi1@example.org").bold().size(36))
    );
    assert_eq!(blanks_after_head(&blocks, 17), 4);
    assert_eq!(blocks.len(), 13 + 2 + 2 + 4 + 8);
}

#[test]
fn cover_keeps_its_length_up_to_five_co_investigators() {
    for n in 1..=5 {
        let blocks = page1_content(&with_colleagues(n), None, "May 2025");
        assert_eq!(blocks.len(), 29, "with {} co-investigators", n);
        assert_eq!(blanks_after_head(&blocks, 15 + n), 6 - n);
    }
}

#[test]
fn cover_names_at_most_five_co_investigators() {
    let blocks = page1_content(&with_colleagues(7), None, "May 2025");
    assert_eq!(blocks.len(), 29);
    assert_eq!(first_text(&blocks[19]).as_deref(), Some("copi5@example.org"));
    assert_eq!(blocks[20], Block::new());
    let shown: Vec<String> = blocks.iter().filter_map(first_text).collect();
    assert!(!shown.contains(&String::from("copi6@example.org")));
    assert!(!shown.contains(&String::from("copi7@example.org")));
}

#[test]
fn cover_shows_title_banner_and_investigator() {
    let mut s = unfilled();
    s.project_title = Some(String::from("Tidal Sensors"));
    s.user = String::from("pi@example.org");
    let blocks = page1_content(&s, None, "May 2025");
    assert_eq!(
        blocks[0],
        Block::new().align(Alignment::Center).add_run(Span::new("Tidal Sensors").bold().size(48))
    );
    assert_eq!(blocks[1], Block::new());
    assert_eq!(
        blocks[3],
        Block::new().align(Alignment::Center).add_run(
            Span::new("COE-DSAI SEED GRANT PROPOSAL").bold().size(48).color("#800020")
        )
    );
    assert_eq!(first_text(&blocks[7]).as_deref(), Some("PI Details"));
    assert_eq!(
        blocks[9],
        Block::new().align(Alignment::Center).add_run(Span::new("Principal Investigator").size(36))
    );
    assert_eq!(
        blocks[11],
        Block::new().align(Alignment::Center).add_run(Span::new("pi@example.org").bold().size(40))
    );
}

#[test]
fn cover_without_title_shows_an_empty_title() {
    let blocks = page1_content(&unfilled(), None, "May 2025");
    assert_eq!(first_text(&blocks[0]).as_deref(), Some(""));
    assert_eq!(
        blocks[0],
        Block::new().align(Alignment::Center).add_run(Span::new("").bold().size(48))
    );
    let mut s = unfilled();
    s.project_title = Some(String::new());
    assert_eq!(page1_content(&s, None, "May 2025"), blocks);
}

#[test]
fn cover_foot_names_the_institution_and_the_date() {
    let blocks = page1_content(&unfilled(), None, "May 2025");
    let foot = &blocks[blocks.len() - 8..];
    let texts: Vec<Option<String>> = foot.iter().map(first_text).collect();
    assert_eq!(
        texts,
        vec![
            Some(String::from("Centre of Excellence in Data Science and")),
            Some(String::from("Artificial Intelligence")),
            None,
            Some(String::from("Thapar Institute of Engineering and Technology")),
            None,
            Some(String::from("Patiala 147004")),
            None,
            Some(String::from("May 2025")),
        ]
    );
    assert_eq!(
        foot[0],
        Block::new().align(Alignment::Center).add_run(
            Span::new("Centre of Excellence in Data Science and").bold().size(36).color("#0066CC")
        )
    );
    assert_eq!(
        foot[7],
        Block::new().align(Alignment::Center).add_run(Span::new("May 2025").size(36))
    );
}

#[test]
fn cover_with_logo_shows_it_above_the_foot() {
    let logo = vec![137u8, 80, 78, 71];
    let blocks = page1_content(&unfilled(), Some(logo.clone()), "May 2025");
    assert_eq!(blocks.len(), 31);
    let at = blocks.len() - 10;
    assert_eq!(blocks[at], Block::new().align(Alignment::Center).add_image(logo));
    assert_eq!(blocks[at + 1], Block::new());
}

#[test]
fn placeholder_cover_is_the_cover_without_logo() {
    let s = with_colleagues(3);
    assert_eq!(create_placeholder_content(&s, "May 2025"), page1_content(&s, None, "May 2025"));
    let with_logo = page1_content(&s, Some(vec![1, 2, 3]), "May 2025");
    let without: Vec<Block> = create_placeholder_content(&s, "May 2025");
    assert_eq!(with_logo.len(), without.len() + 2);
}

#[test]
fn cover_dated_by_month_and_year() {
    let blocks = page1_content_on(&unfilled(), None, 2026, 10).expect("October exists");
    assert_eq!(first_text(&blocks[blocks.len() - 1]).as_deref(), Some("October 2026"));
    assert_eq!(blocks, page1_content(&unfilled(), None, "October 2026"));
    let blocks = page1_content_on(&unfilled(), None, 1999, 1).expect("January exists");
    assert_eq!(first_text(&blocks[blocks.len() - 1]).as_deref(), Some("January 1999"));
}

fn date_of(year: i32, month: u32) -> Option<String> {
    let blocks = page1_content_on(&unfilled(), None, year, month)?;
    first_text(&blocks[blocks.len() - 1])
}

#[test]
fn cover_dates_name_the_twelve_months() {
    let names = [
        "January",
        "February",
        "March",
        "April",
        "May",
        "June",
        "July",
        "August",
        "September",
        "October",
        "November",
        "December",
    ];
    for (at, name) in names.iter().enumerate() {
        assert_eq!(date_of(2025, at as u32 + 1), Some(format!("{} 2025", name)));
    }
}

#[test]
fn cover_dates_show_the_year_in_four_digits() {
    assert_eq!(date_of(1000, 3).as_deref(), Some("March 1000"));
    assert_eq!(date_of(9999, 3).as_deref(), Some("March 9999"));
    assert_eq!(date_of(999, 3).as_deref(), Some("March 0999"));
    assert_eq!(date_of(42, 3).as_deref(), Some("March 0042"));
    assert_eq!(date_of(0, 3).as_deref(), Some("March 0000"));
}

#[test]
fn cover_dates_sign_years_beyond_four_digits() {
    assert_eq!(date_of(10000, 7).as_deref(), Some("July +10000"));
    assert_eq!(date_of(262142, 7).as_deref(), Some("July +262142"));
    assert_eq!(date_of(-1, 7).as_deref(), Some("July -0001"));
    assert_eq!(date_of(-999, 7).as_deref(), Some("July -0999"));
    assert_eq!(date_of(-9999, 7).as_deref(), Some("July -9999"));
    assert_eq!(date_of(-10000, 7).as_deref(), Some("July -10000"));
    assert_eq!(date_of(-262143, 7).as_deref(), Some("July -262143"));
}

#[test]
fn no_cover_for_a_month_that_does_not_exist() {
    assert_eq!(page1_content_on(&unfilled(), None, 2026, 0), None);
    assert_eq!(page1_content_on(&unfilled(), None, 2026, 13), None);
    assert_eq!(page1_content_on(&unfilled(), None, i32::MAX, 1), None);
    assert_eq!(page1_content_on(&unfilled(), None, 262143, 1), None);
    assert_eq!(page1_content_on(&unfilled(), None, -262144, 12), None);
}

#[test]
fn covers_for_the_first_and_the_last_month() {
    assert!(page1_content_on(&unfilled(), None, 262142, 12).is_some());
    assert!(page1_content_on(&unfilled(), None, -262143, 1).is_some());
    assert!(page1_content_on(&unfilled(), None, 0, 6).is_some());
}

#[test]
fn cover_is_the_same_every_time() {
    let s = with_colleagues(2);
    let first = page1_content(&s, Some(vec![9, 9]), "May 2025");
    let second = page1_content(&s.clone(), Some(vec![9, 9]), "May 2025");
    assert_eq!(first, second);
}
