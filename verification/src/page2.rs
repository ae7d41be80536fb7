//! The two-section outline: administrative data (section A), the research
//! narrative (section B), the budget table and the closing declaration.
//! The points are numbered 1 to 16; point 7 exists only where a second
//! co-investigator does.

use vstd::prelude::*;

use crate::budget::{budget_table, budget_table_of, calculate_total_budget, grand_total};
use crate::content::{push_block, Alignment, Block, BlockView, Span, SpanView, Table};
use crate::formatter::{
    comma_list, display_or_empty, format_deliverables, format_experts, format_keywords,
    format_objectives, format_references, format_timeline, list_or_text, text_or_empty,
    total_months, total_months_of,
};
use crate::models::{CoPIView, Submission, SubmissionView};
use crate::text::{append_str, decimal, format_int};

verus! {

/// The title of a section: centred, bold, 24-point Arial.
pub open spec fn section_title(text: Seq<char>) -> BlockView {
    BlockView::blank().aligned(Alignment::Center).with_text(
        SpanView::plain(text).bolded().sized(48).in_font("Arial"@).colored("#000000"@),
    )
}

/// An empty paragraph with 12 points of space after it.
pub open spec fn spacer() -> BlockView {
    BlockView::blank().spaced_after(240)
}

/// A bold heading in Calibri.
pub open spec fn heading_span(text: Seq<char>) -> SpanView {
    SpanView::plain(text).bolded().sized(28).in_font("Calibri"@).colored("#000000"@)
}

/// A numbered point: its bold heading, then its content in Georgia.
pub open spec fn labelled(heading: Seq<char>, content: Seq<char>) -> BlockView {
    BlockView::blank().with_text(heading_span(heading)).with_text(
        SpanView::plain(content).sized(28).in_font("Georgia"@).colored("#333333"@),
    )
}

/// A paragraph that holds a bold heading alone.
pub open spec fn heading_only(text: Seq<char>) -> BlockView {
    BlockView::blank().with_text(heading_span(text))
}

/// An indented line of an investigator's details.
pub open spec fn bullet(text: Seq<char>) -> BlockView {
    BlockView::blank().indented(720).with_text(
        SpanView::plain(text).sized(28).in_font("Calibri"@).colored("#000000"@),
    )
}

/// The five details asked of every investigator.
pub open spec fn investigator_details() -> Seq<BlockView> {
    seq![
        bullet("• Designation:"@),
        bullet("• Department /School"@),
        bullet("• Area of Specialization"@),
        bullet("• Date of Joining the Institute"@),
        bullet("• Date of Award of Ph.D Degree"@),
    ]
}

/// A detail line that is shown only where its value holds anything.
pub open spec fn optional_bullet(prefix: Seq<char>, value: Seq<char>) -> Seq<BlockView> {
    if value.len() == 0 {
        Seq::empty()
    } else {
        seq![bullet(prefix + value)]
    }
}

/// The opening of section A: its title and points 1 to 4.
pub open spec fn summary_points(submission: SubmissionView) -> Seq<BlockView> {
    seq![
        section_title("Section A"@),
        spacer(),
        labelled("1. Project Title: "@, text_or_empty(submission.project_title)),
        labelled("2. Sub Area: "@, submission.track),
        labelled("3. Total Cost: "@, decimal(grand_total(submission.budget))),
        labelled(
            "4. Duration in months: "@,
            decimal(total_months_of(submission.project_duration)),
        ),
    ]
}

/// Point 5: the principal investigator.
pub open spec fn principal_part(submission: SubmissionView) -> Seq<BlockView> {
    seq![labelled("5. Name of the Project Investigator (UoQ/TIET):"@, Seq::empty())]
        + investigator_details() + optional_bullet(
        "• E-Code: "@,
        text_or_empty(submission.track_code),
    ) + seq![bullet("• Contact:"@)] + optional_bullet("• Email: "@, submission.user)
        + optional_bullet("• TRL Level: "@, text_or_empty(submission.trl_level))
}

/// The heading of the block of co-investigator 1.
pub open spec fn first_co_pi_heading() -> BlockView {
    labelled("6. Name of the Co-Project Investigator-1 (UoQ/TIET):"@, Seq::empty())
}

/// The heading of the block of co-investigator 2.
pub open spec fn second_co_pi_heading() -> BlockView {
    labelled("7. Name of the Co-Project Investigator-2 (UoQ/TIET):"@, Seq::empty())
}

/// The block of one co-investigator: space, its heading, the details.
pub open spec fn co_pi_block(heading: BlockView) -> Seq<BlockView> {
    seq![spacer(), heading] + investigator_details()
}

/// Whether a second co-investigator is named.
pub open spec fn has_second_co_pi(people: Option<Seq<CoPIView>>) -> bool {
    match people {
        Some(list) => list.len() > 1,
        None => false,
    }
}

/// The block of co-investigator 2, where there is one.
pub open spec fn second_co_pi_part(people: Option<Seq<CoPIView>>) -> Seq<BlockView> {
    if has_second_co_pi(people) {
        co_pi_block(second_co_pi_heading())
    } else {
        Seq::empty()
    }
}

/// Section A.
pub open spec fn section_a(submission: SubmissionView) -> Seq<BlockView> {
    summary_points(submission) + principal_part(submission) + co_pi_block(first_co_pi_heading())
        + second_co_pi_part(submission.co_pi) + seq![
        spacer(),
        BlockView::blank(),
        BlockView::blank(),
    ]
}

/// The opening of section B: its title and points 8 to 10.
pub open spec fn narrative_opening(submission: SubmissionView) -> Seq<BlockView> {
    seq![
        section_title("Section B"@),
        spacer(),
        labelled("8. Project Title: "@, text_or_empty(submission.project_title)),
        spacer(),
        labelled(
            "9. Project Summary (maximum 500 words): "@,
            text_or_empty(submission.project_summary),
        ),
        spacer(),
        labelled("10. Keywords: "@, comma_list(submission.project_keywords)),
        spacer(),
    ]
}

/// Point 11: the introduction.
pub open spec fn introduction(submission: SubmissionView) -> Seq<BlockView> {
    seq![
        labelled("11. Introduction (under the following heads):"@, Seq::empty()),
        labelled("   11.1 Origin of the proposal: "@, text_or_empty(submission.project_origin)),
        labelled(
            "   11.2 Definition of the problem: "@,
            text_or_empty(submission.problem_definition),
        ),
        labelled(
            "   11.3 Objective: "@,
            list_or_text(submission.project_objective, submission.project_objective_new),
        ),
        spacer(),
    ]
}

/// Point 12: the state of research.
pub open spec fn research_status(submission: SubmissionView) -> Seq<BlockView> {
    seq![
        labelled(
            "12. Review and status of Research and Development in the subject:"@,
            Seq::empty(),
        ),
        labelled(
            "   12.1 International Status: "@,
            text_or_empty(submission.international_research_status),
        ),
        labelled(
            "   12.2 National Status: "@,
            text_or_empty(submission.national_research_status),
        ),
        labelled(
            "   12.3 Importance of the proposed project in the context of current status: "@,
            text_or_empty(submission.project_importance),
        ),
        labelled(
            "   12.4 References: "@,
            list_or_text(submission.references, submission.references_new),
        ),
        spacer(),
    ]
}

/// Point 13: the work plan.
pub open spec fn work_plan(submission: SubmissionView) -> Seq<BlockView> {
    seq![
        labelled("13. Work plan:"@, Seq::empty()),
        labelled("   13.1 Methodology: "@, text_or_empty(submission.methodology)),
        labelled(
            "   13.2 Organization of work elements: "@,
            text_or_empty(submission.work_organization),
        ),
        labelled(
            "   13.3 Time schedule of activities giving milestones: "@,
            list_or_text(submission.project_timeline, submission.project_timeline_new),
        ),
        labelled(
            "   13.4 Deliverables: "@,
            list_or_text(submission.project_deliverables, submission.project_deliverables_new),
        ),
        spacer(),
    ]
}

/// Point 14: facilities, partners, experts and impact.
pub open spec fn facilities(submission: SubmissionView) -> Seq<BlockView> {
    seq![
        labelled(
            "14. Facilities available at TIET/UQ: "@,
            text_or_empty(submission.tiet_uq_facilities),
        ),
        labelled("   14.1 Industry Partner: "@, text_or_empty(submission.industry_partner)),
        labelled(
            "   14.2 Outside TIET/UQ Experts: "@,
            list_or_text(
                submission.outside_tiet_uq_experts,
                submission.outside_tiet_uq_experts_new,
            ),
        ),
        labelled("   14.3 Society Impact: "@, text_or_empty(submission.society_impact)),
        spacer(),
    ]
}

/// Point 15: the heading under which the budget table stands.
pub open spec fn budget_heading() -> Seq<BlockView> {
    seq![
        BlockView::blank(),
        heading_only(
            "15. Budget requirement with justification (Consumables, Equipment, Contingency)"@,
        ),
        spacer(),
    ]
}

/// Section B, down to the heading of the budget table.
pub open spec fn section_b(submission: SubmissionView) -> Seq<BlockView> {
    narrative_opening(submission) + introduction(submission) + research_status(submission) + work_plan(
        submission,
    ) + facilities(submission) + budget_heading()
}

/// The outline that precedes the budget table.
pub open spec fn outline(submission: SubmissionView) -> Seq<BlockView> {
    section_a(submission) + section_b(submission)
}

/// Point 16 and the place for the applicant's signature, which follow the
/// budget table.
pub open spec fn closing() -> Seq<BlockView> {
    seq![
        BlockView::blank(),
        heading_only(
            "16. Any other information which the investigator may like to give in support of his proposal"@,
        ),
        spacer(),
        BlockView::blank(),
        BlockView::blank(),
        BlockView::blank().aligned(Alignment::Left).with_text(
            SpanView::plain("Signature of the Applicant"@).sized(24).in_font("Georgia"@).colored(
                "#333333"@,
            ),
        ),
        BlockView::blank(),
        BlockView::blank(),
        BlockView::blank(),
    ]
}

fn heading_span_of(text: &str) -> (span: Span)
    ensures
        span.deep_view() == heading_span(text@),
{
    Span::new(text).bold().size(28).font("Calibri").color("#000000")
}

/// A numbered point: `heading` in bold Calibri, then `content` in Georgia.
pub fn create_paragraph_with_bold_heading(heading: &str, content: &str) -> (block: Block)
    ensures
        block.deep_view() == labelled(heading@, content@),
{
    Block::new().add_run(heading_span_of(heading)).add_run(
        Span::new(content).size(28).font("Georgia").color("#333333"),
    )
}

/// An empty paragraph with 12 points of space after it.
pub fn create_spacing_paragraph() -> (block: Block)
    ensures
        block.deep_view() == spacer(),
{
    Block::new().spacing_after(240)
}

fn section_title_of(text: &str) -> (block: Block)
    ensures
        block.deep_view() == section_title(text@),
{
    Block::new().align(Alignment::Center).add_run(
        Span::new(text).bold().size(48).font("Arial").color("#000000"),
    )
}

fn heading_only_of(text: &str) -> (block: Block)
    ensures
        block.deep_view() == heading_only(text@),
{
    Block::new().add_run(heading_span_of(text))
}

fn bullet_of(text: &str) -> (block: Block)
    ensures
        block.deep_view() == bullet(text@),
{
    Block::new().indent(720).add_run(Span::new(text).size(28).font("Calibri").color("#000000"))
}

fn push_details(blocks: &mut Vec<Block>)
    ensures
        final(blocks).deep_view() == old(blocks).deep_view() + investigator_details(),
{
    push_block(blocks, bullet_of("• Designation:"));
    push_block(blocks, bullet_of("• Department /School"));
    push_block(blocks, bullet_of("• Area of Specialization"));
    push_block(blocks, bullet_of("• Date of Joining the Institute"));
    push_block(blocks, bullet_of("• Date of Award of Ph.D Degree"));
    assert(blocks.deep_view() =~= old(blocks).deep_view() + investigator_details());
}

fn push_optional_bullet(blocks: &mut Vec<Block>, prefix: &str, value: &str)
    ensures
        final(blocks).deep_view() == old(blocks).deep_view() + optional_bullet(prefix@, value@),
{
    if !value.is_empty() {
        let line = append_str(prefix, value);
        push_block(blocks, bullet_of(line.as_str()));
    }
    assert(blocks.deep_view() =~= old(blocks).deep_view() + optional_bullet(prefix@, value@));
}

fn push_co_pi_block(blocks: &mut Vec<Block>, heading: &str)
    ensures
        final(blocks).deep_view() == old(blocks).deep_view() + co_pi_block(
            labelled(heading@, Seq::empty()),
        ),
{
    proof {
        reveal_strlit("");
    }
    assert(""@ =~= Seq::<char>::empty());
    push_block(blocks, create_spacing_paragraph());
    push_block(blocks, create_paragraph_with_bold_heading(heading, ""));
    push_details(blocks);
    assert(blocks.deep_view() =~= old(blocks).deep_view() + co_pi_block(
        labelled(heading@, Seq::empty()),
    ));
}

fn summary_points_of(submission: &Submission) -> (blocks: Vec<Block>)
    ensures
        blocks.deep_view() == summary_points(submission.deep_view()),
{
    let title = display_or_empty(&submission.project_title);
    let cost = calculate_total_budget(submission);
    let months = format_int(total_months(&submission.project_duration) as i128);
    let mut blocks: Vec<Block> = Vec::new();
    assert(blocks.deep_view() =~= Seq::empty());
    push_block(&mut blocks, section_title_of("Section A"));
    push_block(&mut blocks, create_spacing_paragraph());
    push_block(&mut blocks, create_paragraph_with_bold_heading("1. Project Title: ", title.as_str()));
    push_block(
        &mut blocks,
        create_paragraph_with_bold_heading("2. Sub Area: ", submission.track.as_str()),
    );
    push_block(&mut blocks, create_paragraph_with_bold_heading("3. Total Cost: ", cost.as_str()));
    push_block(
        &mut blocks,
        create_paragraph_with_bold_heading("4. Duration in months: ", months.as_str()),
    );
    assert(blocks.deep_view() =~= summary_points(submission.deep_view()));
    blocks
}

fn push_principal_part(blocks: &mut Vec<Block>, submission: &Submission)
    ensures
        final(blocks).deep_view() == old(blocks).deep_view() + principal_part(
            submission.deep_view(),
        ),
{
    proof {
        reveal_strlit("");
    }
    assert(""@ =~= Seq::<char>::empty());
    let code = display_or_empty(&submission.track_code);
    let level = display_or_empty(&submission.trl_level);
    push_block(
        blocks,
        create_paragraph_with_bold_heading("5. Name of the Project Investigator (UoQ/TIET):", ""),
    );
    push_details(blocks);
    push_optional_bullet(blocks, "• E-Code: ", code.as_str());
    push_block(blocks, bullet_of("• Contact:"));
    push_optional_bullet(blocks, "• Email: ", submission.user.as_str());
    push_optional_bullet(blocks, "• TRL Level: ", level.as_str());
    assert(blocks.deep_view() =~= old(blocks).deep_view() + principal_part(
        submission.deep_view(),
    ));
}

fn section_a_of(submission: &Submission) -> (blocks: Vec<Block>)
    ensures
        blocks.deep_view() == section_a(submission.deep_view()),
{
    let mut blocks = summary_points_of(submission);
    push_principal_part(&mut blocks, submission);
    push_co_pi_block(&mut blocks, "6. Name of the Co-Project Investigator-1 (UoQ/TIET):");
    let second: bool = match &submission.co_pi {
        Some(list) => list.len() > 1,
        None => false,
    };
    assert(second == has_second_co_pi(submission.deep_view().co_pi));
    let ghost upper = blocks.deep_view();
    if second {
        push_co_pi_block(&mut blocks, "7. Name of the Co-Project Investigator-2 (UoQ/TIET):");
    }
    assert(blocks.deep_view() =~= upper + second_co_pi_part(submission.deep_view().co_pi));
    push_block(&mut blocks, create_spacing_paragraph());
    push_block(&mut blocks, Block::new());
    push_block(&mut blocks, Block::new());
    assert(blocks.deep_view() =~= section_a(submission.deep_view()));
    blocks
}

fn push_narrative_opening(blocks: &mut Vec<Block>, submission: &Submission)
    ensures
        final(blocks).deep_view() == old(blocks).deep_view() + narrative_opening(
            submission.deep_view(),
        ),
{
    let title = display_or_empty(&submission.project_title);
    let summary = display_or_empty(&submission.project_summary);
    let keywords = format_keywords(submission);
    push_block(blocks, section_title_of("Section B"));
    push_block(blocks, create_spacing_paragraph());
    push_block(blocks, create_paragraph_with_bold_heading("8. Project Title: ", title.as_str()));
    push_block(blocks, create_spacing_paragraph());
    push_block(
        blocks,
        create_paragraph_with_bold_heading(
            "9. Project Summary (maximum 500 words): ",
            summary.as_str(),
        ),
    );
    push_block(blocks, create_spacing_paragraph());
    push_block(blocks, create_paragraph_with_bold_heading("10. Keywords: ", keywords.as_str()));
    push_block(blocks, create_spacing_paragraph());
    assert(blocks.deep_view() =~= old(blocks).deep_view() + narrative_opening(
        submission.deep_view(),
    ));
}

fn push_introduction(blocks: &mut Vec<Block>, submission: &Submission)
    ensures
        final(blocks).deep_view() == old(blocks).deep_view() + introduction(
            submission.deep_view(),
        ),
{
    proof {
        reveal_strlit("");
    }
    assert(""@ =~= Seq::<char>::empty());
    let origin = display_or_empty(&submission.project_origin);
    let problem = display_or_empty(&submission.problem_definition);
    let objectives = format_objectives(submission);
    push_block(
        blocks,
        create_paragraph_with_bold_heading("11. Introduction (under the following heads):", ""),
    );
    push_block(
        blocks,
        create_paragraph_with_bold_heading("   11.1 Origin of the proposal: ", origin.as_str()),
    );
    push_block(
        blocks,
        create_paragraph_with_bold_heading("   11.2 Definition of the problem: ", problem.as_str()),
    );
    push_block(
        blocks,
        create_paragraph_with_bold_heading("   11.3 Objective: ", objectives.as_str()),
    );
    push_block(blocks, create_spacing_paragraph());
    assert(blocks.deep_view() =~= old(blocks).deep_view() + introduction(submission.deep_view()));
}

fn push_research_status(blocks: &mut Vec<Block>, submission: &Submission)
    ensures
        final(blocks).deep_view() == old(blocks).deep_view() + research_status(submission.deep_view()),
{
    proof {
        reveal_strlit("");
    }
    assert(""@ =~= Seq::<char>::empty());
    let abroad = display_or_empty(&submission.international_research_status);
    let home = display_or_empty(&submission.national_research_status);
    let importance = display_or_empty(&submission.project_importance);
    let references = format_references(submission);
    push_block(
        blocks,
        create_paragraph_with_bold_heading(
            "12. Review and status of Research and Development in the subject:",
            "",
        ),
    );
    push_block(
        blocks,
        create_paragraph_with_bold_heading("   12.1 International Status: ", abroad.as_str()),
    );
    push_block(
        blocks,
        create_paragraph_with_bold_heading("   12.2 National Status: ", home.as_str()),
    );
    push_block(
        blocks,
        create_paragraph_with_bold_heading(
            "   12.3 Importance of the proposed project in the context of current status: ",
            importance.as_str(),
        ),
    );
    push_block(
        blocks,
        create_paragraph_with_bold_heading("   12.4 References: ", references.as_str()),
    );
    push_block(blocks, create_spacing_paragraph());
    assert(blocks.deep_view() =~= old(blocks).deep_view() + research_status(submission.deep_view()));
}

fn push_work_plan(blocks: &mut Vec<Block>, submission: &Submission)
    ensures
        final(blocks).deep_view() == old(blocks).deep_view() + work_plan(submission.deep_view()),
{
    proof {
        reveal_strlit("");
    }
    assert(""@ =~= Seq::<char>::empty());
    let methodology = display_or_empty(&submission.methodology);
    let organization = display_or_empty(&submission.work_organization);
    let timeline = format_timeline(submission);
    let deliverables = format_deliverables(submission);
    push_block(blocks, create_paragraph_with_bold_heading("13. Work plan:", ""));
    push_block(
        blocks,
        create_paragraph_with_bold_heading("   13.1 Methodology: ", methodology.as_str()),
    );
    push_block(
        blocks,
        create_paragraph_with_bold_heading(
            "   13.2 Organization of work elements: ",
            organization.as_str(),
        ),
    );
    push_block(
        blocks,
        create_paragraph_with_bold_heading(
            "   13.3 Time schedule of activities giving milestones: ",
            timeline.as_str(),
        ),
    );
    push_block(
        blocks,
        create_paragraph_with_bold_heading("   13.4 Deliverables: ", deliverables.as_str()),
    );
    push_block(blocks, create_spacing_paragraph());
    assert(blocks.deep_view() =~= old(blocks).deep_view() + work_plan(submission.deep_view()));
}

fn push_facilities(blocks: &mut Vec<Block>, submission: &Submission)
    ensures
        final(blocks).deep_view() == old(blocks).deep_view() + facilities(submission.deep_view()),
{
    let available = display_or_empty(&submission.tiet_uq_facilities);
    let partner = display_or_empty(&submission.industry_partner);
    let experts = format_experts(submission);
    let impact = display_or_empty(&submission.society_impact);
    push_block(
        blocks,
        create_paragraph_with_bold_heading(
            "14. Facilities available at TIET/UQ: ",
            available.as_str(),
        ),
    );
    push_block(
        blocks,
        create_paragraph_with_bold_heading("   14.1 Industry Partner: ", partner.as_str()),
    );
    push_block(
        blocks,
        create_paragraph_with_bold_heading("   14.2 Outside TIET/UQ Experts: ", experts.as_str()),
    );
    push_block(
        blocks,
        create_paragraph_with_bold_heading("   14.3 Society Impact: ", impact.as_str()),
    );
    push_block(blocks, create_spacing_paragraph());
    assert(blocks.deep_view() =~= old(blocks).deep_view() + facilities(submission.deep_view()));
}

fn push_budget_heading(blocks: &mut Vec<Block>)
    ensures
        final(blocks).deep_view() == old(blocks).deep_view() + budget_heading(),
{
    push_block(blocks, Block::new());
    push_block(
        blocks,
        heading_only_of(
            "15. Budget requirement with justification (Consumables, Equipment, Contingency)",
        ),
    );
    push_block(blocks, create_spacing_paragraph());
    assert(blocks.deep_view() =~= old(blocks).deep_view() + budget_heading());
}

/// The outline of a submission and its budget table. The outline runs from
/// the title of section A to the heading of the budget table, which
/// follows it in the document.
pub fn page2_content_with_table(submission: &Submission) -> (content: (Vec<Block>, Table))
    ensures
        content.0.deep_view() == outline(submission.deep_view()),
        content.1.deep_view() == budget_table_of(submission.deep_view().budget),
{
    let table = budget_table(submission);
    let mut blocks = section_a_of(submission);
    let ghost first = blocks.deep_view();
    push_narrative_opening(&mut blocks, submission);
    push_introduction(&mut blocks, submission);
    push_research_status(&mut blocks, submission);
    push_work_plan(&mut blocks, submission);
    push_facilities(&mut blocks, submission);
    push_budget_heading(&mut blocks);
    assert(blocks.deep_view() =~= first + section_b(submission.deep_view()));
    (blocks, table)
}

/// The paragraphs that follow the budget table.
pub fn page2_content_signatures() -> (blocks: Vec<Block>)
    ensures
        blocks.deep_view() == closing(),
{
    let mut blocks: Vec<Block> = Vec::new();
    assert(blocks.deep_view() =~= Seq::empty());
    push_block(&mut blocks, Block::new());
    push_block(
        &mut blocks,
        heading_only_of(
            "16. Any other information which the investigator may like to give in support of his proposal",
        ),
    );
    push_block(&mut blocks, create_spacing_paragraph());
    push_block(&mut blocks, Block::new());
    push_block(&mut blocks, Block::new());
    push_block(
        &mut blocks,
        Block::new().align(Alignment::Left).add_run(
            Span::new("Signature of the Applicant").size(24).font("Georgia").color("#333333"),
        ),
    );
    push_block(&mut blocks, Block::new());
    push_block(&mut blocks, Block::new());
    push_block(&mut blocks, Block::new());
    assert(blocks.deep_view() =~= closing());
    blocks
}

/// Whether a paragraph has the shape that only the heading of the second
/// co-investigator's block has in an outline: two runs, the first a text
/// that begins with the digit 7.
spec fn numbered_seven(block: BlockView) -> bool {
    &&& block.runs.len() == 2
    &&& block.runs[0] matches crate::content::InlineView::Text(span)
    &&& span.text.len() > 0
    &&& span.text[0] == '7'
}

spec fn free_of_seven(blocks: Seq<BlockView>) -> bool {
    forall|i: int| 0 <= i < blocks.len() ==> !numbered_seven(#[trigger] blocks[i])
}

proof fn lemma_free_of_seven_add(a: Seq<BlockView>, b: Seq<BlockView>)
    requires
        free_of_seven(a),
        free_of_seven(b),
    ensures
        free_of_seven(a + b),
{
    assert forall|i: int| 0 <= i < (a + b).len() implies !numbered_seven(#[trigger] (a + b)[i]) by {
        if i < a.len() {
            assert((a + b)[i] == a[i]);
        } else {
            assert((a + b)[i] == b[i - a.len()]);
        }
    }
}

proof fn lemma_summary_points_free_of_seven(submission: SubmissionView)
    ensures
        free_of_seven(summary_points(submission)),
{
    reveal_strlit("1. Project Title: ");
    reveal_strlit("2. Sub Area: ");
    reveal_strlit("3. Total Cost: ");
    reveal_strlit("4. Duration in months: ");
}

proof fn lemma_narrative_opening_free_of_seven(submission: SubmissionView)
    ensures
        free_of_seven(narrative_opening(submission)),
{
    reveal_strlit("8. Project Title: ");
    reveal_strlit("9. Project Summary (maximum 500 words): ");
    reveal_strlit("10. Keywords: ");
}

proof fn lemma_introduction_free_of_seven(submission: SubmissionView)
    ensures
        free_of_seven(introduction(submission)),
{
    reveal_strlit("11. Introduction (under the following heads):");
    reveal_strlit("   11.1 Origin of the proposal: ");
    reveal_strlit("   11.2 Definition of the problem: ");
    reveal_strlit("   11.3 Objective: ");
}

proof fn lemma_research_status_free_of_seven(submission: SubmissionView)
    ensures
        free_of_seven(research_status(submission)),
{
    reveal_strlit("12. Review and status of Research and Development in the subject:");
    reveal_strlit("   12.1 International Status: ");
    reveal_strlit("   12.2 National Status: ");
    reveal_strlit("   12.3 Importance of the proposed project in the context of current status: ");
    reveal_strlit("   12.4 References: ");
}

proof fn lemma_work_plan_free_of_seven(submission: SubmissionView)
    ensures
        free_of_seven(work_plan(submission)),
{
    reveal_strlit("13. Work plan:");
    reveal_strlit("   13.1 Methodology: ");
    reveal_strlit("   13.2 Organization of work elements: ");
    reveal_strlit("   13.3 Time schedule of activities giving milestones: ");
    reveal_strlit("   13.4 Deliverables: ");
}

proof fn lemma_facilities_free_of_seven(submission: SubmissionView)
    ensures
        free_of_seven(facilities(submission)),
{
    reveal_strlit("14. Facilities available at TIET/UQ: ");
    reveal_strlit("   14.1 Industry Partner: ");
    reveal_strlit("   14.2 Outside TIET/UQ Experts: ");
    reveal_strlit("   14.3 Society Impact: ");
}

proof fn lemma_details_free_of_seven()
    ensures
        free_of_seven(investigator_details()),
        free_of_seven(seq![spacer(), BlockView::blank(), BlockView::blank()]),
        free_of_seven(budget_heading()),
        forall|prefix: Seq<char>, value: Seq<char>|
            free_of_seven(#[trigger] optional_bullet(prefix, value)),
{
}

proof fn lemma_principal_part_free_of_seven(submission: SubmissionView)
    ensures
        free_of_seven(principal_part(submission)),
{
    reveal_strlit("5. Name of the Project Investigator (UoQ/TIET):");
    lemma_details_free_of_seven();
    let opening = seq![
        labelled("5. Name of the Project Investigator (UoQ/TIET):"@, Seq::empty()),
    ];
    let code = optional_bullet("• E-Code: "@, text_or_empty(submission.track_code));
    let mail = optional_bullet("• Email: "@, submission.user);
    let level = optional_bullet("• TRL Level: "@, text_or_empty(submission.trl_level));
    assert(free_of_seven(opening));
    lemma_free_of_seven_add(opening, investigator_details());
    lemma_free_of_seven_add(opening + investigator_details(), code);
    assert(free_of_seven(seq![bullet("• Contact:"@)]));
    lemma_free_of_seven_add(opening + investigator_details() + code, seq![bullet("• Contact:"@)]);
    lemma_free_of_seven_add(
        opening + investigator_details() + code + seq![bullet("• Contact:"@)],
        mail,
    );
    lemma_free_of_seven_add(
        opening + investigator_details() + code + seq![bullet("• Contact:"@)] + mail,
        level,
    );
}

proof fn lemma_first_co_pi_block_free_of_seven()
    ensures
        free_of_seven(co_pi_block(first_co_pi_heading())),
{
    reveal_strlit("6. Name of the Co-Project Investigator-1 (UoQ/TIET):");
    lemma_details_free_of_seven();
    assert(free_of_seven(seq![spacer(), first_co_pi_heading()]));
    lemma_free_of_seven_add(seq![spacer(), first_co_pi_heading()], investigator_details());
}

proof fn lemma_section_b_free_of_seven(submission: SubmissionView)
    ensures
        free_of_seven(section_b(submission)),
{
    lemma_narrative_opening_free_of_seven(submission);
    lemma_introduction_free_of_seven(submission);
    lemma_research_status_free_of_seven(submission);
    lemma_work_plan_free_of_seven(submission);
    lemma_facilities_free_of_seven(submission);
    lemma_details_free_of_seven();
    let a = narrative_opening(submission);
    let b = introduction(submission);
    let c = research_status(submission);
    let d = work_plan(submission);
    let e = facilities(submission);
    lemma_free_of_seven_add(a, b);
    lemma_free_of_seven_add(a + b, c);
    lemma_free_of_seven_add(a + b + c, d);
    lemma_free_of_seven_add(a + b + c + d, e);
    lemma_free_of_seven_add(a + b + c + d + e, budget_heading());
}

/// The outline holds the heading of the second co-investigator's block
/// where the submission names at least two co-investigators, and nowhere
/// else: with none or one it is absent.
pub proof fn lemma_second_co_pi_block(submission: SubmissionView)
    ensures
        outline(submission).contains(second_co_pi_heading()) <==> has_second_co_pi(
            submission.co_pi,
        ),
{
    let upper = summary_points(submission) + principal_part(submission) + co_pi_block(
        first_co_pi_heading(),
    );
    let tail = seq![spacer(), BlockView::blank(), BlockView::blank()];
    let second = second_co_pi_part(submission.co_pi);
    if has_second_co_pi(submission.co_pi) {
        assert(second[1] == second_co_pi_heading());
        assert(outline(submission)[upper.len() as int + 1] == second[1]);
    } else {
        reveal_strlit("7. Name of the Co-Project Investigator-2 (UoQ/TIET):");
        assert(numbered_seven(second_co_pi_heading()));
        lemma_summary_points_free_of_seven(submission);
        lemma_principal_part_free_of_seven(submission);
        lemma_first_co_pi_block_free_of_seven();
        lemma_details_free_of_seven();
        lemma_section_b_free_of_seven(submission);
        lemma_free_of_seven_add(summary_points(submission), principal_part(submission));
        lemma_free_of_seven_add(
            summary_points(submission) + principal_part(submission),
            co_pi_block(first_co_pi_heading()),
        );
        assert(second =~= Seq::empty());
        assert(free_of_seven(second));
        lemma_free_of_seven_add(upper, second);
        lemma_free_of_seven_add(upper + second, tail);
        lemma_free_of_seven_add(section_a(submission), section_b(submission));
        assert forall|i: int| 0 <= i < outline(submission).len() implies outline(submission)[i]
            != second_co_pi_heading() by {
            assert(!numbered_seven(outline(submission)[i]));
        }
    }
}

/// The outline and the budget table are functions of what the submission
/// holds: two submissions of equal value have the same outline and the
/// same table.
pub proof fn lemma_outline_is_determined(a: Submission, b: Submission)
    requires
        a.deep_view() == b.deep_view(),
    ensures
        outline(a.deep_view()) == outline(b.deep_view()),
        budget_table_of(a.deep_view().budget) == budget_table_of(b.deep_view().budget),
{
}

} // verus!
