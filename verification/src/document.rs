//! The whole document: cover, page break, outline, budget table and
//! closing, as one ordered list of content blocks.

use vstd::prelude::*;

use crate::budget::budget_table_of;
use crate::content::{Block, BlockView, Table, TableView};
use crate::models::{Submission, SubmissionView};
use crate::page1::{cover, month_year_of, page1_content, page1_content_on};
use crate::page2::{closing, outline, page2_content_signatures, page2_content_with_table};

verus! {

/// A unit of document content: a paragraph or a table.
#[derive(Clone, Debug, PartialEq, Eq)]
pub enum ContentBlock {
    Paragraph(Block),
    Table(Table),
}

/// The mathematical value of a [`ContentBlock`].
pub enum ContentView {
    Paragraph(BlockView),
    Table(TableView),
}

impl DeepView for ContentBlock {
    type V = ContentView;

    open spec fn deep_view(&self) -> ContentView {
        match self {
            ContentBlock::Paragraph(block) => ContentView::Paragraph(block.deep_view()),
            ContentBlock::Table(table) => ContentView::Table(table.deep_view()),
        }
    }
}

/// The given paragraphs as content blocks.
pub open spec fn paragraphs(blocks: Seq<BlockView>) -> Seq<ContentView> {
    Seq::new(blocks.len(), |i: int| ContentView::Paragraph(blocks[i]))
}

/// The empty paragraph that begins a new page.
pub open spec fn page_break() -> BlockView {
    BlockView::blank().breaking_page(true)
}

/// The document of a submission: the cover, a page break, the outline,
/// the budget table right below its heading, and the closing.
pub open spec fn document(submission: SubmissionView, logo: Option<Seq<u8>>, date: Seq<char>) -> Seq<
    ContentView,
> {
    paragraphs(cover(submission, logo, date)) + seq![ContentView::Paragraph(page_break())]
        + paragraphs(outline(submission)) + seq![
        ContentView::Table(budget_table_of(submission.budget)),
    ] + paragraphs(closing())
}

fn append_paragraphs(content: &mut Vec<ContentBlock>, blocks: Vec<Block>)
    ensures
        final(content).deep_view() == old(content).deep_view() + paragraphs(blocks.deep_view()),
{
    let ghost before = content.deep_view();
    let ghost all = blocks.deep_view();
    assert(content.deep_view() =~= before + paragraphs(all).take(0));
    for block in it: blocks
        invariant
            it.seq() == blocks@,
            all == blocks.deep_view(),
            content.deep_view() == before + paragraphs(all).take(it.index() as int),
    {
        let ghost so_far = content.deep_view();
        let ghost added = block.deep_view();
        content.push(ContentBlock::Paragraph(block));
        assert(content.deep_view() =~= so_far.push(ContentView::Paragraph(added)));
        assert(content.deep_view() =~= before + paragraphs(all).take(it.index() as int + 1));
    }
    assert(paragraphs(all).take(blocks@.len() as int) =~= paragraphs(all));
}

fn append_rest(content: &mut Vec<ContentBlock>, submission: &Submission)
    ensures
        final(content).deep_view() == old(content).deep_view() + seq![
            ContentView::Paragraph(page_break()),
        ] + paragraphs(outline(submission.deep_view())) + seq![
            ContentView::Table(budget_table_of(submission.deep_view().budget)),
        ] + paragraphs(closing()),
{
    let ghost first = content.deep_view();
    content.push(ContentBlock::Paragraph(Block::new().page_break_before(true)));
    assert(content.deep_view() =~= first + seq![ContentView::Paragraph(page_break())]);
    let (blocks, table) = page2_content_with_table(submission);
    append_paragraphs(content, blocks);
    let ghost upper = content.deep_view();
    let ghost table_view = table.deep_view();
    content.push(ContentBlock::Table(table));
    assert(content.deep_view() =~= upper + seq![ContentView::Table(table_view)]);
    append_paragraphs(content, page2_content_signatures());
}

/// Assembles the document of a submission. `logo` holds the bytes of the
/// institution's logo where they could be had; `formatted_date` is the
/// month and year shown on the cover.
pub fn assemble(submission: &Submission, logo: Option<Vec<u8>>, formatted_date: &str) -> (content:
    Vec<ContentBlock>)
    ensures
        content.deep_view() == document(
            submission.deep_view(),
            logo.deep_view(),
            formatted_date@,
        ),
{
    let ghost logo_bytes = logo.deep_view();
    let mut content: Vec<ContentBlock> = Vec::new();
    assert(content.deep_view() =~= Seq::empty());
    append_paragraphs(&mut content, page1_content(submission, logo, formatted_date));
    append_rest(&mut content, submission);
    assert(content.deep_view() =~= document(submission.deep_view(), logo_bytes, formatted_date@));
    content
}

/// Assembles the document of a submission, dated with the month `month`
/// of the year `year`. There is no document where there is no such month.
pub fn assemble_on(submission: &Submission, logo: Option<Vec<u8>>, year: i32, month: u32) -> (content:
    Option<Vec<ContentBlock>>)
    ensures
        content.deep_view() == match month_year_of(year, month) {
            Some(date) => Some(document(submission.deep_view(), logo.deep_view(), date)),
            None => None,
        },
{
    let ghost logo_bytes = logo.deep_view();
    let mut content: Vec<ContentBlock> = Vec::new();
    assert(content.deep_view() =~= Seq::empty());
    match page1_content_on(submission, logo, year, month) {
        Some(blocks) => {
            append_paragraphs(&mut content, blocks);
        },
        None => {
            return None;
        },
    }
    let ghost date = month_year_of(year, month).unwrap();
    append_rest(&mut content, submission);
    assert(content.deep_view() =~= document(submission.deep_view(), logo_bytes, date));
    Some(content)
}

/// The document holds one table, the budget table, and it stands right
/// below the outline, whose last blocks are the budget's heading, and
/// right above the closing.
pub proof fn lemma_table_position(
    submission: SubmissionView,
    logo: Option<Seq<u8>>,
    date: Seq<char>,
)
    ensures
        ({
            let at = cover(submission, logo, date).len() + 1 + outline(submission).len();
            let whole = document(submission, logo, date);
            &&& whole.len() == at + 1 + closing().len()
            &&& whole[at as int] == ContentView::Table(budget_table_of(submission.budget))
            &&& forall|k: int| 0 <= k < whole.len() && k != at ==> (#[trigger] whole[k]) is Paragraph
            &&& forall|k: int|
                0 <= k < outline(submission).len() ==> whole[at - outline(submission).len() + k]
                    == ContentView::Paragraph(#[trigger] outline(submission)[k])
            &&& forall|k: int|
                0 <= k < closing().len() ==> whole[at + 1 + k] == ContentView::Paragraph(
                    #[trigger] closing()[k],
                )
        }),
{
}

/// The document is a function of what the submission, the logo and the
/// date hold: two submissions of equal value have the same document.
pub proof fn lemma_document_is_determined(
    a: Submission,
    b: Submission,
    logo: Option<Seq<u8>>,
    date: Seq<char>,
)
    requires
        a.deep_view() == b.deep_view(),
    ensures
        document(a.deep_view(), logo, date) == document(b.deep_view(), logo, date),
{
}

} // verus!
