//! Content blocks: the paragraphs, runs and table cells that an assembled
//! document is made of, with the mathematical value of each.

use vstd::prelude::*;
use vstd::string::*;

verus! {

/// Horizontal placement of a paragraph.
#[derive(Clone, Copy, Debug, PartialEq, Eq, Structural)]
pub enum Alignment {
    Left,
    Center,
}

/// The side of a table cell whose border is removed.
#[derive(Clone, Copy, Debug, PartialEq, Eq, Structural)]
pub enum BorderSide {
    Left,
    Right,
}

/// A stretch of text with its emphasis, size (in half-points), font and
/// colour.
#[derive(Clone, Debug, PartialEq, Eq)]
pub struct Span {
    pub text: String,
    pub bold: bool,
    pub size: Option<usize>,
    pub font: Option<String>,
    pub color: Option<String>,
}

/// The mathematical value of a [`Span`].
pub struct SpanView {
    pub text: Seq<char>,
    pub bold: bool,
    pub size: Option<usize>,
    pub font: Option<Seq<char>>,
    pub color: Option<Seq<char>>,
}

impl DeepView for Span {
    type V = SpanView;

    open spec fn deep_view(&self) -> SpanView {
        SpanView {
            text: self.text@,
            bold: self.bold,
            size: self.size,
            font: self.font.deep_view(),
            color: self.color.deep_view(),
        }
    }
}

/// What a paragraph holds in one place: styled text or a picture.
#[derive(Clone, Debug, PartialEq, Eq)]
pub enum Inline {
    Text(Span),
    Image(Vec<u8>),
}

/// The mathematical value of an [`Inline`].
pub enum InlineView {
    Text(SpanView),
    Image(Seq<u8>),
}

impl DeepView for Inline {
    type V = InlineView;

    open spec fn deep_view(&self) -> InlineView {
        match self {
            Inline::Text(span) => InlineView::Text(span.deep_view()),
            Inline::Image(bytes) => InlineView::Image(bytes@),
        }
    }
}

/// A paragraph: its layout and what it holds, in order.
#[derive(Clone, Debug, PartialEq, Eq)]
pub struct Block {
    pub align: Option<Alignment>,
    /// Left indentation in twentieths of a point.
    pub indent_left: Option<i32>,
    /// Space after the paragraph in twentieths of a point.
    pub spacing_after: Option<u32>,
    pub page_break_before: bool,
    pub runs: Vec<Inline>,
}

/// The mathematical value of a [`Block`].
pub struct BlockView {
    pub align: Option<Alignment>,
    pub indent_left: Option<i32>,
    pub spacing_after: Option<u32>,
    pub page_break_before: bool,
    pub runs: Seq<InlineView>,
}

impl DeepView for Block {
    type V = BlockView;

    open spec fn deep_view(&self) -> BlockView {
        BlockView {
            align: self.align,
            indent_left: self.indent_left,
            spacing_after: self.spacing_after,
            page_break_before: self.page_break_before,
            runs: self.runs.deep_view(),
        }
    }
}

/// One cell of a table: an optional width in twentieths of a point, an
/// optional removed border and one paragraph.
#[derive(Clone, Debug, PartialEq, Eq)]
pub struct Cell {
    pub width: Option<usize>,
    pub cleared_border: Option<BorderSide>,
    pub block: Block,
}

/// The mathematical value of a [`Cell`].
pub struct CellView {
    pub width: Option<usize>,
    pub cleared_border: Option<BorderSide>,
    pub block: BlockView,
}

impl DeepView for Cell {
    type V = CellView;

    open spec fn deep_view(&self) -> CellView {
        CellView {
            width: self.width,
            cleared_border: self.cleared_border,
            block: self.block.deep_view(),
        }
    }
}

/// One row of a table.
#[derive(Clone, Debug, PartialEq, Eq)]
pub struct Row {
    pub cells: Vec<Cell>,
}

/// The mathematical value of a [`Row`].
pub struct RowView {
    pub cells: Seq<CellView>,
}

impl DeepView for Row {
    type V = RowView;

    open spec fn deep_view(&self) -> RowView {
        RowView { cells: self.cells.deep_view() }
    }
}

/// A table: its rows and its width as a percentage of the page.
#[derive(Clone, Debug, PartialEq, Eq)]
pub struct Table {
    pub rows: Vec<Row>,
    pub width_pct: usize,
}

/// The mathematical value of a [`Table`].
pub struct TableView {
    pub rows: Seq<RowView>,
    pub width_pct: usize,
}

impl DeepView for Table {
    type V = TableView;

    open spec fn deep_view(&self) -> TableView {
        TableView { rows: self.rows.deep_view(), width_pct: self.width_pct }
    }
}

impl SpanView {
    /// Unstyled text.
    pub open spec fn plain(text: Seq<char>) -> SpanView {
        SpanView { text, bold: false, size: None, font: None, color: None }
    }

    pub open spec fn bolded(self) -> SpanView {
        SpanView { bold: true, ..self }
    }

    pub open spec fn sized(self, size: usize) -> SpanView {
        SpanView { size: Some(size), ..self }
    }

    pub open spec fn in_font(self, font: Seq<char>) -> SpanView {
        SpanView { font: Some(font), ..self }
    }

    pub open spec fn colored(self, color: Seq<char>) -> SpanView {
        SpanView { color: Some(color), ..self }
    }
}

impl BlockView {
    /// The empty paragraph.
    pub open spec fn blank() -> BlockView {
        BlockView {
            align: None,
            indent_left: None,
            spacing_after: None,
            page_break_before: false,
            runs: Seq::empty(),
        }
    }

    pub open spec fn aligned(self, alignment: Alignment) -> BlockView {
        BlockView { align: Some(alignment), ..self }
    }

    pub open spec fn indented(self, left: i32) -> BlockView {
        BlockView { indent_left: Some(left), ..self }
    }

    pub open spec fn spaced_after(self, after: u32) -> BlockView {
        BlockView { spacing_after: Some(after), ..self }
    }

    pub open spec fn breaking_page(self, on: bool) -> BlockView {
        BlockView { page_break_before: on, ..self }
    }

    pub open spec fn with_text(self, span: SpanView) -> BlockView {
        BlockView { runs: self.runs.push(InlineView::Text(span)), ..self }
    }

    pub open spec fn with_image(self, bytes: Seq<u8>) -> BlockView {
        BlockView { runs: self.runs.push(InlineView::Image(bytes)), ..self }
    }
}

impl CellView {
    /// A cell of no stated width that holds `block`.
    pub open spec fn holding(block: BlockView) -> CellView {
        CellView { width: None, cleared_border: None, block }
    }

    pub open spec fn wide(self, width: usize) -> CellView {
        CellView { width: Some(width), ..self }
    }

    pub open spec fn without_border(self, side: BorderSide) -> CellView {
        CellView { cleared_border: Some(side), ..self }
    }
}

impl Span {
    /// Unstyled text.
    pub fn new(text: &str) -> (span: Span)
        ensures
            span.deep_view() == SpanView::plain(text@),
    {
        Span { text: String::from_str(text), bold: false, size: None, font: None, color: None }
    }

    pub fn bold(self) -> (span: Span)
        ensures
            span.deep_view() == self.deep_view().bolded(),
    {
        Span { bold: true, ..self }
    }

    pub fn size(self, size: usize) -> (span: Span)
        ensures
            span.deep_view() == self.deep_view().sized(size),
    {
        Span { size: Some(size), ..self }
    }

    pub fn font(self, font: &str) -> (span: Span)
        ensures
            span.deep_view() == self.deep_view().in_font(font@),
    {
        Span { font: Some(String::from_str(font)), ..self }
    }

    pub fn color(self, color: &str) -> (span: Span)
        ensures
            span.deep_view() == self.deep_view().colored(color@),
    {
        Span { color: Some(String::from_str(color)), ..self }
    }
}

impl Block {
    /// The empty paragraph.
    pub fn new() -> (block: Block)
        ensures
            block.deep_view() == BlockView::blank(),
    {
        let block = Block {
            align: None,
            indent_left: None,
            spacing_after: None,
            page_break_before: false,
            runs: Vec::new(),
        };
        assert(block.runs.deep_view() =~= Seq::empty());
        block
    }

    pub fn align(self, alignment: Alignment) -> (block: Block)
        ensures
            block.deep_view() == self.deep_view().aligned(alignment),
    {
        Block { align: Some(alignment), ..self }
    }

    pub fn indent(self, left: i32) -> (block: Block)
        ensures
            block.deep_view() == self.deep_view().indented(left),
    {
        Block { indent_left: Some(left), ..self }
    }

    pub fn spacing_after(self, after: u32) -> (block: Block)
        ensures
            block.deep_view() == self.deep_view().spaced_after(after),
    {
        Block { spacing_after: Some(after), ..self }
    }

    pub fn page_break_before(self, on: bool) -> (block: Block)
        ensures
            block.deep_view() == self.deep_view().breaking_page(on),
    {
        Block { page_break_before: on, ..self }
    }

    pub fn add_run(self, span: Span) -> (block: Block)
        ensures
            block.deep_view() == self.deep_view().with_text(span.deep_view()),
    {
        let ghost before = self.runs.deep_view();
        let ghost added = span.deep_view();
        let mut block = self;
        block.runs.push(Inline::Text(span));
        assert(block.runs.deep_view() =~= before.push(InlineView::Text(added)));
        block
    }

    pub fn add_image(self, bytes: Vec<u8>) -> (block: Block)
        ensures
            block.deep_view() == self.deep_view().with_image(bytes@),
    {
        let ghost before = self.runs.deep_view();
        let ghost added = bytes@;
        let mut block = self;
        block.runs.push(Inline::Image(bytes));
        assert(block.runs.deep_view() =~= before.push(InlineView::Image(added)));
        block
    }
}

impl Cell {
    /// A cell of no stated width that holds `block`.
    pub fn new(block: Block) -> (cell: Cell)
        ensures
            cell.deep_view() == CellView::holding(block.deep_view()),
    {
        Cell { width: None, cleared_border: None, block }
    }

    pub fn width(self, width: usize) -> (cell: Cell)
        ensures
            cell.deep_view() == self.deep_view().wide(width),
    {
        Cell { width: Some(width), ..self }
    }

    pub fn clear_border(self, side: BorderSide) -> (cell: Cell)
        ensures
            cell.deep_view() == self.deep_view().without_border(side),
    {
        Cell { cleared_border: Some(side), ..self }
    }
}

/// Appends `block` to `blocks`.
pub fn push_block(blocks: &mut Vec<Block>, block: Block)
    ensures
        final(blocks).deep_view() == old(blocks).deep_view().push(block.deep_view()),
{
    blocks.push(block);
    assert(blocks.deep_view() =~= old(blocks).deep_view().push(block.deep_view()));
}

/// Appends `cell` to `cells`.
pub fn push_cell(cells: &mut Vec<Cell>, cell: Cell)
    ensures
        final(cells).deep_view() == old(cells).deep_view().push(cell.deep_view()),
{
    cells.push(cell);
    assert(cells.deep_view() =~= old(cells).deep_view().push(cell.deep_view()));
}

/// Appends `row` to `rows`.
pub fn push_row(rows: &mut Vec<Row>, row: Row)
    ensures
        final(rows).deep_view() == old(rows).deep_view().push(row.deep_view()),
{
    rows.push(row);
    assert(rows.deep_view() =~= old(rows).deep_view().push(row.deep_view()));
}

/// Moves the blocks of `more` to the end of `blocks`.
pub fn append_blocks(blocks: &mut Vec<Block>, more: Vec<Block>)
    ensures
        final(blocks).deep_view() == old(blocks).deep_view() + more.deep_view(),
{
    let mut rest = more;
    blocks.append(&mut rest);
    assert(blocks.deep_view() =~= old(blocks).deep_view() + more.deep_view());
}

/// Moves the rows of `more` to the end of `rows`.
pub fn append_rows(rows: &mut Vec<Row>, more: Vec<Row>)
    ensures
        final(rows).deep_view() == old(rows).deep_view() + more.deep_view(),
{
    let mut rest = more;
    rows.append(&mut rest);
    assert(rows.deep_view() =~= old(rows).deep_view() + more.deep_view());
}

} // verus!
