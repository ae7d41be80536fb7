//! Building blocks of the budget table.

use vstd::prelude::*;

use crate::content::{push_cell, Block, BlockView, Cell, CellView, Span, SpanView};

verus! {

/// A paragraph of table text: one run in 14-point Calibri, dark grey.
pub open spec fn table_text(text: Seq<char>) -> BlockView {
    BlockView::blank().with_text(
        SpanView::plain(text).sized(28).in_font("Calibri"@).colored("#333333"@),
    )
}

/// `cols` cells, each holding an empty paragraph.
pub open spec fn blank_cells(cols: nat) -> Seq<CellView> {
    Seq::new(cols, |i: int| CellView::holding(BlockView::blank()))
}

/// A paragraph that shows `text` as table text.
pub fn create_paragraph(text: &str) -> (block: Block)
    ensures
        block.deep_view() == table_text(text@),
{
    Block::new().add_run(Span::new(text).size(28).font("Calibri").color("#333333"))
}

/// The cells of an empty table row of `cols` columns.
pub fn empty_row(cols: usize) -> (cells: Vec<Cell>)
    ensures
        cells.deep_view() == blank_cells(cols as nat),
{
    let mut cells: Vec<Cell> = Vec::new();
    let mut i: usize = 0;
    assert(cells.deep_view() =~= blank_cells(0));
    while i < cols
        invariant
            i <= cols,
            cells.deep_view() == blank_cells(i as nat),
        decreases cols - i,
    {
        push_cell(&mut cells, Cell::new(Block::new()));
        assert(cells.deep_view() =~= blank_cells((i + 1) as nat));
        i = i + 1;
    }
    cells
}

} // verus!
