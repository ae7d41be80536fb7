//! Budget aggregation and the budget table.
//!
//! An item's total is taken as stated: it is not compared with the
//! amounts per year.

use vstd::prelude::*;

use crate::content::{
    append_rows, push_cell, push_row, Block, BlockView, BorderSide, Cell, CellView, Row, RowView,
    Span, SpanView, Table, TableView,
};
use crate::models::{BudgetCategory, BudgetCategoryView, BudgetItem, BudgetItemView, Submission};
use crate::text::{decimal, format_int, format_wide, wide, LIMB};
use crate::utils::{blank_cells, create_paragraph, empty_row, table_text};

verus! {

/// The sum of the stated totals of `items`.
pub open spec fn items_total(items: Seq<BudgetItemView>) -> int
    decreases items.len(),
{
    if items.len() == 0 {
        0
    } else {
        items_total(items.drop_last()) + items.last().total
    }
}

/// The sum of the stated totals of every item of every category.
pub open spec fn categories_total(categories: Seq<BudgetCategoryView>) -> int
    decreases categories.len(),
{
    if categories.len() == 0 {
        0
    } else {
        categories_total(categories.drop_last()) + items_total(categories.last().items)
    }
}

/// The grand total of a budget: 0 where there is none.
pub open spec fn grand_total(budget: Option<Seq<BudgetCategoryView>>) -> int {
    match budget {
        Some(categories) => categories_total(categories),
        None => 0,
    }
}

/// A table cell that shows `text` as table text.
pub open spec fn text_cell(text: Seq<char>) -> CellView {
    CellView::holding(table_text(text))
}

/// A table cell that holds an empty paragraph.
pub open spec fn blank_cell() -> CellView {
    CellView::holding(BlockView::blank())
}

/// The row of column titles.
pub open spec fn header_row() -> RowView {
    RowView {
        cells: seq![
            CellView::holding(BlockView::blank().with_text(SpanView::plain(""@))).wide(500),
            text_cell("Item"@).wide(2000),
            text_cell("Year 1"@).wide(1000).without_border(BorderSide::Right),
            text_cell("Year 2"@).wide(1000),
            text_cell("Year 3"@).wide(1000).without_border(BorderSide::Left),
            text_cell("Total"@).wide(1500),
            text_cell("Justification"@).wide(2000),
        ],
    }
}

/// The row that opens a category: its label, its name, five empty cells.
pub open spec fn category_row(label: Seq<char>, name: Seq<char>) -> RowView {
    RowView {
        cells: seq![
            text_cell(label),
            text_cell(name),
            blank_cell(),
            blank_cell(),
            blank_cell(),
            blank_cell(),
            blank_cell(),
        ],
    }
}

/// The text of the year cell in place `k`: the amount, or `"0"` where
/// the list is too short.
pub open spec fn year_text(years: Seq<i32>, k: int) -> Seq<char> {
    if 0 <= k < years.len() {
        decimal(years[k] as int)
    } else {
        "0"@
    }
}

/// The three year cells of an item, whatever the length of its list.
pub open spec fn year_cells(years: Seq<i32>) -> Seq<CellView> {
    seq![
        text_cell(year_text(years, 0)),
        text_cell(year_text(years, 1)),
        text_cell(year_text(years, 2)),
    ]
}

/// The row of one item: an empty cell, the heading, three years, the
/// stated total, the justification.
pub open spec fn item_row(item: BudgetItemView) -> RowView {
    RowView {
        cells: seq![blank_cell(), text_cell(item.heading)] + year_cells(item.years) + seq![
            text_cell(decimal(item.total as int)),
            text_cell(item.justification),
        ],
    }
}

/// The rows of the items of one category, in list order.
pub open spec fn item_rows(items: Seq<BudgetItemView>) -> Seq<RowView> {
    Seq::new(items.len(), |i: int| item_row(items[i]))
}

/// The empty row that closes a category.
pub open spec fn separator_row() -> RowView {
    RowView { cells: blank_cells(7) }
}

/// The rows of the category in place `index`: its opening row numbered
/// from 1, its items, and a separator.
pub open spec fn category_rows(index: int, category: BudgetCategoryView) -> Seq<RowView> {
    seq![category_row(decimal(index + 1), category.category_type)] + item_rows(category.items)
        + seq![separator_row()]
}

/// The rows of all categories, in list order.
pub open spec fn categories_rows(categories: Seq<BudgetCategoryView>) -> Seq<RowView>
    decreases categories.len(),
{
    if categories.len() == 0 {
        Seq::empty()
    } else {
        categories_rows(categories.drop_last()) + category_rows(
            categories.len() - 1,
            categories.last(),
        )
    }
}

/// The rows shown where a submission has no budget at all.
pub open spec fn default_rows() -> Seq<RowView> {
    seq![
        category_row("A"@, "Recurring"@),
        separator_row(),
        separator_row(),
        category_row("B"@, "Non-Recurring"@),
        separator_row(),
    ]
}

/// The rows of the budget table: the titles, then the categories or,
/// where there is no budget at all, the default skeleton. A budget that is
/// there and holds no category shows the titles alone.
pub open spec fn budget_rows(budget: Option<Seq<BudgetCategoryView>>) -> Seq<RowView> {
    seq![header_row()] + match budget {
        Some(categories) => categories_rows(categories),
        None => default_rows(),
    }
}

/// The budget table, as wide as the page.
pub open spec fn budget_table_of(budget: Option<Seq<BudgetCategoryView>>) -> TableView {
    TableView { rows: budget_rows(budget), width_pct: 100 }
}

fn sum_items(items: &Vec<BudgetItem>) -> (sum: i128)
    ensures
        sum == items_total(items.deep_view()),
        -0x8000_0000 * items.len() <= sum <= 0x8000_0000 * items.len(),
{
    let ghost all = items.deep_view();
    let mut sum: i128 = 0;
    let mut i: usize = 0;
    while i < items.len()
        invariant
            i <= items.len(),
            all == items.deep_view(),
            sum == items_total(all.take(i as int)),
            -0x8000_0000 * i <= sum <= 0x8000_0000 * i,
        decreases items.len() - i,
    {
        proof {
            assert(all.take(i as int + 1).drop_last() =~= all.take(i as int));
            assert(all.take(i as int + 1).last().total == items[i as int].total);
        }
        sum = sum + items[i].total as i128;
        i = i + 1;
    }
    assert(all.take(i as int) =~= all);
    sum
}

/// The grand total of the submission's budget in two parts, the low one
/// below [`LIMB`]: a budget may hold more than a machine word can sum.
fn total_parts(submission: &Submission) -> (parts: (i128, u128))
    ensures
        parts.1 < LIMB,
        -0x1_0000_0000_0000_0000 <= parts.0 <= 0x1_0000_0000_0000_0000,
        wide(parts.0 as int, parts.1 as int) == grand_total(submission.deep_view().budget),
{
    match &submission.budget {
        Some(categories) => {
            let ghost all = categories.deep_view();
            let mut high: i128 = 0;
            let mut low: u128 = 0;
            let mut i: usize = 0;
            while i < categories.len()
                invariant
                    i <= categories.len(),
                    all == categories.deep_view(),
                    low < LIMB,
                    -i <= high <= i,
                    wide(high as int, low as int) == categories_total(all.take(i as int)),
                decreases categories.len() - i,
            {
                proof {
                    assert(all.take(i as int + 1).drop_last() =~= all.take(i as int));
                    assert(all.take(i as int + 1).last().items == categories[i as int].items.deep_view());
                }
                let part: i128 = sum_items(&categories[i].items);
                let ghost h = high as int;
                let ghost l = low as int;
                let sum: i128 = low as i128 + part;
                if sum < 0 {
                    high = high - 1;
                    low = (sum + LIMB as i128) as u128;
                } else if sum >= LIMB as i128 {
                    high = high + 1;
                    low = (sum - LIMB as i128) as u128;
                } else {
                    low = sum as u128;
                }
                assert(wide(high as int, low as int) == categories_total(all.take(i as int + 1)))
                    by (nonlinear_arith)
                    requires
                        wide(high as int, low as int) == high * LIMB + low,
                        h * LIMB + l + part == categories_total(all.take(i as int + 1)),
                        (high == h - 1 && low == l + part + LIMB) || (high == h + 1 && low == l
                            + part - LIMB) || (high == h && low == l + part),
                ;
                i = i + 1;
            }
            assert(all.take(i as int) =~= all);
            (high, low)
        },
        None => (0, 0),
    }
}

/// The grand total of the submission's budget as a decimal numeral: the
/// sum of the stated totals of all items, `"0"` where there is no budget.
pub fn calculate_total_budget(submission: &Submission) -> (s: String)
    ensures
        s@ == decimal(grand_total(submission.deep_view().budget)),
{
    let (high, low) = total_parts(submission);
    format_wide(high, low)
}

fn text_cell_of(text: &str) -> (cell: Cell)
    ensures
        cell.deep_view() == text_cell(text@),
{
    Cell::new(create_paragraph(text))
}

fn blank_cell_of() -> (cell: Cell)
    ensures
        cell.deep_view() == blank_cell(),
{
    Cell::new(Block::new())
}

fn header_row_of() -> (row: Row)
    ensures
        row.deep_view() == header_row(),
{
    let mut cells: Vec<Cell> = Vec::new();
    assert(cells.deep_view() =~= Seq::empty());
    push_cell(&mut cells, Cell::new(Block::new().add_run(Span::new(""))).width(500));
    push_cell(&mut cells, text_cell_of("Item").width(2000));
    push_cell(
        &mut cells,
        text_cell_of("Year 1").width(1000).clear_border(BorderSide::Right),
    );
    push_cell(&mut cells, text_cell_of("Year 2").width(1000));
    push_cell(&mut cells, text_cell_of("Year 3").width(1000).clear_border(BorderSide::Left));
    push_cell(&mut cells, text_cell_of("Total").width(1500));
    push_cell(&mut cells, text_cell_of("Justification").width(2000));
    assert(cells.deep_view() =~= header_row().cells);
    Row { cells }
}

fn category_row_of(label: &str, name: &str) -> (row: Row)
    ensures
        row.deep_view() == category_row(label@, name@),
{
    let mut cells: Vec<Cell> = Vec::new();
    assert(cells.deep_view() =~= Seq::empty());
    push_cell(&mut cells, text_cell_of(label));
    push_cell(&mut cells, text_cell_of(name));
    push_cell(&mut cells, blank_cell_of());
    push_cell(&mut cells, blank_cell_of());
    push_cell(&mut cells, blank_cell_of());
    push_cell(&mut cells, blank_cell_of());
    push_cell(&mut cells, blank_cell_of());
    assert(cells.deep_view() =~= category_row(label@, name@).cells);
    Row { cells }
}

fn separator_row_of() -> (row: Row)
    ensures
        row.deep_view() == separator_row(),
{
    Row { cells: empty_row(7) }
}

fn year_cell_of(years: &Vec<i32>, k: usize) -> (cell: Cell)
    ensures
        cell.deep_view() == text_cell(year_text(years@, k as int)),
{
    if k < years.len() {
        let text = format_int(years[k] as i128);
        text_cell_of(text.as_str())
    } else {
        text_cell_of("0")
    }
}

/// The table row of one budget item. A list of amounts shorter than three
/// years is shown with `"0"` in the missing places; a longer one is cut.
pub fn item_row_of(item: &BudgetItem) -> (row: Row)
    ensures
        row.deep_view() == item_row(item.deep_view()),
{
    let mut cells: Vec<Cell> = Vec::new();
    assert(cells.deep_view() =~= Seq::empty());
    push_cell(&mut cells, blank_cell_of());
    push_cell(&mut cells, text_cell_of(item.heading.as_str()));
    push_cell(&mut cells, year_cell_of(&item.years, 0));
    push_cell(&mut cells, year_cell_of(&item.years, 1));
    push_cell(&mut cells, year_cell_of(&item.years, 2));
    let total = format_int(item.total as i128);
    push_cell(&mut cells, text_cell_of(total.as_str()));
    push_cell(&mut cells, text_cell_of(item.justification.as_str()));
    assert(cells.deep_view() =~= item_row(item.deep_view()).cells);
    Row { cells }
}

fn category_rows_of(index: usize, category: &BudgetCategory) -> (rows: Vec<Row>)
    requires
        index < usize::MAX,
    ensures
        rows.deep_view() == category_rows(index as int, category.deep_view()),
{
    let ghost items = category.deep_view().items;
    let label = format_int((index + 1) as i128);
    let mut rows: Vec<Row> = Vec::new();
    assert(rows.deep_view() =~= Seq::empty());
    push_row(&mut rows, category_row_of(label.as_str(), category.category_type.as_str()));
    let ghost opening = rows.deep_view();
    let mut i: usize = 0;
    while i < category.items.len()
        invariant
            i <= category.items.len(),
            items == category.items.deep_view(),
            rows.deep_view() == opening + item_rows(items).take(i as int),
        decreases category.items.len() - i,
    {
        push_row(&mut rows, item_row_of(&category.items[i]));
        assert(rows.deep_view() =~= opening + item_rows(items).take(i as int + 1));
        i = i + 1;
    }
    assert(item_rows(items).take(i as int) =~= item_rows(items));
    push_row(&mut rows, separator_row_of());
    assert(rows.deep_view() =~= category_rows(index as int, category.deep_view()));
    rows
}

fn default_rows_of() -> (rows: Vec<Row>)
    ensures
        rows.deep_view() == default_rows(),
{
    let mut rows: Vec<Row> = Vec::new();
    assert(rows.deep_view() =~= Seq::empty());
    push_row(&mut rows, category_row_of("A", "Recurring"));
    push_row(&mut rows, separator_row_of());
    push_row(&mut rows, separator_row_of());
    push_row(&mut rows, category_row_of("B", "Non-Recurring"));
    push_row(&mut rows, separator_row_of());
    rows
}

/// The budget table of a submission: the column titles, then for each
/// category in list order its opening row, its items and a separator; or,
/// where the submission has no budget, an empty two-category skeleton.
pub fn budget_table(submission: &Submission) -> (table: Table)
    ensures
        table.deep_view() == budget_table_of(submission.deep_view().budget),
{
    let mut rows: Vec<Row> = Vec::new();
    assert(rows.deep_view() =~= Seq::empty());
    push_row(&mut rows, header_row_of());
    let ghost titles = rows.deep_view();
    match &submission.budget {
        Some(categories) => {
            let ghost all = categories.deep_view();
            let mut i: usize = 0;
            assert(rows.deep_view() =~= titles + categories_rows(all.take(0)));
            while i < categories.len()
                invariant
                    i <= categories.len(),
                    all == categories.deep_view(),
                    rows.deep_view() == titles + categories_rows(all.take(i as int)),
                decreases categories.len() - i,
            {
                proof {
                    assert(all.take(i as int + 1).drop_last() =~= all.take(i as int));
                    assert(all.take(i as int + 1).last() == categories[i as int].deep_view());
                }
                append_rows(&mut rows, category_rows_of(i, &categories[i]));
                assert(rows.deep_view() =~= titles + categories_rows(all.take(i as int + 1)));
                i = i + 1;
            }
            assert(all.take(i as int) =~= all);
        },
        None => {
            append_rows(&mut rows, default_rows_of());
        },
    }
    Table { rows, width_pct: 100 }
}

/// An item is shown with three year cells whatever the length of its
/// list: the amounts that are there, in order, and `"0"` in every place
/// that the list does not reach.
pub proof fn lemma_year_cells(years: Seq<i32>)
    ensures
        year_cells(years).len() == 3,
        forall|k: int|
            0 <= k < 3 ==> #[trigger] year_cells(years)[k] == text_cell(
                if k < years.len() {
                    decimal(years[k] as int)
                } else {
                    "0"@
                },
            ),
{
}

/// The grand total of a budget is the sum of the stated totals of its
/// items and of nothing else: two budgets whose categories hold items with
/// the same stated totals, place by place, have the same grand total,
/// whatever their amounts per year.
pub proof fn lemma_total_ignores_years(a: Seq<BudgetCategoryView>, b: Seq<BudgetCategoryView>)
    requires
        a.len() == b.len(),
        forall|c: int| 0 <= c < a.len() ==> (#[trigger] a[c]).items.len() == b[c].items.len(),
        forall|c: int, i: int|
            0 <= c < a.len() && 0 <= i < a[c].items.len() ==> (#[trigger] a[c].items[i]).total
                == b[c].items[i].total,
    ensures
        categories_total(a) == categories_total(b),
    decreases a.len(),
{
    if a.len() > 0 {
        lemma_total_ignores_years(a.drop_last(), b.drop_last());
        lemma_items_total_by_totals(a.last().items, b.last().items);
    }
}

proof fn lemma_items_total_by_totals(x: Seq<BudgetItemView>, y: Seq<BudgetItemView>)
    requires
        x.len() == y.len(),
        forall|i: int| 0 <= i < x.len() ==> (#[trigger] x[i]).total == y[i].total,
    ensures
        items_total(x) == items_total(y),
    decreases x.len(),
{
    if x.len() > 0 {
        lemma_items_total_by_totals(x.drop_last(), y.drop_last());
    }
}

proof fn lemma_items_total_without(items: Seq<BudgetItemView>, at: int)
    requires
        0 <= at < items.len(),
    ensures
        items_total(items) == items_total(items.remove(at)) + items[at].total,
    decreases items.len(),
{
    if at == items.len() - 1 {
        assert(items.remove(at) =~= items.drop_last());
    } else {
        assert(items.remove(at).drop_last() =~= items.drop_last().remove(at));
        assert(items.remove(at).last() == items.last());
        lemma_items_total_without(items.drop_last(), at);
    }
}

/// The sum of the stated totals of a list of items does not depend on the
/// order of the items.
pub proof fn lemma_items_total_of_reordered(x: Seq<BudgetItemView>, y: Seq<BudgetItemView>)
    requires
        x.to_multiset() == y.to_multiset(),
    ensures
        items_total(x) == items_total(y),
    decreases x.len(),
{
    x.to_multiset_ensures();
    y.to_multiset_ensures();
    if x.len() > 0 {
        let last = x.last();
        assert(x.contains(last));
        assert(x.to_multiset().count(last) > 0);
        assert(y.to_multiset().count(last) > 0);
        assert(y.contains(last));
        let at = choose|at: int| 0 <= at < y.len() && y[at] == last;
        assert(x.drop_last() =~= x.remove(x.len() - 1));
        assert(x.remove(x.len() - 1).to_multiset() =~= x.to_multiset().remove(last));
        assert(y.remove(at).to_multiset() =~= y.to_multiset().remove(last));
        lemma_items_total_of_reordered(x.drop_last(), y.remove(at));
        lemma_items_total_without(y, at);
    }
}

proof fn lemma_categories_total_without(categories: Seq<BudgetCategoryView>, at: int)
    requires
        0 <= at < categories.len(),
    ensures
        categories_total(categories) == categories_total(categories.remove(at)) + items_total(
            categories[at].items,
        ),
    decreases categories.len(),
{
    if at == categories.len() - 1 {
        assert(categories.remove(at) =~= categories.drop_last());
    } else {
        assert(categories.remove(at).drop_last() =~= categories.drop_last().remove(at));
        assert(categories.remove(at).last() == categories.last());
        lemma_categories_total_without(categories.drop_last(), at);
    }
}

/// The grand total of a budget does not depend on the order of its
/// categories.
pub proof fn lemma_total_of_reordered_categories(
    a: Seq<BudgetCategoryView>,
    b: Seq<BudgetCategoryView>,
)
    requires
        a.to_multiset() == b.to_multiset(),
    ensures
        categories_total(a) == categories_total(b),
    decreases a.len(),
{
    a.to_multiset_ensures();
    b.to_multiset_ensures();
    if a.len() > 0 {
        let last = a.last();
        assert(a.contains(last));
        assert(a.to_multiset().count(last) > 0);
        assert(b.to_multiset().count(last) > 0);
        assert(b.contains(last));
        let at = choose|at: int| 0 <= at < b.len() && b[at] == last;
        assert(a.drop_last() =~= a.remove(a.len() - 1));
        assert(a.remove(a.len() - 1).to_multiset() =~= a.to_multiset().remove(last));
        assert(b.remove(at).to_multiset() =~= b.to_multiset().remove(last));
        lemma_total_of_reordered_categories(a.drop_last(), b.remove(at));
        lemma_categories_total_without(b, at);
    }
}

/// The grand total of a budget does not depend on the order of the items
/// within its categories.
pub proof fn lemma_total_of_reordered_items(a: Seq<BudgetCategoryView>, b: Seq<BudgetCategoryView>)
    requires
        a.len() == b.len(),
        forall|c: int|
            0 <= c < a.len() ==> (#[trigger] a[c]).items.to_multiset() == b[c].items.to_multiset(),
    ensures
        categories_total(a) == categories_total(b),
    decreases a.len(),
{
    if a.len() > 0 {
        lemma_total_of_reordered_items(a.drop_last(), b.drop_last());
        assert(a[a.len() - 1].items.to_multiset() == b[a.len() - 1].items.to_multiset());
        lemma_items_total_of_reordered(a.last().items, b.last().items);
    }
}

} // verus!
