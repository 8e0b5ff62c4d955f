//! The table that reports on three trees: its layout, with each tree's
//! counts and times, and its rendering as text.

use vstd::prelude::*;
use vstd::string::StringExecFns;
use crate::decimal::decimal;
use crate::decimal::decimal_text;
use crate::stats::BinaryTreeStats;
use crate::timing::TimeCounts;
use term_table::row::Row;
use term_table::table_cell::TableCell;
use term_table::Table;
use term_table::TableStyle;

verus! {

/// The limit on a column's width that the renderer is given for the report.
pub const MAX_COLUMN_WIDTH: usize = 150;

/// Where a cell's text stands within the cell's width.
#[derive(Clone, Copy, Debug, PartialEq, Eq, Structural)]
pub enum Alignment {
    Left,
    Right,
    Center,
}

/// One cell of a table.
#[derive(Debug)]
pub struct Cell {
    /// What the cell shows.
    pub text: String,
    /// How many columns the cell covers.
    pub col_span: usize,
    /// Where the text stands.
    pub alignment: Alignment,
}

/// A cell as specifications see it.
pub struct CellView {
    pub text: Seq<char>,
    pub col_span: usize,
    pub alignment: Alignment,
}

impl DeepView for Cell {
    type V = CellView;

    open spec fn deep_view(&self) -> CellView {
        CellView { text: self.text@, col_span: self.col_span, alignment: self.alignment }
    }
}

/// What the report shows of one tree: its measures and its times.
pub struct BinaryTreeData {
    pub stats: BinaryTreeStats,
    pub times: TimeCounts,
}

/// One tree's data, marked with the number of keys the tree was built for.
pub enum TableEntry {
    From100ElementsTree(BinaryTreeData),
    From1kElementsTree(BinaryTreeData),
    From10kElementsTree(BinaryTreeData),
}

impl TableEntry {
    /// The data that the entry carries.
    pub open spec fn data(self) -> BinaryTreeData {
        match self {
            TableEntry::From100ElementsTree(d) => d,
            TableEntry::From1kElementsTree(d) => d,
            TableEntry::From10kElementsTree(d) => d,
        }
    }

    /// The data that the entry carries.
    pub fn get(&self) -> (d: &BinaryTreeData)
        ensures
            *d == self.data(),
    {
        match self {
            TableEntry::From100ElementsTree(d) => d,
            TableEntry::From1kElementsTree(d) => d,
            TableEntry::From10kElementsTree(d) => d,
        }
    }
}

/// The heading: one centred cell over all four columns.
pub open spec fn heading_row(title: Seq<char>) -> Seq<CellView> {
    seq![CellView { text: title, col_span: 4, alignment: Alignment::Center }]
}

/// A row of three left-aligned cells, one for each tree; the last one covers
/// two columns.
pub open spec fn triple_row(first: Seq<char>, second: Seq<char>, third: Seq<char>) -> Seq<
    CellView,
> {
    seq![
        CellView { text: first, col_span: 1, alignment: Alignment::Left },
        CellView { text: second, col_span: 1, alignment: Alignment::Left },
        CellView { text: third, col_span: 2, alignment: Alignment::Left },
    ]
}

/// A label, a number in decimal digits, and what follows it.
pub open spec fn labelled(label: Seq<char>, value: nat, tail: Seq<char>) -> Seq<char> {
    label + decimal(value) + tail
}

/// The cell for the time of one insertion, in nanoseconds.
pub open spec fn insert_text(d: BinaryTreeData) -> Seq<char> {
    labelled("Insert Time: "@, d.times.insert as nat, " ns"@)
}

/// The cell for the time of counting, and under it the count.
pub open spec fn size_text(d: BinaryTreeData) -> Seq<char> {
    labelled("Size Time: "@, d.times.size as nat, " ns"@) + labelled(
        "\nSize of Tree: "@,
        d.stats.size as nat,
        ""@,
    )
}

/// The cell for the time of measuring the depth, and under it the depth.
pub open spec fn depth_text(d: BinaryTreeData) -> Seq<char> {
    labelled("Depth Time: "@, d.times.depth as nat, " ns"@) + labelled(
        "\nDepth of Tree: "@,
        d.stats.depth as nat,
        ""@,
    )
}

/// The cell for the time of one search, in nanoseconds.
pub open spec fn search_text(d: BinaryTreeData) -> Seq<char> {
    labelled("Search Time: "@, d.times.search as nat, " ns"@)
}

/// The report's rows under a given title: the heading, the three tree
/// sizes, and one row for each operation, with each tree's values in the
/// tree's column.
pub open spec fn table_model(
    title: Seq<char>,
    first: BinaryTreeData,
    second: BinaryTreeData,
    third: BinaryTreeData,
) -> Seq<Seq<CellView>> {
    seq![
        heading_row(title),
        triple_row("100 Elements"@, "1k Elements"@, "10k Elements"@),
        triple_row(insert_text(first), insert_text(second), insert_text(third)),
        triple_row(size_text(first), size_text(second), size_text(third)),
        triple_row(depth_text(first), depth_text(second), depth_text(third)),
        triple_row(search_text(first), search_text(second), search_text(third)),
    ]
}

/// The most columns that a row handed to the renderer may cover.
pub const MAX_COLUMNS: usize = 65535;

/// What the renderer asks of its rows: every cell covers at least one
/// column, and no span is so large that as many of them as the row has cells
/// would exceed `MAX_COLUMNS`, so that the spans of a row add up within it.
pub open spec fn renderable(rows: Seq<Seq<CellView>>) -> bool {
    forall|i: int, j: int|
        0 <= i < rows.len() && 0 <= j < rows[i].len() ==> {
            &&& 1 <= (#[trigger] rows[i][j]).col_span
            &&& rows[i][j].col_span * rows[i].len() <= MAX_COLUMNS
        }
}

/// The text that term_table renders, in its extended style, for a table of
/// the given rows and the given limit on a column's width.
pub uninterp spec fn rendered(rows: Seq<Seq<CellView>>, max_column_width: usize) -> Seq<char>;

/// `Table::render` of term_table, on a table made with `Table::new`, with
/// `TableStyle::extended`, the given `max_column_width`, and one `Row::new`
/// for each element of `rows`, each cell made by `TableCell::builder` with
/// the cell's span and alignment. The rendering reads nothing but the
/// table, so the text is a function of the rows and the width. With a cell
/// that covers no column term_table can index past its column widths; it
/// adds up the spans of a row and keeps one slot for each column: rows whose
/// spans could pass `MAX_COLUMNS` are left out.
#[verifier::external_body]
fn render_rows(rows: &Vec<Vec<Cell>>, max_column_width: usize) -> (text: String)
    requires
        renderable(rows.deep_view()),
    ensures
        text@ == rendered(rows.deep_view(), max_column_width),
{
    let mut table = Table::new();
    table.max_column_width = max_column_width;
    table.style = TableStyle::extended();
    for row in rows {
        table.add_row(Row::new(row.iter().map(|c| {
            let alignment = match c.alignment {
                Alignment::Left => term_table::table_cell::Alignment::Left,
                Alignment::Right => term_table::table_cell::Alignment::Right,
                Alignment::Center => term_table::table_cell::Alignment::Center,
            };
            TableCell::builder(&c.text).col_span(c.col_span).alignment(alignment).build()
        })));
    }
    table.render()
}

/// Makes one cell.
fn cell(text: &str, col_span: usize, alignment: Alignment) -> (c: Cell)
    ensures
        c.deep_view() == (CellView { text: text@, col_span, alignment }),
{
    Cell { text: text.to_owned(), col_span, alignment }
}

/// Makes a row of three left-aligned cells, the last over two columns.
fn triple(first: &str, second: &str, third: &str) -> (row: Vec<Cell>)
    ensures
        row.deep_view() == triple_row(first@, second@, third@),
{
    let mut row: Vec<Cell> = Vec::new();
    row.push(cell(first, 1, Alignment::Left));
    row.push(cell(second, 1, Alignment::Left));
    row.push(cell(third, 2, Alignment::Left));
    assert(row.deep_view() =~= triple_row(first@, second@, third@));
    row
}

/// Writes a label, a number and what follows it.
fn write_labelled(label: &str, value: u128, tail: &str) -> (text: String)
    ensures
        text@ == labelled(label@, value as nat, tail@),
{
    let mut text = label.to_owned();
    let number = decimal_text(value);
    text.append(number.as_str());
    text.append(tail);
    text
}

/// Writes two labelled numbers, one after the other.
fn write_pair(label: &str, value: u128, second_label: &str, second_value: u128) -> (text: String)
    ensures
        text@ == labelled(label@, value as nat, " ns"@) + labelled(
            second_label@,
            second_value as nat,
            ""@,
        ),
{
    let mut text = write_labelled(label, value, " ns");
    let below = write_labelled(second_label, second_value, "");
    text.append(below.as_str());
    text
}

/// Lays the report out under `title`, each entry in its column.
pub fn table_layout(title: &str, table_entries: &(TableEntry, TableEntry, TableEntry)) -> (rows:
    Vec<Vec<Cell>>)
    ensures
        rows.deep_view() == table_model(
            title@,
            table_entries.0.data(),
            table_entries.1.data(),
            table_entries.2.data(),
        ),
        renderable(rows.deep_view()),
{
    let first = table_entries.0.get();
    let second = table_entries.1.get();
    let third = table_entries.2.get();
    let mut heading: Vec<Cell> = Vec::new();
    heading.push(cell(title, 4, Alignment::Center));
    assert(heading.deep_view() =~= heading_row(title@));
    let mut rows: Vec<Vec<Cell>> = Vec::new();
    rows.push(heading);
    rows.push(triple("100 Elements", "1k Elements", "10k Elements"));

    let a = write_labelled("Insert Time: ", first.times.insert, " ns");
    let b = write_labelled("Insert Time: ", second.times.insert, " ns");
    let c = write_labelled("Insert Time: ", third.times.insert, " ns");
    rows.push(triple(a.as_str(), b.as_str(), c.as_str()));

    let a = write_pair("Size Time: ", first.times.size, "\nSize of Tree: ", first.stats.size as u128);
    let b = write_pair(
        "Size Time: ",
        second.times.size,
        "\nSize of Tree: ",
        second.stats.size as u128,
    );
    let c = write_pair("Size Time: ", third.times.size, "\nSize of Tree: ", third.stats.size as u128);
    rows.push(triple(a.as_str(), b.as_str(), c.as_str()));

    let a = write_pair(
        "Depth Time: ",
        first.times.depth,
        "\nDepth of Tree: ",
        first.stats.depth as u128,
    );
    let b = write_pair(
        "Depth Time: ",
        second.times.depth,
        "\nDepth of Tree: ",
        second.stats.depth as u128,
    );
    let c = write_pair(
        "Depth Time: ",
        third.times.depth,
        "\nDepth of Tree: ",
        third.stats.depth as u128,
    );
    rows.push(triple(a.as_str(), b.as_str(), c.as_str()));

    let a = write_labelled("Search Time: ", first.times.search, " ns");
    let b = write_labelled("Search Time: ", second.times.search, " ns");
    let c = write_labelled("Search Time: ", third.times.search, " ns");
    rows.push(triple(a.as_str(), b.as_str(), c.as_str()));

    assert(rows.deep_view() =~= table_model(
        title@,
        table_entries.0.data(),
        table_entries.1.data(),
        table_entries.2.data(),
    ));
    proof {
        lemma_table_model_renderable(
            title@,
            table_entries.0.data(),
            table_entries.1.data(),
            table_entries.2.data(),
        );
    }
    rows
}

/// The report's rows can be rendered, whatever the title and the entries.
pub proof fn lemma_table_model_renderable(
    title: Seq<char>,
    first: BinaryTreeData,
    second: BinaryTreeData,
    third: BinaryTreeData,
)
    ensures
        renderable(table_model(title, first, second, third)),
{
    let rows = table_model(title, first, second, third);
    assert forall|i: int, j: int| 0 <= i < rows.len() && 0 <= j < rows[i].len() implies {
        &&& 1 <= (#[trigger] rows[i][j]).col_span
        &&& rows[i][j].col_span * rows[i].len() <= MAX_COLUMNS
    } by {
        if i == 0 {
            assert(rows[i] == heading_row(title));
        } else {
            assert(rows[i].len() == 3);
        }
    }
}

/// Renders the report under `title` as text, ready to be printed: each
/// entry's size, depth and times stand in the entry's column.
pub fn render_table(title: &str, table_entries: &(TableEntry, TableEntry, TableEntry)) -> (text:
    String)
    ensures
        text@ == rendered(
            table_model(
                title@,
                table_entries.0.data(),
                table_entries.1.data(),
                table_entries.2.data(),
            ),
            MAX_COLUMN_WIDTH,
        ),
{
    let rows = table_layout(title, table_entries);
    render_rows(&rows, MAX_COLUMN_WIDTH)
}

} // verus!
