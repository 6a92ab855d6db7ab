//! The tabular result: column names, and rows of display strings.

use crate::decimal::decimal;
use crate::render::{
    failure_marker, failure_marker_text, lemma_binary_is_displayed_as_length,
    lemma_null_is_displayed_as_null, render, rendered,
};
use crate::wire::{
    family_of, ColumnDescriptor, ColumnView, RawCell, RawCellView, RawRow, RawRowView, TypeFamily,
    WireTypeView,
};
use vstd::prelude::*;

verus! {

/// The result of a query as it is shown: the names of the columns in wire
/// order, and for every row one display string per column.
#[derive(Clone, Debug, PartialEq, Eq)]
pub struct QueryResult {
    pub columns: Vec<String>,
    pub rows: Vec<Vec<String>>,
}

/// A `QueryResult` as contracts see it.
pub struct TableView {
    pub columns: Seq<Seq<char>>,
    pub rows: Seq<Seq<Seq<char>>>,
}

impl TableView {
    /// Every row has one cell for each column.
    pub open spec fn rectangular(self) -> bool {
        forall|i: int|
            0 <= i < self.rows.len() ==> (#[trigger] self.rows[i]).len() == self.columns.len()
    }
}

/// A list of strings as contracts see it.
pub open spec fn texts(strings: Seq<String>) -> Seq<Seq<char>> {
    Seq::new(strings.len(), |i: int| strings[i]@)
}

impl View for QueryResult {
    type V = TableView;

    open spec fn view(&self) -> TableView {
        TableView {
            columns: texts(self.columns@),
            rows: Seq::new(self.rows@.len(), |i: int| texts(self.rows@[i]@)),
        }
    }
}

/// A list of column descriptors as contracts see it.
pub open spec fn column_views(columns: Seq<ColumnDescriptor>) -> Seq<ColumnView> {
    Seq::new(columns.len(), |i: int| columns[i]@)
}

/// A list of raw cells as contracts see it.
pub open spec fn cell_views(cells: Seq<RawCell>) -> Seq<RawCellView> {
    Seq::new(cells.len(), |i: int| cells[i]@)
}

/// A list of raw rows as contracts see it.
pub open spec fn row_views(rows: Seq<RawRow>) -> Seq<RawRowView> {
    Seq::new(rows.len(), |i: int| rows[i]@)
}

/// The names of the columns, in their order.
pub open spec fn column_names(columns: Seq<ColumnView>) -> Seq<Seq<char>> {
    Seq::new(columns.len(), |i: int| columns[i].name)
}

/// The display string at position `i` of a row for a column of type `ty`: that
/// of the cell there, or the failure marker of the type where the row has no
/// cell at that position.
pub open spec fn rendered_at(ty: WireTypeView, cells: Seq<RawCellView>, i: int) -> Seq<char> {
    if 0 <= i < cells.len() {
        rendered(ty, cells[i])
    } else {
        failure_marker(ty)
    }
}

/// The display strings of a row: one for each column, in the columns' order.
pub open spec fn rendered_row(columns: Seq<ColumnView>, cells: Seq<RawCellView>) -> Seq<Seq<char>> {
    Seq::new(columns.len(), |j: int| rendered_at(columns[j].wire_type, cells, j))
}

/// The table that a result set is shown as. The column metadata is that of
/// the first row; a result set without rows has none, and gives the empty
/// table.
pub open spec fn tabulated(rows: Seq<RawRowView>) -> TableView {
    if rows.len() == 0 {
        TableView { columns: Seq::empty(), rows: Seq::empty() }
    } else {
        TableView {
            columns: column_names(rows[0].columns),
            rows: Seq::new(rows.len(), |i: int| rendered_row(rows[0].columns, rows[i].cells)),
        }
    }
}

/// The table of a statement that returned no rows: the statement's declared
/// columns, and no row.
pub open spec fn described(columns: Seq<ColumnView>) -> TableView {
    TableView { columns: column_names(columns), rows: Seq::empty() }
}

/// Every table that a result set is shown as is rectangular, whatever the
/// rows hold: a cell that cannot be read, and a cell that is missing, still
/// take their place. No row is lost, and no column of the first row.
pub proof fn lemma_tabulated_is_rectangular(rows: Seq<RawRowView>)
    ensures
        tabulated(rows).rectangular(),
        tabulated(rows).rows.len() == rows.len(),
        rows.len() > 0 ==> tabulated(rows).columns.len() == rows[0].columns.len(),
{
}

/// The table of a statement without rows is rectangular.
pub proof fn lemma_described_is_rectangular(columns: Seq<ColumnView>)
    ensures
        described(columns).rectangular(),
        described(columns).rows.len() == 0,
        described(columns).columns.len() == columns.len(),
{
}

/// A null cell is shown as `NULL` at its place in the table, whatever the
/// type of its column.
pub proof fn lemma_null_cell_is_shown_as_null(rows: Seq<RawRowView>, i: int, j: int)
    requires
        0 <= i < rows.len(),
        0 <= j < rows[0].columns.len(),
        j < rows[i].cells.len(),
        rows[i].cells[j].bytes is None,
    ensures
        tabulated(rows).rows[i][j] == "NULL"@,
{
    lemma_null_is_displayed_as_null(rows[0].columns[j].wire_type, rows[i].cells[j]);
}

/// A cell of a byte-array column that holds `n` bytes is shown as `[n bytes]`
/// at its place in the table.
pub proof fn lemma_binary_cell_is_shown_as_length(
    rows: Seq<RawRowView>,
    i: int,
    j: int,
    bytes: Seq<u8>,
)
    requires
        0 <= i < rows.len(),
        0 <= j < rows[0].columns.len(),
        j < rows[i].cells.len(),
        family_of(rows[0].columns[j].wire_type.oid) == TypeFamily::Binary,
        rows[i].cells[j].bytes == Some(bytes),
    ensures
        tabulated(rows).rows[i][j] == "["@ + decimal(bytes.len() as int) + " bytes]"@,
{
    lemma_binary_is_displayed_as_length(rows[0].columns[j].wire_type, rows[i].cells[j]);
}

/// What stands at a place of the table depends on the cell at that place and
/// on the type of its column alone: no other cell, readable or not, has a part
/// in it.
pub proof fn lemma_cells_do_not_affect_each_other(
    first: Seq<RawRowView>,
    second: Seq<RawRowView>,
    i: int,
    j: int,
)
    requires
        0 <= i < first.len(),
        first.len() == second.len(),
        0 <= j < first[0].columns.len(),
        first[0].columns.len() == second[0].columns.len(),
        first[0].columns[j].wire_type == second[0].columns[j].wire_type,
        j < first[i].cells.len(),
        j < second[i].cells.len(),
        first[i].cells[j] == second[i].cells[j],
    ensures
        tabulated(first).rows[i][j] == tabulated(second).rows[i][j],
{
}

/// The table depends on what the rows hold and on nothing else: two result
/// sets with the same contents are shown as the same table.
pub proof fn lemma_tabulated_is_repeatable(first: Vec<RawRow>, second: Vec<RawRow>)
    requires
        row_views(first@) == row_views(second@),
    ensures
        tabulated(row_views(first@)) == tabulated(row_views(second@)),
{
}

/// Collects the names of the columns.
pub fn names_of(columns: &Vec<ColumnDescriptor>) -> (names: Vec<String>)
    ensures
        texts(names@) == column_names(column_views(columns@)),
{
    let mut names: Vec<String> = Vec::new();
    let mut i: usize = 0;
    while i < columns.len()
        invariant
            i <= columns@.len(),
            names@.len() == i,
            forall|k: int| 0 <= k < i ==> (#[trigger] names@[k])@ == columns@[k].name@,
        decreases columns@.len() - i,
    {
        names.push(columns[i].name.clone());
        i += 1;
    }
    names
}

/// Writes the display strings of one row under the given columns.
pub fn render_row(columns: &Vec<ColumnDescriptor>, cells: &Vec<RawCell>) -> (row: Vec<String>)
    ensures
        texts(row@) == rendered_row(column_views(columns@), cell_views(cells@)),
{
    let mut row: Vec<String> = Vec::new();
    let mut j: usize = 0;
    while j < columns.len()
        invariant
            j <= columns@.len(),
            row@.len() == j,
            forall|k: int|
                0 <= k < j ==> (#[trigger] row@[k])@ == rendered_at(
                    columns@[k]@.wire_type,
                    cell_views(cells@),
                    k,
                ),
        decreases columns@.len() - j,
    {
        let text = if j < cells.len() {
            render(&columns[j].wire_type, &cells[j])
        } else {
            failure_marker_text(&columns[j].wire_type)
        };
        row.push(text);
        j += 1;
    }
    row
}

/// Shows a result set as a table.
pub fn tabulate(rows: &Vec<RawRow>) -> (table: QueryResult)
    ensures
        table@ == tabulated(row_views(rows@)),
        table@.rectangular(),
{
    if rows.len() == 0 {
        let table = QueryResult { columns: Vec::new(), rows: Vec::new() };
        assert(table@.columns =~= Seq::empty());
        assert(table@.rows =~= Seq::empty());
        return table;
    }
    let columns = &rows[0].columns;
    let names = names_of(columns);
    let mut body: Vec<Vec<String>> = Vec::new();
    let mut i: usize = 0;
    while i < rows.len()
        invariant
            i <= rows@.len(),
            body@.len() == i,
            columns == &rows@[0].columns,
            forall|k: int|
                0 <= k < i ==> texts((#[trigger] body@[k])@) == rendered_row(
                    column_views(columns@),
                    cell_views(rows@[k].cells@),
                ),
        decreases rows@.len() - i,
    {
        body.push(render_row(columns, &rows[i].cells));
        i += 1;
    }
    let table = QueryResult { columns: names, rows: body };
    assert(table@.rows =~= tabulated(row_views(rows@)).rows);
    table
}

/// The table of a statement that returned no rows.
pub fn describe(columns: &Vec<ColumnDescriptor>) -> (table: QueryResult)
    ensures
        table@ == described(column_views(columns@)),
        table@.rectangular(),
{
    let table = QueryResult { columns: names_of(columns), rows: Vec::new() };
    assert(table@.rows =~= Seq::empty());
    table
}

} // verus!
