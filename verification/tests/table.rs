use snom_sql::table::{describe, names_of, render_row, tabulate};
use snom_sql::wire::{
    ColumnDescriptor, RawCell, RawRow, WireType, BOOL_OID, BYTEA_OID, INT8_OID, TEXT_OID,
};
use snom_sql::QueryResult;

fn column(name: &str, oid: u32, wire_name: &str) -> ColumnDescriptor {
    ColumnDescriptor {
        name: name.to_string(),
        wire_type: WireType { oid, name: wire_name.to_string() },
    }
}

fn cell(bytes: &[u8]) -> RawCell {
    RawCell { bytes: Some(bytes.to_vec()), float_text: None }
}

fn null() -> RawCell {
    RawCell { bytes: None, float_text: None }
}

fn people_columns() -> Vec<ColumnDescriptor> {
    vec![
        column("id", INT8_OID, "int8"),
        column("name", TEXT_OID, "text"),
        column("active", BOOL_OID, "bool"),
        column("avatar", BYTEA_OID, "bytea"),
    ]
}

fn people() -> Vec<RawRow> {
    vec![
        RawRow {
            columns: people_columns(),
            cells: vec![cell(&1i64.to_be_bytes()), cell(b"Ada"), cell(&[1]), cell(&[0; 12])],
        },
        RawRow {
            columns: people_columns(),
            cells: vec![cell(&2i64.to_be_bytes()), null(), cell(&[0]), null()],
        },
    ]
}

fn strings(items: &[&str]) -> Vec<String> {
    items.iter().map(|s| s.to_string()).collect()
}

#[test]
fn table_has_the_names_and_the_display_strings() {
    let table = tabulate(&people());
    assert_eq!(table.columns, strings(&["id", "name", "active", "avatar"]));
    assert_eq!(
        table.rows,
        vec![
            strings(&["1", "Ada", "true", "[12 bytes]"]),
            strings(&["2", "NULL", "false", "NULL"]),
        ]
    );
}

#[test]
fn every_row_is_as_long_as_the_columns() {
    let table = tabulate(&people());
    for row in table.rows.iter() {
        assert_eq!(row.len(), table.columns.len());
    }
}

#[test]
fn one_bad_cell_does_not_spoil_the_table() {
    let mut rows = people();
    rows[0].cells[2] = cell(&[1, 1, 1]);
    rows[1].cells[0] = cell(&[7]);
    let table = tabulate(&rows);
    assert_eq!(
        table.rows,
        vec![
            strings(&["1", "Ada", "ERR:TYPE(bool)", "[12 bytes]"]),
            strings(&["ERR:TYPE(int)", "NULL", "false", "NULL"]),
        ]
    );
}

#[test]
fn a_short_row_is_filled_with_markers() {
    let mut rows = people();
    rows[1].cells.truncate(1);
    let table = tabulate(&rows);
    assert_eq!(
        table.rows[1],
        strings(&["2", "ERR:TYPE(text)", "ERR:TYPE(bool)", "ERR:TYPE(bytea)"])
    );
    assert_eq!(table.rows[0].len(), 4);
}

#[test]
fn a_long_row_is_cut_to_the_columns() {
    let mut rows = people();
    rows[0].cells.push(cell(b"extra"));
    let table = tabulate(&rows);
    assert_eq!(table.rows[0], strings(&["1", "Ada", "true", "[12 bytes]"]));
}

#[test]
fn the_first_row_gives_the_columns() {
    let mut rows = people();
    rows[1].columns = vec![column("other", TEXT_OID, "text")];
    let table = tabulate(&rows);
    assert_eq!(table.columns, strings(&["id", "name", "active", "avatar"]));
    assert_eq!(table.rows[1], strings(&["2", "NULL", "false", "NULL"]));
}

#[test]
fn column_names_need_not_differ() {
    let columns = vec![column("x", INT8_OID, "int8"), column("x", INT8_OID, "int8")];
    let rows = vec![RawRow {
        columns: columns.clone(),
        cells: vec![cell(&1i64.to_be_bytes()), cell(&2i64.to_be_bytes())],
    }];
    let table = tabulate(&rows);
    assert_eq!(table.columns, strings(&["x", "x"]));
    assert_eq!(table.rows, vec![strings(&["1", "2"])]);
}

#[test]
fn no_rows_give_the_empty_table() {
    let table = tabulate(&Vec::new());
    assert_eq!(table, QueryResult { columns: vec![], rows: vec![] });
}

#[test]
fn rows_without_columns_are_empty_rows() {
    let rows = vec![
        RawRow { columns: vec![], cells: vec![] },
        RawRow { columns: vec![], cells: vec![] },
    ];
    let table = tabulate(&rows);
    assert_eq!(table.columns, Vec::<String>::new());
    assert_eq!(table.rows, vec![Vec::<String>::new(), Vec::<String>::new()]);
}

#[test]
fn the_same_rows_give_the_same_table() {
    assert_eq!(tabulate(&people()), tabulate(&people()));
}

#[test]
fn described_columns_give_a_table_without_rows() {
    let table = describe(&people_columns());
    assert_eq!(table.columns, strings(&["id", "name", "active", "avatar"]));
    assert!(table.rows.is_empty());
}

#[test]
fn names_come_in_wire_order() {
    assert_eq!(names_of(&people_columns()), strings(&["id", "name", "active", "avatar"]));
    assert_eq!(names_of(&Vec::new()), Vec::<String>::new());
}

#[test]
fn a_row_is_rendered_under_its_columns() {
    let row = render_row(&people_columns(), &vec![cell(&9i64.to_be_bytes()), cell(b"Bob")]);
    assert_eq!(row, strings(&["9", "Bob", "ERR:TYPE(bool)", "ERR:TYPE(bytea)"]));
    assert_eq!(render_row(&Vec::new(), &vec![null()]), Vec::<String>::new());
}
