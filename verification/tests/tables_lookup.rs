use edu_ical::json::{Json, Member};
use edu_ical::tables::{position_by_id, SlowTables};

fn text(s: &str) -> Json {
    Json::Str(s.to_string())
}

fn object(members: Vec<(&str, Json)>) -> Json {
    Json::Object(
        members
            .into_iter()
            .map(|(key, value)| Member { key: key.to_string(), value })
            .collect(),
    )
}

fn row(id: &str, mark: &str) -> Json {
    object(vec![("id", text(id)), ("mark", text(mark))])
}

fn table(name: &str, rows: Vec<Json>) -> Json {
    object(vec![("id", text(name)), ("data_rows", Json::Array(rows))])
}

#[test]
fn table_gives_the_rows_of_the_first_table_of_that_name() {
    let tables = vec![
        table("periods", vec![row("p1", "a")]),
        table("cards", vec![row("c1", "first")]),
        table("cards", vec![row("c1", "second"), row("c2", "second")]),
    ];
    let index = SlowTables(&tables);
    assert_eq!(index.table("cards"), Some(&vec![row("c1", "first")]));
    assert_eq!(index.table("periods"), Some(&vec![row("p1", "a")]));
    assert_eq!(index.table("lessons"), None);
}

#[test]
fn table_needs_an_array_of_rows_in_the_match() {
    let tables = vec![
        object(vec![("id", text("cards"))]),
        table("cards", vec![row("c1", "late")]),
        object(vec![("id", text("lessons")), ("data_rows", text("none"))]),
    ];
    let index = SlowTables(&tables);
    // the first match is the one that counts, though a later one has rows
    assert_eq!(index.table("cards"), None);
    assert_eq!(index.table("lessons"), None);
}

#[test]
fn table_passes_over_tables_without_a_name() {
    let tables = vec![
        object(vec![("data_rows", Json::Array(vec![]))]),
        object(vec![("id", Json::Number("7".to_string()))]),
        Json::Null,
        table("cards", vec![row("c1", "x")]),
    ];
    assert_eq!(SlowTables(&tables).table("cards"), Some(&vec![row("c1", "x")]));
}

#[test]
fn value_gives_the_first_row_of_that_id() {
    let tables = vec![table(
        "lessons",
        vec![row("l1", "one"), row("l2", "two"), row("l1", "again")],
    )];
    let index = SlowTables(&tables);
    assert_eq!(index.value("lessons", "l1"), Some(&row("l1", "one")));
    assert_eq!(index.value("lessons", "l2"), Some(&row("l2", "two")));
    assert_eq!(index.value("lessons", "l3"), None);
    assert_eq!(index.value("subjects", "l1"), None);
}

#[test]
fn value_passes_over_rows_without_an_id() {
    let tables = vec![table(
        "lessons",
        vec![
            object(vec![("mark", text("no id"))]),
            object(vec![("id", Json::Number("1".to_string()))]),
            row("l1", "found"),
        ],
    )];
    assert_eq!(SlowTables(&tables).value("lessons", "l1"), Some(&row("l1", "found")));
}

#[test]
fn value_finds_nothing_in_no_tables() {
    let tables: Vec<Json> = vec![];
    assert_eq!(SlowTables(&tables).table("cards"), None);
    assert_eq!(SlowTables(&tables).value("cards", "c1"), None);
}

#[test]
fn position_by_id_is_the_first_position() {
    let rows = vec![row("a", "0"), row("b", "1"), row("a", "2")];
    assert_eq!(position_by_id(&rows, "a"), Some(0));
    assert_eq!(position_by_id(&rows, "b"), Some(1));
    assert_eq!(position_by_id(&rows, "c"), None);
    assert_eq!(position_by_id(&vec![], "a"), None);
}
