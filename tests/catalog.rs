use data_viewer::catalog::{qualified_names, CatalogScan, ScanState};
use data_viewer::picker::{catalog_row, filter_rows, matches_words, Mode, Picker};
use data_viewer::table::{Data, TableAttributes, TableError};

fn strings(items: &[&str]) -> Vec<String> {
    items.iter().map(|s| s.to_string()).collect()
}

fn table(name: &str) -> Data {
    Data::new(
        name.to_string(),
        TableAttributes {
            units: Some("kt".to_string()),
            doc: Some("doc".to_string()),
            typ: Some("float".to_string()),
            dims: Some(strings(&["Year", "Area"])),
        },
        vec![3, 2],
        vec![Some(strings(&["2020", "2021"])), Some(strings(&["a", "b", "c"]))],
    )
    .unwrap()
}

fn open(name: &str, missing: bool) -> Result<Data, TableError> {
    if missing {
        Data::new(
            name.to_string(),
            TableAttributes { units: None, doc: Some(String::new()), typ: Some(String::new()), dims: Some(Vec::new()) },
            vec![1],
            Vec::new(),
        )
    } else {
        Ok(table(name))
    }
}

fn five_names() -> Vec<String> {
    strings(&["g/t1", "g/t2", "g/t3", "g/t4", "g/t5"])
}

#[test]
fn names_are_group_slash_table() {
    let groups = vec![
        ("a".to_string(), strings(&["x", "y"])),
        ("b".to_string(), Vec::new()),
        ("c".to_string(), strings(&["z"])),
    ];
    assert_eq!(qualified_names(&groups), strings(&["a/x", "a/y", "c/z"]));
}

#[test]
fn scan_skips_a_table_missing_an_attribute() {
    let mut scan = CatalogScan::new();
    assert!(scan.start(five_names()));
    assert_eq!(scan.progress(), (0, 5));
    let mut k = 0;
    while let Some(name) = scan.pending() {
        k += 1;
        scan.record(open(&name, k == 3), false);
    }
    assert_eq!(scan.state, ScanState::Completed);
    assert_eq!(scan.progress(), (4, 5));
    assert_eq!(scan.completed_count(), 4);
    let names: Vec<String> = scan.datasets.iter().map(|d| d.name.clone()).collect();
    assert_eq!(names, strings(&["g/t1", "g/t2", "g/t4", "g/t5"]));
}

#[test]
fn cancelled_scan_keeps_what_it_indexed() {
    let mut scan = CatalogScan::new();
    assert!(scan.start(five_names()));
    let first = scan.pending().unwrap();
    scan.record(open(&first, false), false);
    let second = scan.pending().unwrap();
    scan.record(open(&second, false), true);
    assert_eq!(scan.state, ScanState::Cancelled);
    assert_eq!(scan.datasets.len(), 2);
    assert_eq!(scan.progress(), (2, 5));
    assert!(scan.pending().is_none());
    assert!(scan.start(five_names()));
    assert!(scan.datasets.is_empty());
    assert_eq!(scan.state, ScanState::Scanning);
}

#[test]
fn scan_cannot_restart_while_running() {
    let mut scan = CatalogScan::new();
    assert!(scan.start(five_names()));
    assert!(scan.is_scanning());
    assert!(!scan.start(strings(&["g/other"])));
    assert_eq!(scan.names.len(), 5);
    scan.store_unavailable();
    assert_eq!(scan.state, ScanState::Cancelled);
    assert_eq!(scan.progress(), (0, 5));
    assert!(scan.start(Vec::new()));
    assert_eq!(scan.state, ScanState::Completed);
}

#[test]
fn catalog_row_describes_the_table() {
    let row = catalog_row(&table("/g/t"));
    assert_eq!(row, strings(&["'/g/t'", "Year, Area", "2, 3", "2", "kt", "doc"]));
}

#[test]
fn filter_matches_every_word() {
    let ds = vec![table("/inputs/Coal"), table("/outputs/Gas"), table("/inputs/Gas")];
    let rows = filter_rows(&ds, &strings(&["inputs", "gas"]));
    assert_eq!(rows.len(), 1);
    assert_eq!(rows[0][0], "'/inputs/Gas'");
    assert!(matches_words(&strings(&["put", "co"]), "/inputs/coal"));
    assert!(!matches_words(&strings(&["gas"]), "/inputs/coal"));
    assert!(matches_words(&Vec::new(), ""));
}

#[test]
fn tick_lowercases_the_query_and_the_names() {
    let ds = vec![table("/inputs/Coal"), table("/outputs/Gas")];
    let mut p = Picker::new("store.h5".to_string());
    p.tick(&ds, "  GAS ");
    assert_eq!(p.filtered_items().len(), 1);
    assert_eq!(p.filtered_items()[0][0], "'/outputs/Gas'");
    p.tick(&ds, "");
    assert_eq!(p.filtered_items.len(), 2);
    assert_eq!(p.select(1, &ds), Some(1));
    assert_eq!(p.select(2, &ds), None);
}

#[test]
fn picker_cursor_moves() {
    let ds = vec![table("/a/1"), table("/a/2"), table("/a/3"), table("/a/4")];
    let mut p = Picker::new("store.h5".to_string());
    p.tick(&ds, "");
    p.init(ds.len());
    assert_eq!(p.selected, Some(0));
    assert!(p.focus);
    assert_eq!(p.columns, strings(&["Name", "Dims", "Shape", "N", "Units", "Documentation"]));
    p.previous();
    assert_eq!(p.selected, Some(3));
    p.next();
    assert_eq!(p.selected, Some(0));
    p.page_height = Some(2);
    p.page_down();
    assert_eq!(p.selected, Some(2));
    p.page_down();
    assert_eq!(p.selected, Some(3));
    p.page_up();
    assert_eq!(p.selected, Some(1));
    p.page_up();
    assert_eq!(p.selected, Some(0));
    p.bottom();
    assert_eq!(p.selected, Some(3));
    p.top();
    assert_eq!(p.selected, Some(0));
    p.toggle(Some(1));
    assert!(p.contains(1));
    p.mark(Some(2));
    p.unmark(Some(1));
    assert_eq!(p.marked().count(), 1);
    p.clear();
    assert!(!p.contains(2));
    p.mode = Mode::Editing;
    p.refresh(0);
    assert_eq!(p.selected, None);
    assert!(!p.focus);
    p.reset();
    assert!(p.columns.is_empty());
}

#[test]
fn failed_table_keeps_the_total() {
    let mut scan = CatalogScan::new();
    assert!(scan.start(strings(&["g/only"])));
    let name = scan.pending().unwrap();
    scan.record(open(&name, true), false);
    assert_eq!(scan.state, ScanState::Completed);
    assert_eq!(scan.progress(), (0, 1));
    assert_eq!(scan.completed_count(), 0);
}
