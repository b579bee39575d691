use data_viewer::table::{coordinate_path, group_name, storage_axis, view_shape, Data, TableAttributes, TableError};

fn strings(items: &[&str]) -> Vec<String> {
    items.iter().map(|s| s.to_string()).collect()
}

fn attrs(dims: &[&str]) -> TableAttributes {
    TableAttributes {
        units: Some("kt".to_string()),
        doc: Some("Emissions".to_string()),
        typ: Some("float".to_string()),
        dims: Some(strings(dims)),
    }
}

#[test]
fn open_reverses_the_store_shape() {
    let d = Data::new(
        "/g/t".to_string(),
        attrs(&["Year", "Area"]),
        vec![3, 2],
        vec![Some(strings(&["2020", "2021"])), Some(strings(&["a", "b", "c"]))],
    )
    .unwrap();
    assert_eq!(d.shape, vec![2, 3]);
    assert_eq!(d.ndims, 2);
    assert_eq!(d.units, "kt");
    assert_eq!(d.doc, "Emissions");
    assert_eq!(d.set_names, strings(&["Year", "Area"]));
}

#[test]
fn open_reports_missing_metadata() {
    let mut a = attrs(&["Year"]);
    a.units = None;
    let r = Data::new("/g/t".to_string(), a, vec![2], vec![Some(strings(&["x", "y"]))]);
    assert_eq!(r.unwrap_err(), TableError::MetadataMissing);
    let r = Data::new("/g/t".to_string(), attrs(&["Year"]), vec![2], vec![None]);
    assert_eq!(r.unwrap_err(), TableError::MetadataMissing);
}

#[test]
fn open_reports_shape_mismatch() {
    let r = Data::new("/g/t".to_string(), attrs(&["Year"]), vec![3], vec![Some(strings(&["x", "y"]))]);
    assert_eq!(r.unwrap_err(), TableError::ShapeMismatch);
    let r = Data::new("/g/t".to_string(), attrs(&["Year", "Area"]), vec![2], vec![Some(strings(&["x", "y"]))]);
    assert_eq!(r.unwrap_err(), TableError::ShapeMismatch);
}

#[test]
fn view_shape_is_reversed() {
    assert_eq!(view_shape(&vec![4, 5, 6]), vec![6, 5, 4]);
    assert_eq!(storage_axis(3, 0), 2);
    assert_eq!(storage_axis(3, 2), 0);
}

#[test]
fn group_and_coordinate_path() {
    assert_eq!(group_name("/iinput/FsPEE"), "iinput");
    assert_eq!(group_name("//a/b/c"), "a");
    assert_eq!(group_name(""), "");
    assert_eq!(coordinate_path("/iinput/FsPEE", "Year"), "iinput/Year");
}

#[test]
fn selection_covers_the_block() {
    let d = Data::new("/g/t".to_string(), attrs(&["Year"]), vec![1], vec![Some(strings(&["x"]))]).unwrap();
    assert_eq!(d.selection(1..3, 5..7), vec![(1, 5), (1, 6), (2, 5), (2, 6)]);
    assert!(d.selection(3..3, 0..2).is_empty());
}
