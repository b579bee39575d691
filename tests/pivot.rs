use data_viewer::grid::{margin_layout, orient};
use data_viewer::help::Help;
use data_viewer::session::Mode as SessionMode;
use data_viewer::table::{Data, TableAttributes};
use data_viewer::viewer::{AxisSlice, Command, Mode, ViewError, Viewer};

fn strings(items: &[&str]) -> Vec<String> {
    items.iter().map(|s| s.to_string()).collect()
}

/// A table whose axes have the given extents as a reader sees them.
fn table(extents: &[usize]) -> Data {
    let n = extents.len();
    let names: Vec<String> = (0..n).map(|i| format!("d{i}")).collect();
    let mut storage: Vec<usize> = extents.to_vec();
    storage.reverse();
    let labels = extents.iter().map(|&e| Some((0..e).map(|k| format!("l{k}")).collect())).collect();
    Data::new(
        "/g/t".to_string(),
        TableAttributes {
            units: Some(String::new()),
            doc: Some(String::new()),
            typ: Some(String::new()),
            dims: Some(names),
        },
        storage,
        labels,
    )
    .unwrap()
}

fn viewer(extents: &[usize]) -> Viewer {
    let mut v = Viewer::new("store.h5".to_string(), "/g/t".to_string());
    v.init(table(extents));
    v
}

fn sums(d: &[Vec<f64>]) -> (Vec<f64>, Vec<f64>, f64) {
    let per_outer: Vec<f64> = d.iter().map(|r| r.iter().sum()).collect();
    let inner = d.first().map(|r| r.len()).unwrap_or(0);
    let per_inner: Vec<f64> = (0..inner).map(|i| d.iter().map(|r| r[i]).sum()).collect();
    let grand = per_inner.iter().sum();
    (per_inner, per_outer, grand)
}

#[test]
fn init_picks_last_and_first_axes() {
    let v = viewer(&[2, 3, 4]);
    assert_eq!(v.axis0, 2);
    assert_eq!(v.axis1, 0);
    assert_eq!(v.ncol, 4);
    assert_eq!(v.nrow, 2);
    assert_eq!(v.active_index, vec![0, 0, 0]);
    assert!(v.show_zeros_as_dashes);
    assert_eq!(v.summary.kvs.len(), 3);
    assert_eq!(v.select.active_sets_state.len(), 3);
}

#[test]
fn free_axes_stay_distinct() {
    let mut v = viewer(&[2, 3, 4, 5]);
    for step in 0..40 {
        match step % 5 {
            0 => v.increment_axis0(),
            1 => v.increment_axis1(),
            2 => v.decrement_axis0(),
            3 => v.increment_axis0(),
            _ => v.decrement_axis1(),
        }
        assert_ne!(v.axis0, v.axis1);
        assert!(v.axis0 < 4 && v.axis1 < 4);
    }
}

#[test]
fn axis_step_skips_the_other_free_axis() {
    let mut v = viewer(&[2, 3, 4]);
    v.axis0 = 0;
    v.axis1 = 1;
    v.col = 2;
    v.increment_axis0();
    assert_eq!(v.axis0, 2);
    assert_eq!(v.col, 0);
    v.decrement_axis0();
    assert_eq!(v.axis0, 0);
    v.increment_axis0();
    v.increment_axis0();
    assert_eq!(v.axis0, 0);
}

#[test]
fn axis_up_then_down_returns() {
    let mut v = viewer(&[2, 3, 4, 5]);
    v.axis0 = 1;
    v.axis1 = 3;
    v.increment_axis1();
    assert_eq!(v.axis1, 0);
    v.decrement_axis1();
    assert_eq!(v.axis1, 3);
    v.axis1 = 0;
    v.increment_axis1();
    assert_eq!(v.axis1, 2);
    v.decrement_axis1();
    assert_eq!(v.axis1, 0);
}

#[test]
fn index_cycles_through_its_axis() {
    let mut v = viewer(&[2, 3, 4]);
    v.active_index[1] = 1;
    for _ in 0..3 {
        v.increment_index(1);
    }
    assert_eq!(v.active_index[1], 1);
    v.decrement_index(0);
    assert_eq!(v.active_index[0], 1);
    v.increment_index(0);
    assert_eq!(v.active_index[0], 0);
    v.increment_index(7);
    v.decrement_index(7);
    assert_eq!(v.active_index, vec![0, 1, 0]);
}

#[test]
fn slices_follow_the_store_order() {
    let mut v = viewer(&[2, 3, 4]);
    v.active_index = vec![1, 2, 3];
    v.axis0 = 2;
    v.axis1 = 0;
    assert_eq!(v.slices().unwrap(), vec![AxisSlice::Full, AxisSlice::Index(2), AxisSlice::Full]);
    v.axis0 = 1;
    assert_eq!(v.slices().unwrap(), vec![AxisSlice::Index(3), AxisSlice::Full, AxisSlice::Full]);
    v.active_index[2] = 4;
    assert_eq!(v.slices().unwrap_err(), ViewError::IndexOutOfRange);
    v.axis1 = 1;
    assert_eq!(v.slices().unwrap_err(), ViewError::AxesNotDistinct);
    let w = Viewer::new(String::new(), String::new());
    assert_eq!(w.slices().unwrap_err(), ViewError::NoTable);
}

#[test]
fn zero_table_projection() {
    let mut v = viewer(&[2, 3]);
    v.axis0 = 1;
    v.axis1 = 0;
    v.active_index = vec![0, 0];
    assert!(!v.transposes());
    let raw = vec![vec![0.0f64; 2]; 3];
    let d = v.orient_slice(&raw, 2);
    assert_eq!(d.len(), 3);
    assert!(d.iter().all(|r| r.len() == 2));
    let (per_inner, per_outer, grand) = sums(&d);
    assert_eq!(per_outer, vec![0.0, 0.0, 0.0]);
    assert_eq!(per_inner, vec![0.0, 0.0]);
    assert_eq!(grand, 0.0);
    let g = v.layout(&d, &per_inner, &per_outer, grand).unwrap();
    assert_eq!(g.len(), 3);
    assert!(g.iter().all(|r| r.len() == 4 && r.iter().all(|&x| x == 0.0)));
}

#[test]
fn grid_rows_have_equal_length() {
    let d = vec![vec![1, 2], vec![3, 4], vec![5, 6]];
    let g = margin_layout(&d, &vec![9, 12], &vec![3, 7, 11], 21, 1);
    assert_eq!(g, vec![vec![9, 3, 5], vec![12, 4, 6], vec![21, 7, 11]]);
    for col in 0..=3 {
        let g = margin_layout(&d, &vec![9, 12], &vec![3, 7, 11], 21, col);
        assert!(g.iter().all(|r| r.len() == 4 - col));
    }
}

#[test]
fn grand_total_ignores_orientation() {
    let raw = vec![vec![1.0f64, 2.0, 3.0], vec![4.0, 5.0, 6.0]];
    let t = orient(&raw, 3, true);
    assert_eq!(t, vec![vec![1.0, 4.0], vec![2.0, 5.0], vec![3.0, 6.0]]);
    let (_, _, g1) = sums(&raw);
    let (_, _, g2) = sums(&t);
    assert_eq!(g1, 21.0);
    assert_eq!(g2, 21.0);
    let (per_inner, per_outer, grand) = sums(&t);
    let grid = margin_layout(&t, &per_inner, &per_outer, grand, 0);
    assert_eq!(grid[2][0], 21.0);
    assert_eq!(grid[0], vec![6.0, 1.0, 2.0, 3.0]);
}

#[test]
fn layout_refuses_mismatched_parts() {
    let v = viewer(&[2, 3]);
    let d = vec![vec![1, 2], vec![3]];
    assert!(v.layout(&d, &vec![0, 0], &vec![0, 0], 0).is_none());
    let d = vec![vec![1, 2], vec![3, 4]];
    assert!(v.layout(&d, &vec![0, 0], &vec![0], 0).is_none());
}

#[test]
fn headings_of_the_pivot() {
    let mut v = viewer(&[2, 3]);
    assert_eq!(v.columns(), strings(&["d0＼d1", "Total", "l0", "l1", "l2"]));
    assert_eq!(v.rows(), strings(&["l0", "l1", "Total"]));
    v.move_right();
    assert_eq!(v.columns(), strings(&["d0＼d1", "Total", "l1", "l2"]));
    v.move_end();
    assert_eq!(v.col, 2);
    v.move_right();
    assert_eq!(v.col, 2);
    v.move_left();
    assert_eq!(v.col, 1);
    v.move_home();
    assert_eq!(v.col, 0);
    v.move_left();
    assert_eq!(v.col, 0);
}

#[test]
fn constraints_fill_the_width() {
    let v = viewer(&[2, 3]);
    assert_eq!(v.constraints(30), vec![20]);
    assert_eq!(v.constraints(32), vec![20, 9]);
    assert_eq!(v.constraints(52), vec![20, 9, 9, 9]);
}

#[test]
fn cursor_wraps_over_rows_and_totals() {
    let mut v = viewer(&[2, 3]);
    v.move_next();
    assert_eq!(v.selected, Some(0));
    v.move_previous();
    assert_eq!(v.selected, Some(2));
    v.move_next();
    assert_eq!(v.selected, Some(0));
    v.move_bottom();
    assert_eq!(v.selected, Some(2));
    v.move_top();
    assert_eq!(v.selected, Some(0));
    v.reset();
    assert_eq!(v.selected, None);
    assert!(v.active_index.is_empty());
    assert_eq!(v.initialize_state(), Ok(()));
    assert_eq!(v.active_index, vec![0, 0]);
}

#[test]
fn help_lists_the_bindings() {
    let mut h = Help::new(SessionMode::Picker);
    assert_eq!(h.items().len(), 10);
    assert_eq!(h.items()[8], strings(&["q", "Quit"]));
    h.previous();
    assert_eq!(h.selected, Some(0));
    for _ in 0..20 {
        h.next();
    }
    assert_eq!(h.selected, Some(9));
    let mut w = Help::new(SessionMode::Waiting);
    w.next();
    assert_eq!(w.selected, None);
    assert_eq!(Help::new(SessionMode::Viewer("x".to_string())).items().len(), 32);
}

#[test]
fn commands_drive_the_view() {
    let mut v = viewer(&[2, 3, 4]);
    assert!(!v.update(Command::IncrementAxis(1)));
    assert_eq!((v.axis0, v.axis1), (1, 0));
    assert_eq!(v.ncol, 3);
    assert!(!v.update(Command::DecrementAxis(0)));
    assert_eq!((v.axis0, v.axis1), (1, 2));
    assert_eq!(v.nrow, 4);
    assert!(!v.update(Command::NextAxis(0)));
    assert_eq!(v.active_index, vec![1, 0, 0]);
    assert!(!v.update(Command::PreviousAxis(2)));
    assert_eq!(v.active_index, vec![1, 0, 3]);
    assert!(!v.update(Command::ToggleFormattedData));
    assert!(!v.show_zeros_as_dashes);
    assert!(!v.update(Command::MoveSelectionRight));
    assert_eq!(v.col, 1);
    assert!(!v.update(Command::EnterSubset));
    assert_eq!(v.mode, Mode::Selection);
    assert!(!v.update(Command::MoveSelectionRight));
    assert_eq!(v.select.current_set, 1);
    assert!(!v.update(Command::Close));
    assert!(!v.update(Command::EnterNormal));
    assert_eq!(v.mode, Mode::Normal);
    assert!(v.update(Command::Close));
    assert!(v.active_index.is_empty());
}

#[test]
fn refresh_marks_every_index_and_clamps_the_scroll() {
    let mut v = viewer(&[2, 3]);
    assert_eq!(v.select.active_sets_state[0].selected(), vec![0, 1]);
    assert_eq!(v.select.active_sets_state[1].selected(), vec![0, 1, 2]);
    assert_eq!(v.select.active_sets_state[1].cursor, Some(0));
    assert_eq!(v.summary.kis, vec![0, 0]);
    assert_eq!(v.summary.total_indices, vec![2, 3]);
    v.col = 7;
    assert_eq!(v.initialize_state(), Ok(()));
    assert_eq!(v.col, 2);
}
