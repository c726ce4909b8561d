use hadou::viewer::{LoadError, WaveformViewer};

fn viewer_with(text: &str) -> WaveformViewer {
    let mut v = WaveformViewer::new(".".to_string(), vec!["t.vcd".to_string()]);
    assert_eq!(v.load_vcd_file(text), Ok(()));
    v
}

const SHORT: &str = "$var wire 1 a clk $end\n$enddefinitions $end\n#0\n1a\n#50\n0a\n";

#[test]
fn navigation_clamping() {
    let mut v = viewer_with(SHORT);
    v.time_offset = 0;
    v.visible_time_window = 100;
    v.scroll_right();
    assert_eq!(v.time_offset, 0);
    for _ in 0..100 {
        v.zoom_in();
    }
    assert_eq!(v.visible_time_window, 10);
    v.scroll_right();
    assert_eq!(v.time_offset, 1);
    for _ in 0..100 {
        v.scroll_right();
        assert!(v.time_offset + v.visible_time_window <= 50);
    }
    assert_eq!(v.time_offset, 40);
}

#[test]
fn load_sets_initial_view() {
    let v = viewer_with(SHORT);
    assert_eq!(v.visible_time_window, 100);
    assert_eq!(v.time_offset, 0);
    assert_eq!(v.selected_signal_index, 0);
    let long = viewer_with("$enddefinitions $end\n#5000\n");
    assert_eq!(long.visible_time_window, 500);
}

#[test]
fn load_errors() {
    let mut v = WaveformViewer::new(".".to_string(), Vec::new());
    assert_eq!(v.load_vcd_file(SHORT), Err(LoadError::NoFiles));
    assert_eq!(v.selected_file_path(), Err(LoadError::NoFiles));
    v.refresh_vcd_files(vec!["a.vcd".to_string()]);
    v.selected_file_index = 3;
    assert_eq!(v.load_vcd_file(SHORT), Err(LoadError::InvalidSelection));
    assert!(v.current_vcd.is_none());
}

#[test]
fn zoom_out_is_capped_at_trace_length() {
    let mut v = viewer_with(SHORT);
    v.visible_time_window = 20;
    v.zoom_out();
    assert_eq!(v.visible_time_window, 28);
    v.zoom_out();
    assert_eq!(v.visible_time_window, 39);
    v.zoom_out();
    assert_eq!(v.visible_time_window, 50);
    let mut empty = WaveformViewer::new(".".to_string(), Vec::new());
    empty.zoom_out();
    assert_eq!(empty.visible_time_window, 100);
    empty.zoom_in();
    assert_eq!(empty.visible_time_window, 70);
}

#[test]
fn scroll_left_stops_at_zero() {
    let mut v = viewer_with(SHORT);
    v.time_offset = 25;
    v.visible_time_window = 100;
    v.scroll_left();
    assert_eq!(v.time_offset, 15);
    v.scroll_left();
    assert_eq!(v.time_offset, 5);
    v.scroll_left();
    assert_eq!(v.time_offset, 0);
}

#[test]
fn chart_bounds() {
    let mut v = viewer_with(SHORT);
    v.time_offset = 7;
    v.visible_time_window = 30;
    assert_eq!(v.get_chart_bounds(), (7, 37, -1, 3));
}

#[test]
fn selections_cycle() {
    let mut v = WaveformViewer::new(".".to_string(), vec!["a".to_string(), "b".to_string(), "c".to_string()]);
    v.move_file_selection_up();
    assert_eq!(v.selected_file_index, 2);
    v.move_file_selection_down();
    assert_eq!(v.selected_file_index, 0);
    v.move_signal_selection_down();
    assert_eq!(v.selected_signal_index, 0);
    let mut w = viewer_with("$var wire 1 a p $end\n$var wire 1 b q $end\n$enddefinitions $end\n");
    w.move_signal_selection_up();
    assert_eq!(w.selected_signal_index, 1);
    w.move_signal_selection_down();
    assert_eq!(w.selected_signal_index, 0);
    assert_eq!(w.get_selected_signal().map(|s| s.name.clone()), Some("p".to_string()));
}

#[test]
fn visible_signals_window() {
    let mut text = String::new();
    for i in 0..8 {
        text.push_str(&format!("$var wire 1 i{} s{} $end\n", i, i));
    }
    text.push_str("$enddefinitions $end\n");
    let mut v = viewer_with(&text);
    v.selected_signal_index = 4;
    let names: Vec<String> = v.get_visible_signals().iter().map(|s| s.name.clone()).collect();
    assert_eq!(names, vec!["s2", "s3", "s4", "s5", "s6"]);
    v.selected_signal_index = 0;
    assert_eq!(v.get_visible_signals().len(), 3);
    v.selected_signal_index = 20;
    assert_eq!(v.get_visible_signals().len(), 0);
    let none = WaveformViewer::new(".".to_string(), Vec::new());
    assert!(none.get_visible_signals().is_empty());
}

#[test]
fn selected_file_name_is_last_component() {
    let mut v = WaveformViewer::new(".".to_string(), vec!["runs/alu/trace.vcd".to_string()]);
    assert_eq!(v.get_selected_file_name(), Some("trace.vcd".to_string()));
    assert!(v.has_vcd_files());
    assert_eq!(v.vcd_file_count(), 1);
    v.selected_file_index = 1;
    assert_eq!(v.get_selected_file_name(), None);
}

#[test]
fn value_query_through_viewer() {
    let v = viewer_with(SHORT);
    let s = v.get_selected_signal().unwrap();
    assert_eq!(v.get_signal_value_at_time(s, 49), "1");
    assert_eq!(v.get_signal_value_at_time(s, 50), "0");
}
