use hadou::level::{normalize, Level};
use hadou::signal::{resample, value_at};
use hadou::trace::parse_vcd;

fn as_real(l: Level) -> f64 {
    l.num as f64 / l.den as f64
}

fn changes(list: &[(u64, &str)]) -> Vec<(u64, String)> {
    list.iter().map(|(t, v)| (*t, v.to_string())).collect()
}

#[test]
fn normalizer_boundary_values() {
    assert_eq!(as_real(normalize("0", 1)), 0.0);
    assert_eq!(as_real(normalize("1", 1)), 1.0);
    assert_eq!(as_real(normalize("x", 1)), 0.5);
    assert_eq!(as_real(normalize("z", 4)), 0.25);
    assert_eq!(normalize("101", 3), Level { num: 5, den: 7 });
    assert!((as_real(normalize("101", 3)) - 0.714).abs() < 0.001);
}

#[test]
fn normalizer_other_tokens() {
    assert_eq!(normalize("X", 1), Level { num: 1, den: 2 });
    assert_eq!(normalize("Z", 1), Level { num: 1, den: 4 });
    assert_eq!(normalize("1", 8), Level { num: 1, den: 1 });
    assert_eq!(normalize("11111111", 8), Level { num: 255, den: 255 });
    assert_eq!(normalize("42", 8), Level { num: 42, den: 255 });
    assert_eq!(normalize("+7", 1), Level { num: 7, den: 1 });
    assert_eq!(normalize("1x0", 3), Level { num: 0, den: 7 });
    assert_eq!(normalize("", 2), Level { num: 0, den: 3 });
    assert_eq!(normalize("101", 64), Level { num: 5, den: 4294967295 });
    assert_eq!(normalize("18446744073709551616", 1), Level { num: 0, den: 1 });
}

#[test]
fn end_to_end_scenario() {
    let text = "$timescale\n1ns\n$var wire 1 a clk $end\n$enddefinitions $end\n#0\n0a\n#10\n1a\n#20\n0a\n";
    let d = parse_vcd(text);
    assert_eq!(d.timescale, "1ns");
    assert_eq!(d.max_time, 20);
    assert_eq!(d.signals.len(), 1);
    let s = &d.signals[0];
    assert_eq!(s.identifier, "a");
    assert_eq!(s.width, 1);
    assert_eq!(s.name, "clk");
    assert_eq!(s.values, changes(&[(0, "0"), (10, "1"), (20, "0")]));
    assert_eq!(s.chart_data.len(), 21);
    assert_eq!(s.chart_data[9], (9, Level { num: 0, den: 1 }));
    assert_eq!(s.chart_data[10], (10, Level { num: 1, den: 1 }));
}

#[test]
fn records_kept_in_file_order() {
    let text = "$var wire 1 ! a $end\n$var wire 4 \" bus [3:0] $end\n$enddefinitions $end\n#0\n1!\nb0000 \"\n#5\n0!\n#7\nb1010 \"\n1!\n";
    let d = parse_vcd(text);
    assert_eq!(d.signals.len(), 2);
    assert_eq!(d.signals[0].values, changes(&[(0, "1"), (5, "0"), (7, "1")]));
    assert_eq!(d.signals[1].values, changes(&[(0, "0000"), (7, "1010")]));
    assert_eq!(d.signals[1].name, "bus [3:0]");
    assert_eq!(d.signals[1].width, 4);
    for s in &d.signals {
        assert!(s.values.windows(2).all(|w| w[0].0 <= w[1].0));
    }
}

#[test]
fn unknown_identifier_is_dropped() {
    let text = "$var wire 1 a clk $end\n$enddefinitions $end\n#0\n1a\n1q\nb11 zz\n#3\n0a\n";
    let d = parse_vcd(text);
    assert_eq!(d.signals.len(), 1);
    assert_eq!(d.signals[0].values, changes(&[(0, "1"), (3, "0")]));
}

#[test]
fn malformed_lines_are_skipped() {
    let text = "$var wire w8 a clk $end\n$var wire 1 b\n$enddefinitions $end\n#abc\n#4\n1\nb1\n1a\n#9\n";
    let d = parse_vcd(text);
    assert_eq!(d.timescale, "1ns");
    assert_eq!(d.signals.len(), 1);
    assert_eq!(d.signals[0].width, 1);
    assert_eq!(d.signals[0].values, changes(&[(4, "1")]));
    assert_eq!(d.max_time, 9);
}

#[test]
fn later_declaration_takes_identifier() {
    let text = "$var wire 1 a one $end\n$var wire 1 a two $end\n$enddefinitions $end\n#1\n1a\n";
    let d = parse_vcd(text);
    assert_eq!(d.signals[0].values.len(), 0);
    assert_eq!(d.signals[1].values, changes(&[(1, "1")]));
    assert_eq!(d.signals[0].chart_data.len(), 0);
}

#[test]
fn crlf_lines_and_declaration_after_body_start() {
    let text = "$timescale\r\n 10ps \r\n$var reg 8 % data $end $end\r\n$enddefinitions $end\r\n$var wire 1 q late $end\r\n#2\r\nb101 %\r\n";
    let d = parse_vcd(text);
    assert_eq!(d.timescale, "10ps");
    assert_eq!(d.signals.len(), 1);
    assert_eq!(d.signals[0].name, "data");
    assert_eq!(d.signals[0].values, changes(&[(2, "101")]));
}

#[test]
fn resample_is_deterministic_and_bounded() {
    let c = changes(&[(0, "0"), (30, "1")]);
    let a = resample(&c, 1, 100);
    let b = resample(&c, 1, 100);
    assert_eq!(a, b);
    assert_eq!(a.len(), 101);
    let big = resample(&c, 1, 10_000_000);
    assert_eq!(big, resample(&c, 1, 10_000_000));
    assert_eq!(big.len(), 1001);
    assert_eq!(big[1].0, 10_000);
    assert!(resample(&c, 1, 1500).len() <= 2000);
}

#[test]
fn zero_order_hold() {
    let c = changes(&[(0, "0"), (50, "1")]);
    let s = resample(&c, 1, 100);
    for (t, l) in &s {
        if *t < 50 {
            assert_eq!(as_real(*l), 0.0);
        } else {
            assert_eq!(as_real(*l), 1.0);
        }
    }
}

#[test]
fn resample_without_changes_is_empty() {
    assert!(resample(&Vec::new(), 1, 100).is_empty());
}

#[test]
fn resample_before_first_change_holds_ground() {
    let c = changes(&[(5, "1"), (7, "z")]);
    let s = resample(&c, 1, 10);
    assert_eq!(s[4], (4, Level { num: 0, den: 1 }));
    assert_eq!(s[5], (5, Level { num: 1, den: 1 }));
    assert_eq!(s[8], (8, Level { num: 1, den: 4 }));
}

#[test]
fn point_query_before_first_change() {
    let c = changes(&[(10, "1"), (20, "0")]);
    assert_eq!(value_at(&c, 0), "x");
    assert_eq!(value_at(&c, 10), "1");
    assert_eq!(value_at(&c, 15), "1");
    assert_eq!(value_at(&c, 25), "0");
}

#[test]
fn point_query_last_of_equal_timestamps() {
    let c = changes(&[(10, "1"), (10, "0")]);
    assert_eq!(value_at(&c, 10), "0");
}
