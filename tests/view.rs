use sysmon::metrics::Reading;
use sysmon::snapshot::ResourceSnapshot;
use sysmon::view::{format_body_lines, format_line, join_lines, push_decimal, push_fixed2, round_to_centi, view_model};

fn example() -> ResourceSnapshot {
    ResourceSnapshot {
        cpu: Reading::Available(3_141_590),
        memory: Reading::Available(50_000_000),
        disk: Reading::Available(99_999_000),
        network: Reading::Available(12_500_000),
    }
}

#[test]
fn body_lines_round_to_two_decimals() {
    let lines = format_body_lines(&example());
    assert_eq!(lines, vec!["CPU: 3.14%", "Memory: 50.00%", "Disk: 100.00%", "Network: 12.50 B/s"]);
}

#[test]
fn view_model_title_and_body() {
    let m = view_model(&example());
    assert_eq!(m.title, "System Monitor");
    assert_eq!(m.body, "CPU: 3.14%\nMemory: 50.00%\nDisk: 100.00%\nNetwork: 12.50 B/s");
}

#[test]
fn unavailable_readings_show_zero() {
    let s = ResourceSnapshot {
        cpu: Reading::Unavailable,
        memory: Reading::Unavailable,
        disk: Reading::Unavailable,
        network: Reading::Unavailable,
    };
    assert_eq!(view_model(&s).body, "CPU: 0.00%\nMemory: 0.00%\nDisk: 0.00%\nNetwork: 0.00 B/s");
}

#[test]
fn rounding_halves_up() {
    assert_eq!(round_to_centi(3_141_590), 314);
    assert_eq!(round_to_centi(99_999_000), 10_000);
    assert_eq!(round_to_centi(5_000), 1);
    assert_eq!(round_to_centi(4_999), 0);
    assert_eq!(round_to_centi(u64::MAX), 1_844_674_407_370_955);
}

#[test]
fn decimal_and_fixed_point_text() {
    let mut s = String::from("x");
    push_decimal(&mut s, 0);
    push_decimal(&mut s, 907);
    assert_eq!(s, "x0907");
    let mut t = String::new();
    push_fixed2(&mut t, 5);
    t.push(' ');
    push_fixed2(&mut t, 123_456);
    assert_eq!(t, "0.05 1234.56");
    let mut u = String::new();
    push_decimal(&mut u, u64::MAX);
    assert_eq!(u, "18446744073709551615");
}

#[test]
fn single_line_format() {
    assert_eq!(format_line("Load ", Reading::Available(1_005_000), " x"), "Load 1.01 x");
}

#[test]
fn join_lines_edges() {
    assert_eq!(join_lines(&vec![]), "");
    assert_eq!(join_lines(&vec![String::from("a")]), "a");
    assert_eq!(join_lines(&vec![String::from("a"), String::new(), String::from("b")]), "a\n\nb");
}
