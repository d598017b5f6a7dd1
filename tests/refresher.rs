use snapshot_server::refresher::{
    chart_from_samples, generate_chart, generate_table, item_name_string, series_label_string,
    status_from_index, table_from_samples, tick, RefreshConfig, CHART_POINTS, CHART_VALUE_BOUND,
    DEFAULT_PERIOD_SECS, TABLE_ROWS, TABLE_VALUE_LIMIT,
};
use snapshot_server::snapshot::{ChartSnapshot, Status, TableSnapshot};
use snapshot_server::store::SnapshotStore;
use snapshot_server::text::append_decimal;

fn check_chart_shape(c: &ChartSnapshot) {
    assert_eq!(c.values.len(), 5);
    assert_eq!(c.labels.len(), 5);
    for (i, l) in c.labels.iter().enumerate() {
        assert_eq!(*l, format!("Series {}", i));
    }
    for v in &c.values {
        assert!(-100_000_000 <= *v && *v <= 100_000_000);
    }
}

fn check_table_shape(t: &TableSnapshot) {
    assert_eq!(t.rows.len(), 10);
    for (i, row) in t.rows.iter().enumerate() {
        assert_eq!(row.id, i as i32);
        assert_eq!(row.name, format!("Item {}", i));
        assert!(0 <= row.value && row.value < 1_000_000_000);
        assert!(["Active", "Pending", "Inactive"].contains(&row.status.as_str()));
    }
}

#[test]
fn decimal_rendering() {
    let mut s = String::from("n=");
    append_decimal(&mut s, 0);
    assert_eq!(s, "n=0");
    let mut s = String::new();
    append_decimal(&mut s, 9);
    assert_eq!(s, "9");
    let mut s = String::new();
    append_decimal(&mut s, 10);
    assert_eq!(s, "10");
    let mut s = String::new();
    append_decimal(&mut s, 18_446_744_073_709_551_615);
    assert_eq!(s, "18446744073709551615");
}

#[test]
fn labels_and_names() {
    assert_eq!(series_label_string(0), "Series 0");
    assert_eq!(series_label_string(4), "Series 4");
    assert_eq!(item_name_string(9), "Item 9");
    assert_eq!(item_name_string(123), "Item 123");
}

#[test]
fn statuses_by_draw() {
    assert_eq!(status_from_index(0), Status::Active);
    assert_eq!(status_from_index(1), Status::Pending);
    assert_eq!(status_from_index(2), Status::Inactive);
    assert_eq!(Status::Active.as_str(), "Active");
    assert_eq!(Status::Pending.as_str(), "Pending");
    assert_eq!(Status::Inactive.as_str(), "Inactive");
}

#[test]
fn chart_from_given_samples() {
    let c = chart_from_samples(1_700_000_000, vec![-100_000_000, 0, 250_000, 99_999_999, 100_000_000]);
    assert_eq!(c.timestamp, 1_700_000_000);
    assert_eq!(c.values, vec![-100_000_000, 0, 250_000, 99_999_999, 100_000_000]);
    check_chart_shape(&c);
}

#[test]
fn chart_from_no_samples() {
    let c = chart_from_samples(0, vec![]);
    assert_eq!(c.timestamp, 0);
    assert!(c.values.is_empty());
    assert!(c.labels.is_empty());
}

#[test]
fn table_from_given_samples() {
    let values: Vec<i64> = (0..10).map(|i| i * 100_000_000 + 7).collect();
    let statuses: Vec<usize> = (0..10).map(|i| i % 3).collect();
    let t = table_from_samples(values, statuses);
    check_table_shape(&t);
    assert_eq!(t.rows[0].status, Status::Active);
    assert_eq!(t.rows[1].status, Status::Pending);
    assert_eq!(t.rows[2].status, Status::Inactive);
    assert_eq!(t.rows[9].status, Status::Active);
    assert_eq!(t.rows[3].value, 300_000_007);
    assert_eq!(t.rows[9].value, 900_000_007);
}

#[test]
fn generated_chart_shape() {
    for _ in 0..50 {
        check_chart_shape(&generate_chart());
    }
}

#[test]
fn generated_chart_is_timestamped_now() {
    let c = generate_chart();
    assert!(c.timestamp > 1_600_000_000);
}

#[test]
fn generated_values_vary() {
    let c = generate_chart();
    let d = generate_chart();
    assert!(c.values.iter().chain(d.values.iter()).any(|v| *v != c.values[0]));
}

#[test]
fn generated_table_shape() {
    for _ in 0..50 {
        check_table_shape(&generate_table());
    }
}

#[test]
fn tick_publishes_both_snapshots() {
    let store = SnapshotStore::new();
    tick(&store);
    let c = store.read_chart();
    check_chart_shape(&c);
    assert!(c.timestamp > 0);
    check_table_shape(&store.read_table());
}

#[test]
fn constants_and_default_period() {
    assert_eq!(CHART_POINTS, 5);
    assert_eq!(TABLE_ROWS, 10);
    assert_eq!(CHART_VALUE_BOUND, 100_000_000);
    assert_eq!(TABLE_VALUE_LIMIT, 1_000_000_000);
    assert_eq!(DEFAULT_PERIOD_SECS, 5);
    assert_eq!(RefreshConfig::default().period_secs, 5);
}
