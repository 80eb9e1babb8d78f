use legalminds_frontend::canvas::{canvas_tick_labels, hotspot_labels, CanvasHotspot};
use legalminds_frontend::timeline::{
    date_text, month_day_text, open_window, parse_date, FIRST_DATE_DAY, LAST_DATE_DAY,
};

#[test]
fn day_numbers_write_back_as_dates() {
    let day = parse_date("2024-03-01").unwrap();
    assert_eq!(date_text(day), "2024-03-01");
    assert_eq!(month_day_text(day), "03-01");
    assert_eq!(date_text(1), "0001-01-01");
}

#[test]
fn the_date_range_ends_where_chrono_does() {
    assert!(!date_text(FIRST_DATE_DAY).is_empty());
    assert!(!date_text(LAST_DATE_DAY).is_empty());
    assert!(chrono::NaiveDate::from_num_days_from_ce_opt(FIRST_DATE_DAY - 1).is_none());
    assert!(chrono::NaiveDate::from_num_days_from_ce_opt(LAST_DATE_DAY + 1).is_none());
}

#[test]
fn opening_a_node_shows_a_week_either_side() {
    let day = parse_date("2024-03-01").unwrap();
    assert_eq!(open_window(day), ("2024-02-23".to_string(), "2024-03-08".to_string()));
}

#[test]
fn ticks_and_hotspots_are_labelled_by_date() {
    let start = parse_date("2024-02-25").unwrap() as i64;
    assert_eq!(
        canvas_tick_labels(start, 10, 4),
        vec!["02-25".to_string(), "02-29".to_string(), "03-04".to_string()]
    );
    let day = parse_date("2024-03-01").unwrap();
    assert_eq!(hotspot_labels(&vec![CanvasHotspot { day, count: 2 }]), vec!["2024-03-01".to_string()]);
}
