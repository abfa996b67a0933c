use slack_vacation::dates::{format_mm_dd, marker_date, tomorrow};

#[test]
fn format_pads_both_fields() {
    assert_eq!(format_mm_dd(4, 1), "04/01");
}

#[test]
fn format_keeps_two_digit_fields() {
    assert_eq!(format_mm_dd(12, 31), "12/31");
}

#[test]
fn format_mixed_padding() {
    assert_eq!(format_mm_dd(1, 23), "01/23");
    assert_eq!(format_mm_dd(10, 5), "10/05");
}

#[test]
fn tomorrow_is_a_padded_month_day() {
    let t = tomorrow().expect("tomorrow should be representable");
    let chars: Vec<char> = t.chars().collect();
    assert_eq!(chars.len(), 5);
    assert_eq!(chars[2], '/');
    let month: u32 = t[0..2].parse().expect("month digits");
    let day: u32 = t[3..5].parse().expect("day digits");
    assert!((1..=12).contains(&month));
    assert!((1..=31).contains(&day));
}

#[test]
fn marker_date_prefers_given_date() {
    let given = Some(String::from("12/24"));
    assert_eq!(marker_date(given), Some(String::from("12/24")));
}

#[test]
fn marker_date_defaults_to_a_padded_month_day() {
    let d = marker_date(None).expect("tomorrow should be representable");
    let chars: Vec<char> = d.chars().collect();
    assert_eq!(chars.len(), 5);
    assert_eq!(chars[2], '/');
}
