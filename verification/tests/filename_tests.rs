use imgup::filename::{fresh_stem, make_filename, stem_for, with_extension, TimeParts};

fn stem_matches_pattern(s: &str) -> bool {
    let chars: Vec<char> = s.chars().collect();
    chars.len() == 20
        && chars[..14].iter().all(|c| c.is_ascii_digit())
        && chars[14] == '_'
        && chars[15..].iter().all(|c| c.is_ascii_digit())
}

#[test]
fn renders_time_and_suffix_zero_padded() {
    let t = TimeParts { year: 2024, month: 1, day: 8, hour: 19, minute: 50, second: 24 };
    assert_eq!(make_filename(&t, 79177), "20240108195024_79177");
}

#[test]
fn pads_every_field() {
    let t = TimeParts { year: 987, month: 12, day: 3, hour: 0, minute: 5, second: 9 };
    assert_eq!(make_filename(&t, 10000), "09871203000509_10000");
}

#[test]
fn fresh_stem_matches_pattern() {
    let s = fresh_stem().unwrap();
    assert!(stem_matches_pattern(&s), "stem {:?} does not match the pattern", s);
    let s2 = fresh_stem().unwrap();
    assert!(stem_matches_pattern(&s2));
}

#[test]
fn stem_comes_back_for_a_four_digit_year() {
    assert_eq!(
        stem_for(2024, 1, 8, 19, 50, 24, 79177).as_deref(),
        Some("20240108195024_79177")
    );
}

#[test]
fn no_stem_for_a_year_outside_four_digits() {
    assert_eq!(stem_for(-1, 1, 8, 19, 50, 24, 79177), None);
    assert_eq!(stem_for(10000, 1, 8, 19, 50, 24, 79177), None);
}

#[test]
fn appends_extension() {
    assert_eq!(with_extension("20240108195024_79177", "png"), "20240108195024_79177.png");
}
