use arcade::highscore::{high_score_from, parse_high_score, record_score};

#[test]
fn stored_number_is_read_back() {
    assert_eq!(parse_high_score("42"), 42);
    assert_eq!(parse_high_score("0"), 0);
    assert_eq!(parse_high_score("-5"), -5);
    assert_eq!(parse_high_score("+7"), 7);
    assert_eq!(parse_high_score("2147483647"), i32::MAX);
    assert_eq!(parse_high_score("-2147483648"), i32::MIN);
}

#[test]
fn white_space_around_the_number_is_ignored() {
    assert_eq!(parse_high_score(" 17\n"), 17);
    assert_eq!(parse_high_score("\t\r\n 300 \n\n"), 300);
}

#[test]
fn text_without_a_number_reads_as_zero() {
    assert_eq!(parse_high_score(""), 0);
    assert_eq!(parse_high_score("   "), 0);
    assert_eq!(parse_high_score("abc"), 0);
    assert_eq!(parse_high_score("4 2"), 0);
    assert_eq!(parse_high_score("12.5"), 0);
    assert_eq!(parse_high_score("-"), 0);
    assert_eq!(parse_high_score("2147483648"), 0);
    assert_eq!(parse_high_score("99999999999999999999"), 0);
}

#[test]
fn reading_that_failed_stands_for_zero() {
    assert_eq!(high_score_from(None), 0);
    assert_eq!(high_score_from(Some(0)), 0);
    assert_eq!(high_score_from(Some(31)), 31);
    assert_eq!(high_score_from(Some(-4)), -4);
}

#[test]
fn higher_score_replaces_the_best_one() {
    let mut best = 10;
    assert!(record_score(11, &mut best));
    assert_eq!(best, 11);
    assert!(!record_score(11, &mut best));
    assert_eq!(best, 11);
    assert!(!record_score(3, &mut best));
    assert_eq!(best, 11);
    let mut best = i32::MIN;
    assert!(record_score(i32::MAX, &mut best));
    assert_eq!(best, i32::MAX);
}
