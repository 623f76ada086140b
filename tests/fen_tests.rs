use chessboard::fen::{is_whitespace, parse_number, split_fields};

#[test]
fn splits_at_runs_of_white_space() {
    let f = split_fields("  a bc\t\n d\u{3000}e ");
    let want: Vec<Vec<char>> = vec![vec!['a'], vec!['b', 'c'], vec!['d'], vec!['e']];
    assert_eq!(f, want);
    assert!(split_fields("   ").is_empty());
    assert!(is_whitespace('\u{a0}'));
    assert!(!is_whitespace('x'));
}

#[test]
fn parses_unsigned_numbers() {
    assert_eq!(parse_number(&vec!['4', '2']), Some(42));
    assert_eq!(parse_number(&vec!['+', '7']), Some(7));
    assert_eq!(parse_number(&vec!['+']), None);
    assert_eq!(parse_number(&vec![]), None);
    assert_eq!(parse_number(&vec!['-', '1']), None);
    assert_eq!(parse_number(&"4294967295".chars().collect()), Some(u32::MAX));
    assert_eq!(parse_number(&"4294967296".chars().collect()), None);
}
