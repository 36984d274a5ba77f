use cleanslate_qa::size::{parse_size, first_size_index, SizeToken};
use cleanslate_qa::text::decimal_text;

fn scaled(word: &str) -> Option<(String, u32)> {
    match parse_size(word) {
        SizeToken::Scaled { number, power } => Some((number, power)),
        _ => None,
    }
}

fn bytes(word: &str) -> Option<u64> {
    match parse_size(word) {
        SizeToken::Bytes(n) => Some(n),
        _ => None,
    }
}

fn not_a_size(word: &str) -> bool {
    matches!(parse_size(word), SizeToken::NotASize)
}

#[test]
fn plain_numbers_are_byte_counts() {
    assert_eq!(bytes("512"), Some(512));
    assert_eq!(bytes("0"), Some(0));
    assert_eq!(bytes("007"), Some(7));
    assert_eq!(bytes("+7"), Some(7));
    assert_eq!(bytes("18446744073709551615"), Some(u64::MAX));
    assert_eq!(bytes(" \t12\n"), Some(12));
}

#[test]
fn malformed_plain_numbers_are_not_sizes() {
    assert!(not_a_size("-7"));
    assert!(not_a_size("+"));
    assert!(not_a_size(""));
    assert!(not_a_size("   "));
    assert!(not_a_size("18446744073709551616"));
    assert!(not_a_size("12a"));
    assert!(not_a_size("1.5"));
    assert!(not_a_size("take"));
}

#[test]
fn unit_suffixes_scale() {
    assert_eq!(scaled("1.5G"), Some(("1.5".to_string(), 3)));
    assert_eq!(scaled("40m"), Some(("40".to_string(), 2)));
    assert_eq!(scaled("8K"), Some(("8".to_string(), 1)));
    assert_eq!(scaled("2g"), Some(("2".to_string(), 3)));
    assert_eq!(scaled(".5k"), Some((".5".to_string(), 1)));
    assert_eq!(scaled("5.M"), Some(("5.".to_string(), 2)));
    assert_eq!(scaled("1e3K"), Some(("1e3".to_string(), 1)));
    assert_eq!(scaled("-2.5E-1G"), Some(("-2.5E-1".to_string(), 3)));
    assert_eq!(scaled("infG"), Some(("inf".to_string(), 3)));
    assert_eq!(scaled("+InfinityM"), Some(("+Infinity".to_string(), 2)));
    assert_eq!(scaled("NaNk"), Some(("NaN".to_string(), 1)));
}

#[test]
fn unit_suffix_without_number_is_not_a_size() {
    assert!(not_a_size("G"));
    assert!(not_a_size("abcK"));
    assert!(not_a_size(".G"));
    assert!(not_a_size("1.2.3M"));
    assert!(not_a_size("e5K"));
    assert!(not_a_size("1e+K"));
    assert!(not_a_size("in fG"));
    assert!(not_a_size("12 G"));
}

#[test]
fn scaled_literals_agree_with_float_parsing() {
    for word in ["1.5", "40", ".5", "5.", "1e3", "-2.5E-1", "inf", "+Infinity", "NaN", ".", "e5", "1e+", "1.2.3", "abc", "", "+", "infinit"] {
        let with_unit = format!("{}G", word);
        assert_eq!(scaled(&with_unit).is_some(), word.parse::<f64>().is_ok(), "{}", word);
    }
}

#[test]
fn journalctl_sentence_finds_the_size_word() {
    let text = "Archived and active journals take up 1.5G in the file system.";
    let words: Vec<String> = text.split_whitespace().map(|w| w.to_string()).collect();
    assert_eq!(first_size_index(&words), Some(6));
    let none: Vec<String> = vec!["no".to_string(), "sizes".to_string(), "G".to_string()];
    assert_eq!(first_size_index(&none), None);
    assert_eq!(first_size_index(&Vec::new()), None);
}

#[test]
fn decimal_rendering_reads_back() {
    for n in [0u64, 7, 10, 99, 100, 1234567890, u64::MAX] {
        let t = decimal_text(n);
        assert_eq!(t, n.to_string());
        assert_eq!(bytes(&t), Some(n));
    }
}
