use taskboard::config::{parse_color, Color, Config, RawConfig};
use taskboard::menu::text_less_eq;
use taskboard::text::{format_count, parse_unsigned, split_labels};

#[test]
fn parse_unsigned_reads_decimal_numbers() {
    assert_eq!(parse_unsigned("0"), Some(0));
    assert_eq!(parse_unsigned("42"), Some(42));
    assert_eq!(parse_unsigned("+7"), Some(7));
    assert_eq!(parse_unsigned("007"), Some(7));
    assert_eq!(parse_unsigned(""), None);
    assert_eq!(parse_unsigned("+"), None);
    assert_eq!(parse_unsigned("-1"), None);
    assert_eq!(parse_unsigned("1a"), None);
    assert_eq!(parse_unsigned(" 1"), None);
}

#[test]
fn parse_unsigned_matches_std_at_the_limit() {
    let max = usize::MAX.to_string();
    assert_eq!(parse_unsigned(&max), Some(usize::MAX));
    let over = format!("{}0", max);
    assert_eq!(parse_unsigned(&over), None);
    for s in ["18446744073709551616", "99999999999999999999999", "12", "+0", "x"] {
        assert_eq!(parse_unsigned(s), s.parse::<usize>().ok());
    }
}

#[test]
fn labels_split_on_commas_without_spaces() {
    assert_eq!(split_labels("a, b ,c"), vec!["a".to_string(), "b".to_string(), "c".to_string()]);
    assert_eq!(split_labels(""), vec![String::new()]);
    assert_eq!(split_labels("a,,b"), vec!["a".to_string(), String::new(), "b".to_string()]);
    assert_eq!(split_labels(" x y "), vec!["xy".to_string()]);
}

#[test]
fn counts_are_written_in_decimal() {
    assert_eq!(format_count(0), "0");
    assert_eq!(format_count(7), "7");
    assert_eq!(format_count(10), "10");
    assert_eq!(format_count(1234), "1234");
    assert_eq!(format_count(usize::MAX), usize::MAX.to_string());
}

#[test]
fn colors_read_as_three_channels() {
    assert_eq!(parse_color("210, 39, 48"), Some(Color::Rgb(210, 39, 48)));
    assert_eq!(parse_color("1,2,3,4"), Some(Color::Rgb(1, 2, 3)));
    assert_eq!(parse_color("1,2"), None);
    assert_eq!(parse_color("256,0,0"), None);
    assert_eq!(parse_color("a,0,0"), None);
}

#[test]
fn config_keeps_token_and_reads_color() {
    let raw = RawConfig { token: "abc123".to_string(), color: "210, 39, 48".to_string() };
    let config = Config::new(raw);
    assert_eq!(config.token, "abc123");
    assert_eq!(config.color, Color::Rgb(210, 39, 48));
}

#[test]
fn texts_order_like_strings() {
    let pairs = [("", ""), ("", "a"), ("a", ""), ("ab", "abc"), ("abd", "abc"), ("b", "abc"), ("é", "z")];
    for (a, b) in pairs {
        let (a, b) = (a.to_string(), b.to_string());
        assert_eq!(text_less_eq(&a, &b), a <= b);
    }
}
