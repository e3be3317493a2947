use snapto::naming::{add_extension, generate_random_string, parse_random_length, replace_all};
use snapto::{generate_filename, TemplateParser};

#[test]
fn test_simple_template() {
    let mut parser = TemplateParser::default();
    let result = parser.generate("screenshot", "png").unwrap();
    assert_eq!(result, "screenshot.png");
}

#[test]
fn test_date_template() {
    let mut parser = TemplateParser::new("%Y".to_string(), "%H".to_string());
    let result = parser.generate("file_{date}", "png").unwrap();
    assert!(result.starts_with("file_"));
    assert!(result.ends_with(".png"));
    assert!(result.len() > 10);
}

#[test]
fn test_uuid_template() {
    let mut parser = TemplateParser::default();
    let result = parser.generate("file_{uuid}", "png").unwrap();
    assert!(result.starts_with("file_"));
    assert!(result.ends_with(".png"));
    assert_eq!(result.len(), 45);
}

#[test]
fn test_random_template() {
    let mut parser = TemplateParser::default();
    let result = parser.generate("file_{random:8}", "png").unwrap();
    assert!(result.starts_with("file_"));
    assert!(result.ends_with(".png"));
    assert_eq!(result.len(), 17);
}

#[test]
fn test_counter_template() {
    let mut parser = TemplateParser::default();
    parser.reset_counter();

    let result1 = parser.generate("file_{counter}", "png").unwrap();
    let result2 = parser.generate("file_{counter}", "png").unwrap();

    assert_eq!(result1, "file_1.png");
    assert_eq!(result2, "file_2.png");
}

#[test]
fn test_complex_template() {
    let mut parser = TemplateParser::new("%Y%m%d".to_string(), "%H%M%S".to_string());
    let result = parser.generate("screenshot_{date}_{time}_{random:4}", "png").unwrap();

    assert!(result.starts_with("screenshot_"));
    assert!(result.ends_with(".png"));
    assert!(result.contains("_"));
}

#[test]
fn test_invalid_random_length() {
    let mut parser = TemplateParser::default();
    let result = parser.generate("file_{random:0}", "png");
    assert!(result.is_err());

    let result = parser.generate("file_{random:100}", "png");
    assert!(result.is_err());
}

#[test]
fn test_malformed_random() {
    let mut parser = TemplateParser::default();
    let result = parser.generate("file_{random:abc}", "png");
    assert!(result.is_err());
}

#[test]
fn test_extension_with_dot() {
    let mut parser = TemplateParser::default();
    let result = parser.generate("file", ".png").unwrap();
    assert_eq!(result, "file.png");
}

#[test]
fn test_empty_extension() {
    let mut parser = TemplateParser::default();
    let result = parser.generate("file", "").unwrap();
    assert_eq!(result, "file");
}

#[test]
fn test_generate_random_string() {
    let s1 = generate_random_string(10);
    let s2 = generate_random_string(10);

    assert_eq!(s1.len(), 10);
    assert_eq!(s2.len(), 10);
    assert_ne!(s1, s2);
    assert!(s1.chars().all(|c| c.is_alphanumeric()));
}

#[test]
fn template_free_name_gets_extension() {
    assert_eq!(generate_filename("shot", "png").unwrap(), "shot.png");
    assert_eq!(generate_filename("shot", ".png").unwrap(), "shot.png");
    assert_eq!(add_extension("shot".to_string(), "..png"), "shot.png");
}

#[test]
fn unclosed_random_placeholder_is_an_error() {
    assert!(generate_filename("file_{random:4", "png").is_err());
}

#[test]
fn random_length_bounds() {
    assert_eq!(parse_random_length("1"), Some(1));
    assert_eq!(parse_random_length("32"), Some(32));
    assert_eq!(parse_random_length("+8"), Some(8));
    assert_eq!(parse_random_length("33"), None);
    assert_eq!(parse_random_length(""), None);
    assert_eq!(parse_random_length("99999999999999999999999"), None);
}

#[test]
fn replace_all_replaces_each_occurrence() {
    assert_eq!(replace_all("a{x}b{x}", "{x}", "12"), "a12b12");
    assert_eq!(replace_all("aaa", "aa", "b"), "ba");
    assert_eq!(replace_all("abc", "", "z"), "abc");
}

#[test]
fn braces_without_placeholders_are_kept() {
    assert_eq!(generate_filename("a{b}c", "png").unwrap(), "a{b}c.png");
}

#[test]
fn counter_text_is_decimal() {
    let mut parser = TemplateParser::default();
    for _ in 0..9 {
        parser.generate("x_{counter}", "").unwrap();
    }
    assert_eq!(parser.generate("n{counter}-{counter}", "").unwrap(), "n10-10");
    assert_eq!(snapto::naming::decimal_text(0), "0");
    assert_eq!(snapto::naming::decimal_text(u64::MAX), "18446744073709551615");
}
