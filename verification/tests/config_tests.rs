use image_labeler::color::{parse_hex_color, white, Color};
use image_labeler::config::{parse_args, resolve_config, usage_text, Error};

fn strings(v: &[&str]) -> Vec<String> {
    v.iter().map(|s| s.to_string()).collect()
}

#[test]
fn defaults_when_options_omitted() {
    let r = resolve_config(strings(&["img.png", "hello"]), None, None).unwrap();
    assert_eq!(r.image_path, "img.png");
    assert_eq!(r.label_text, "hello");
    assert_eq!(r.text_color, Color { r: 255, g: 255, b: 255, a: 255 });
    assert_eq!(r.output_dir, "./annotated");
}

#[test]
fn zero_positional_args_is_usage_error() {
    let r = resolve_config(strings(&[]), None, None);
    assert!(matches!(r, Err(Error::WrongArgCount)));
}

#[test]
fn three_positional_args_is_usage_error() {
    let r = resolve_config(strings(&["a", "b", "c"]), None, None);
    assert!(matches!(r, Err(Error::WrongArgCount)));
}

#[test]
fn color_and_output_dir_overrides() {
    let r = resolve_config(
        strings(&["photo.jpg", "label"]),
        Some("#FF0000".to_string()),
        Some("out".to_string()),
    )
    .unwrap();
    assert_eq!(r.text_color, Color { r: 255, g: 0, b: 0, a: 255 });
    assert_eq!(r.output_dir, "out");
}

#[test]
fn malformed_color_is_rejected() {
    let r = resolve_config(strings(&["a", "b"]), Some("red".to_string()), None);
    assert!(matches!(r, Err(Error::InvalidColor(_))));
}

#[test]
fn parse_args_full_pipeline_defaults() {
    let r = parse_args(&strings(&["img.png", "hello"])).unwrap();
    assert_eq!(r.image_path, "img.png");
    assert_eq!(r.label_text, "hello");
    assert_eq!(r.text_color, white());
    assert_eq!(r.output_dir, "./annotated");
}

#[test]
fn parse_args_reads_short_options() {
    let r = parse_args(&strings(&["-c", "#01A2b3", "-o", "out", "img.png", "x"])).unwrap();
    assert_eq!(r.text_color, Color { r: 0x01, g: 0xA2, b: 0xB3, a: 255 });
    assert_eq!(r.output_dir, "out");
}

#[test]
fn parse_args_reads_long_options() {
    let r = parse_args(&strings(&["--color=#000000", "--output-dir=d", "a", "b"])).unwrap();
    assert_eq!(r.text_color, Color { r: 0, g: 0, b: 0, a: 255 });
    assert_eq!(r.output_dir, "d");
}

#[test]
fn parse_args_unknown_option_is_syntax_error() {
    let r = parse_args(&strings(&["-x", "a", "b"]));
    assert!(matches!(r, Err(Error::BadOptionSyntax(_))));
}

#[test]
fn parse_args_wrong_arity_after_options() {
    let r = parse_args(&strings(&["-c", "#FFFFFF", "only-one"]));
    assert!(matches!(r, Err(Error::WrongArgCount)));
}

#[test]
fn usage_text_names_the_options() {
    let u = usage_text("prog");
    assert!(u.contains("Usage: prog IMAGE_FILE LABEL_TEXT [options]"));
    assert!(u.contains("--output-dir"));
    assert!(u.contains("--color"));
}

#[test]
fn error_messages_are_descriptive() {
    assert!(Error::WrongArgCount.message().contains("two arguments"));
    assert!(Error::FontParse.message().contains("font"));
    assert!(Error::InvalidColor("zz".to_string()).message().contains("zz"));
}

#[test]
fn hex_color_parses_mixed_case() {
    assert_eq!(
        parse_hex_color("#f1A282"),
        Some(Color { r: 241, g: 162, b: 130, a: 255 })
    );
}

#[test]
fn hex_color_rejects_bad_forms() {
    assert_eq!(parse_hex_color("FFFFFF"), None);
    assert_eq!(parse_hex_color("#FFF"), None);
    assert_eq!(parse_hex_color("#GGGGGG"), None);
    assert_eq!(parse_hex_color(""), None);
    assert_eq!(parse_hex_color("#FFFFFFF"), None);
}
