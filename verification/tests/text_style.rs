use mixxc::error::StyleError;
use mixxc::style::{find_var, set_color, set_var, style_source, StyleSettings, StyleSource};
use mixxc::text::{ascii_lowercase, bytes_eq, find_byte_from, find_sub, parse_u32};

#[test]
fn parse_u32_reads_plain_decimals() {
    assert_eq!(parse_u32("0"), Some(0));
    assert_eq!(parse_u32("4242"), Some(4242));
    assert_eq!(parse_u32("+17"), Some(17));
    assert_eq!(parse_u32("4294967295"), Some(u32::MAX));
}

#[test]
fn parse_u32_refuses_everything_else() {
    assert_eq!(parse_u32(""), None);
    assert_eq!(parse_u32("+"), None);
    assert_eq!(parse_u32("-1"), None);
    assert_eq!(parse_u32("12a"), None);
    assert_eq!(parse_u32(" 12"), None);
    assert_eq!(parse_u32("4294967296"), None);
    assert_eq!(parse_u32("999999999999999"), None);
}

#[test]
fn find_sub_yields_the_first_occurrence() {
    let hay = b"abcabc".to_vec();
    assert_eq!(find_sub(&hay, &b"abc".to_vec()), Some(0));
    assert_eq!(find_sub(&hay, &b"cab".to_vec()), Some(2));
    assert_eq!(find_sub(&hay, &b"x".to_vec()), None);
    assert_eq!(find_sub(&hay, &Vec::new()), Some(0));
    assert_eq!(find_sub(&Vec::new(), &b"a".to_vec()), None);
}

#[test]
fn find_byte_from_scans_forward_only() {
    let hay = b"a;b;".to_vec();
    assert_eq!(find_byte_from(&hay, b';', 0), Some(1));
    assert_eq!(find_byte_from(&hay, b';', 2), Some(3));
    assert_eq!(find_byte_from(&hay, b';', 4), None);
    assert_eq!(find_byte_from(&hay, b'x', 0), None);
}

#[test]
fn ascii_lowercase_folds_only_ascii_letters() {
    assert_eq!(ascii_lowercase(&b"HDMI-Port 2!".to_vec()), b"hdmi-port 2!".to_vec());
}

#[test]
fn bytes_eq_compares_contents() {
    assert!(bytes_eq(&b"abc".to_vec(), &b"abc".to_vec()));
    assert!(!bytes_eq(&b"abc".to_vec(), &b"abd".to_vec()));
    assert!(!bytes_eq(&b"abc".to_vec(), &b"ab".to_vec()));
}

#[test]
fn find_var_locates_the_declaration() {
    let sheet = b".a { color: red; }\n:root { --accent: #000000; }".to_vec();
    let range = find_var(&sheet, &b"accent".to_vec());
    let (start, end) = range.expect("the sheet declares the variable");
    assert_eq!(&sheet[start..start + 9], b"--accent:");
    assert_eq!(sheet[end], b';');
    assert_eq!(find_var(&sheet, &b"other".to_vec()), None);
    let unclosed = b"--accent: #000000".to_vec();
    assert_eq!(find_var(&unclosed, &b"accent".to_vec()), None);
}

#[test]
fn set_var_rewrites_up_to_the_semicolon() {
    let sheet = b"x; --accent: red; y".to_vec();
    let out = set_var(&sheet, &b"accent".to_vec(), &b"blue".to_vec()).unwrap();
    assert_eq!(out, b"x; --accent: blue; y".to_vec());
    assert!(set_var(&sheet, &b"missing".to_vec(), &b"blue".to_vec()).is_none());
}

#[test]
fn set_color_writes_upper_case_hex() {
    let sheet = b"--accent: red;".to_vec();
    let out = set_color(&sheet, &b"accent".to_vec(), 0x0A, 0xFF, 0x00).unwrap();
    assert_eq!(out, b"--accent: #0AFF00;".to_vec());
}

#[test]
fn style_source_decides_by_extension() {
    assert_eq!(style_source(Some(&b"sass".to_vec())), Ok(StyleSource::Sass));
    assert_eq!(style_source(Some(&b"scss".to_vec())), Ok(StyleSource::Sass));
    assert_eq!(style_source(Some(&b"css".to_vec())), Ok(StyleSource::Css));
    assert_eq!(style_source(Some(&b"txt".to_vec())), Err(StyleError::Extension));
    assert_eq!(style_source(None), Err(StyleError::Extension));
}

#[test]
fn style_settings_default_leaves_accent_off() {
    let settings = StyleSettings::default();
    assert!(!settings.accent);
}
