use minetui::text::{
    contains_text, ends_with_text, is_blank, join_text, or_if_blank, parse_u32, replace_char_text,
    same_text, sanitize_folder_name, split_text, u32_to_string,
};

#[test]
fn decimal_rendering() {
    assert_eq!(u32_to_string(0), "0");
    assert_eq!(u32_to_string(7), "7");
    assert_eq!(u32_to_string(4096), "4096");
    assert_eq!(u32_to_string(u32::MAX), "4294967295");
}

#[test]
fn parse_accepts_what_std_accepts() {
    assert_eq!(parse_u32("4096"), Some(4096));
    assert_eq!(parse_u32("+12"), Some(12));
    assert_eq!(parse_u32("007"), Some(7));
    assert_eq!(parse_u32("4294967295"), Some(u32::MAX));
    for s in ["4096", "+12", "007", "4294967295", "0"] {
        assert_eq!(parse_u32(s), s.parse::<u32>().ok());
    }
}

#[test]
fn parse_rejects_what_std_rejects() {
    for s in ["", "+", "-1", "4294967296", "12a", " 1", "++1", "99999999999999999999"] {
        assert_eq!(parse_u32(s), None, "{s:?}");
        assert!(s.parse::<u32>().is_err());
    }
}

#[test]
fn render_then_parse_round_trip() {
    for n in [0u32, 1, 9, 10, 1024, 6144, 65535, u32::MAX] {
        assert_eq!(parse_u32(&u32_to_string(n)), Some(n));
    }
}

#[test]
fn blank_strings() {
    assert!(is_blank(""));
    assert!(is_blank("  \t\n"));
    assert!(!is_blank(" java "));
    assert_eq!(or_if_blank("   ", "java"), "java");
    assert_eq!(or_if_blank("/usr/bin/java", "java"), "/usr/bin/java");
}

#[test]
fn folder_names_keep_letters_digits_and_spaces() {
    assert_eq!(sanitize_folder_name("Minecraft 1.20.1"), "Minecraft_1201");
    assert_eq!(sanitize_folder_name("My Pack! (v2)"), "My_Pack_v2");
    assert_eq!(sanitize_folder_name("Élan vital"), "Élan_vital");
    assert_eq!(sanitize_folder_name(""), "");
    for c in sanitize_folder_name("a-b c/d\\e:f").chars() {
        assert!(c.is_alphanumeric() || c == '_');
    }
}

#[test]
fn split_like_str_split() {
    for (s, sep) in [("net.fabricmc:fabric-loader:0.15.0", ':'), ("", ':'), ("a::b:", ':'), ("abc", ':')] {
        let expected: Vec<String> = s.split(sep).map(|p| p.to_string()).collect();
        assert_eq!(split_text(s, sep), expected);
    }
}

#[test]
fn replace_and_join() {
    assert_eq!(replace_char_text("net.fabricmc", '.', '/'), "net/fabricmc");
    let parts = vec!["a".to_string(), "b".to_string(), "c".to_string()];
    assert_eq!(join_text(&parts, ":"), "a:b:c");
    assert_eq!(join_text(&Vec::new(), ":"), "");
    assert_eq!(join_text(&vec!["only".to_string()], ", "), "only");
}

#[test]
fn comparisons() {
    assert!(same_text("release", "release"));
    assert!(!same_text("release", "releases"));
    assert!(ends_with_text("pack.mrpack", ".mrpack"));
    assert!(!ends_with_text("pack.zip", ".mrpack"));
    assert!(!ends_with_text("rpack", ".mrpack"));
    assert!(contains_text("META-INF/MANIFEST.MF", "META-INF"));
    assert!(contains_text("x/META-INF", "META-INF"));
    assert!(!contains_text("liblwjgl.so", "META-INF"));
    assert!(contains_text("anything", ""));
}
