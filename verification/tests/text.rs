use zenbook_duo::text::{chars_of, eq_chars, eq_ignore_case, is_text, split_fields, trim, whitespace};

fn text(v: &[char]) -> String {
    v.iter().collect()
}

#[test]
fn chars_of_keeps_every_character() {
    assert_eq!(chars_of("a/é "), vec!['a', '/', 'é', ' ']);
    assert_eq!(chars_of(""), Vec::<char>::new());
}

#[test]
fn whitespace_agrees_with_the_standard_notion() {
    for code in 0u32..0x3100 {
        if let Some(c) = char::from_u32(code) {
            assert_eq!(whitespace(c), c.is_whitespace(), "code {:#x}", code);
        }
    }
}

#[test]
fn trim_removes_both_ends_only() {
    assert_eq!(text(&trim(&chars_of("  0b05 \n"))), "0b05");
    assert_eq!(text(&trim(&chars_of("\t a b \u{a0}"))), "a b");
    assert_eq!(text(&trim(&chars_of("   "))), "");
    assert_eq!(text(&trim(&chars_of(""))), "");
    assert_eq!(text(&trim(&chars_of("x"))), "x");
}

#[test]
fn trim_agrees_with_the_standard_trim() {
    for s in [" a", "a ", " a b ", "\u{2003}x\u{3000}", "\r\n", "é ", " \u{85}q\u{1680} "] {
        assert_eq!(text(&trim(&chars_of(s))), s.trim());
    }
}

#[test]
fn case_is_ignored_for_ascii_letters_only() {
    assert!(eq_ignore_case(&chars_of("0B05"), &chars_of("0b05")));
    assert!(eq_ignore_case(&chars_of("AbZ"), &chars_of("aBz")));
    assert!(eq_ignore_case(&chars_of(""), &chars_of("")));
    assert!(!eq_ignore_case(&chars_of("0b05"), &chars_of("b05")));
    assert!(!eq_ignore_case(&chars_of("É"), &chars_of("é")));
    assert!(!eq_ignore_case(&chars_of("@"), &chars_of("`")));
    assert!(!eq_ignore_case(&chars_of("["), &chars_of("{")));
    assert!(!eq_ignore_case(&chars_of("ab"), &chars_of("abc")));
}

#[test]
fn case_folding_agrees_with_the_standard_comparison() {
    let samples = ["", "a", "A", "Z", "z", "[", "{", "@", "`", "0b05", "0B05", "é", "É", "K"];
    for a in samples {
        for b in samples {
            assert_eq!(eq_ignore_case(&chars_of(a), &chars_of(b)), a.eq_ignore_ascii_case(b));
        }
    }
}

#[test]
fn exact_comparison_tells_texts_apart() {
    assert!(eq_chars(&chars_of("PRODUCT"), &chars_of("PRODUCT")));
    assert!(!eq_chars(&chars_of("PRODUCT"), &chars_of("product")));
    assert!(!eq_chars(&chars_of("ab"), &chars_of("a")));
    assert!(is_text(&chars_of("ID_MODEL"), "ID_MODEL"));
    assert!(!is_text(&chars_of("ID_MODEL"), "ID_MODEL_ID"));
}

#[test]
fn split_gives_one_more_field_than_separators() {
    let fields = |s: &str| -> Vec<String> {
        split_fields(&chars_of(s), '/').iter().map(|f| text(f)).collect()
    };
    assert_eq!(fields("0b05/1bf2/100"), vec!["0b05", "1bf2", "100"]);
    assert_eq!(fields(""), vec![""]);
    assert_eq!(fields("/"), vec!["", ""]);
    assert_eq!(fields("a//b/"), vec!["a", "", "b", ""]);
    assert_eq!(fields("abc"), vec!["abc"]);
}

#[test]
fn split_agrees_with_the_standard_split() {
    for s in ["", "/", "//", "a", "a/b", "/a/b/", "x/é/y", "0b05/1bf2/100"] {
        let ours: Vec<String> = split_fields(&chars_of(s), '/').iter().map(|f| text(f)).collect();
        let theirs: Vec<String> = s.split('/').map(|f| f.to_string()).collect();
        assert_eq!(ours, theirs);
    }
}
