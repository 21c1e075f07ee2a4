use toukei::syntax::text::{
    bytes_eq, is_less, find_bytes, find_bytes_from, has_prefix, indent_of, matches_at, split_lines, str_eq,
    trim_bytes,
};
use toukei::utils::path::{contains_bytes, extension_of, file_name_of, is_hidden, path_ends_with};
use toukei::utils::strings::{clone_strings, contains_string, position, split_commas, strings_eq};

#[test]
fn trimming_takes_unicode_white_space_off_both_ends() {
    assert_eq!(trim_bytes(b""), b"");
    assert_eq!(trim_bytes(b"  \t\r\n"), b"");
    assert_eq!(trim_bytes(b" a b "), b"a b");
    assert_eq!(trim_bytes(b"\x0b\x0cx\x0b"), b"x");
    assert_eq!(trim_bytes("\u{85}\u{a0}x\u{1680}\u{2000}\u{200a}".as_bytes()), b"x");
    assert_eq!(trim_bytes("\u{2028}\u{2029}\u{202f}x y\u{205f}\u{3000}".as_bytes()), b"x y");
    // a zero-width space is no white space
    assert_eq!(trim_bytes("\u{200b}x".as_bytes()), "\u{200b}x".as_bytes());
    for text in ["  héllo  ", "\u{3000}日本語\t", "x", " ", "\u{a0}\u{a0}"] {
        assert_eq!(trim_bytes(text.as_bytes()), text.trim().as_bytes());
    }
}

#[test]
fn indentation_is_measured_like_the_leading_white_space() {
    assert_eq!(indent_of(b"   x"), 3);
    assert_eq!(indent_of(b"\tx\t"), 4);
    assert_eq!(indent_of(b" \t "), 6);
}

#[test]
fn the_first_occurrence_is_found() {
    assert_eq!(find_bytes(b"abcabc", b"bc"), Some(1));
    assert_eq!(find_bytes(b"abcabc", b"cb"), None);
    assert_eq!(find_bytes(b"abc", b""), Some(0));
    assert_eq!(find_bytes(b"", b""), Some(0));
    assert_eq!(find_bytes(b"", b"a"), None);
    assert_eq!(find_bytes(b"ab", b"abc"), None);
    assert_eq!(find_bytes_from(b"abcabc", b"bc", 2), Some(4));
    assert_eq!(find_bytes_from(b"abcabc", b"bc", 5), None);
    assert_eq!(find_bytes_from(b"abc", b"", 3), Some(3));
    assert_eq!(find_bytes_from(b"abc", b"", 4), None);
    assert!(has_prefix(b"//x", b"//"));
    assert!(!has_prefix(b"/x", b"//"));
    assert!(matches_at(b"abc", b"c", 2));
    assert!(!matches_at(b"abc", b"c", 3));
    assert!(bytes_eq(b"ab", b"ab"));
    assert!(!bytes_eq(b"ab", b"abc"));
    assert!(str_eq("日本", "日本"));
    assert!(!str_eq("a", "b"));
    assert!(contains_bytes(b"abc", b"b"));
}

#[test]
fn text_is_split_at_line_feeds() {
    assert_eq!(split_lines(b""), Vec::<&[u8]>::new());
    assert_eq!(split_lines(b"\n"), vec![&b""[..]]);
    assert_eq!(split_lines(b"a"), vec![&b"a"[..]]);
    assert_eq!(split_lines(b"a\nb"), vec![&b"a"[..], &b"b"[..]]);
    assert_eq!(split_lines(b"a\r\nb\r\n"), vec![&b"a"[..], &b"b"[..]]);
    assert_eq!(split_lines(b"a\r"), vec![&b"a\r"[..]]);
    assert_eq!(split_lines(b"\n\na\n\n"), vec![&b""[..], &b""[..], &b"a"[..], &b""[..]]);
    let text = "one\ntwo\r\n\nthree";
    let expected: Vec<&str> = text.lines().collect();
    let lines = split_lines(text.as_bytes());
    assert_eq!(lines.len(), expected.len());
    for i in 0..lines.len() {
        assert_eq!(lines[i], expected[i].as_bytes());
    }
}

#[test]
fn file_names_and_extensions() {
    assert_eq!(file_name_of("src/counter.rs"), "counter.rs");
    assert_eq!(file_name_of("./src/counter.rs"), "counter.rs");
    assert_eq!(file_name_of("counter.rs"), "counter.rs");
    assert_eq!(file_name_of("a\\b.c"), "b.c");
    assert_eq!(file_name_of("dir/"), "");
    assert_eq!(extension_of("src/counter.rs"), Some("rs"));
    assert_eq!(extension_of("a.tar.gz"), Some("gz"));
    assert_eq!(extension_of("Makefile"), None);
    assert_eq!(extension_of(".bashrc"), None);
    assert_eq!(extension_of("dir.d/file"), None);
    assert_eq!(extension_of("name."), Some(""));
    assert_eq!(extension_of("日本.語"), Some("語"));
}

#[test]
fn hidden_components_and_path_ends() {
    assert!(is_hidden(b".git/config"));
    assert!(is_hidden(b"a/.b/c"));
    assert!(is_hidden(b"./a"));
    assert!(is_hidden(b"a\\.b"));
    assert!(!is_hidden(b"a.b/c.d"));
    assert!(!is_hidden(b""));
    assert!(path_ends_with(b"a/target/x.rs", b"target/x.rs"));
    assert!(path_ends_with(b"a/target", b"target"));
    assert!(path_ends_with(b"target", b"target"));
    assert!(!path_ends_with(b"a/mytarget", b"target"));
    assert!(!path_ends_with(b"a/target", b""));
    assert!(!path_ends_with(b"t", b"a/t"));
}

#[test]
fn lists_of_strings() {
    let list = vec!["a".to_string(), "b".to_string(), "a".to_string()];
    assert_eq!(clone_strings(&list), list);
    assert!(strings_eq(&list, &clone_strings(&list)));
    assert!(!strings_eq(&list, &vec!["a".to_string()]));
    assert!(contains_string(&list, "b"));
    assert!(!contains_string(&list, "c"));
    assert_eq!(position(&list, "a"), Some(0));
    assert_eq!(position(&list, "b"), Some(1));
    assert_eq!(position(&list, "c"), None);
    assert_eq!(split_commas(""), vec![""]);
    assert_eq!(split_commas(" a , b,c "), vec!["a", "b", "c"]);
    assert_eq!(split_commas(","), vec!["", ""]);
    assert_eq!(split_commas("\u{3000}x\u{a0},y"), vec!["x", "y"]);
}

#[test]
fn white_space_is_what_the_standard_library_calls_white_space() {
    for code in 0..0x11000u32 {
        if let Some(c) = char::from_u32(code) {
            let text = c.to_string();
            assert_eq!(trim_bytes(text.as_bytes()).is_empty(), c.is_whitespace(), "U+{:04X}", code);
            let framed = format!("{}x{}", c, c);
            assert_eq!(trim_bytes(framed.as_bytes()), framed.trim().as_bytes(), "U+{:04X}", code);
            let listed = format!("{}a{},b", c, c);
            let expected: Vec<String> = listed.split(',').map(|s| s.trim().to_string()).collect();
            assert_eq!(split_commas(&listed), expected, "U+{:04X}", code);
        }
    }
}

#[test]
fn names_are_ordered_by_their_bytes() {
    let names = ["", "a", "ab", "b", "B", "é", "日本", "a\u{0}", "~"];
    for a in names {
        for b in names {
            assert_eq!(is_less(a.as_bytes(), b.as_bytes()), a < b, "{:?} {:?}", a, b);
        }
    }
}
