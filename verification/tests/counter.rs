use toukei::config::Config;
use toukei::counter::{Counter, CounterError};
use toukei::langs::lang_type::LangType;
use toukei::langs::registry::{display_name, get_class_regex, get_function_regex, get_lang_def, get_type_from_ext, supported_languages};
use toukei::walker::FileReader;

#[test]
fn a_file_is_counted_by_the_rules_of_its_extension() {
    let counter = Counter::new(Config::new());
    let stat = counter.count_bytes("./src/main.RS", b"// c\nfn main() {\n}\n\n").unwrap();
    assert_eq!(stat.lang, LangType::Rust);
    assert_eq!(stat.path, "./src/main.RS");
    assert_eq!(stat.name, "main.RS");
    assert_eq!((stat.lines, stat.comments, stat.code, stat.blanks, stat.functions), (4, 1, 2, 1, 2));
    let stat = counter.count_bytes("x.py", b"def f():\n    pass\n").unwrap();
    assert_eq!((stat.lang, stat.functions), (LangType::Python, 2));
    let stat = counter.count_bytes("README.md", b"a\n\nb").unwrap();
    assert_eq!((stat.lang, stat.lines, stat.code, stat.blanks), (LangType::Markdown, 3, 2, 1));
}

#[test]
fn an_empty_file_counts_nothing() {
    let counter = Counter::new(Config::new());
    let stat = counter.count_bytes("empty.c", b"").unwrap();
    assert_eq!((stat.lines, stat.blanks, stat.code, stat.comments, stat.functions, stat.classes), (0, 0, 0, 0, 0, 0));
    assert_eq!(stat.name, "empty.c");
}

#[test]
fn an_unknown_extension_is_a_lex_error() {
    let counter = Counter::new(Config::new());
    for path in ["a.XyZ", "Makefile", ".hidden", "dir.rs/file"] {
        assert!(matches!(counter.count_bytes(path, b"x"), Err(CounterError::LexError(_))));
    }
    let error = counter.count_bytes("a.XyZ", b"\0").unwrap_err();
    assert_eq!(error.to_string(), "Lexing Error: Unknown language for extension: xyz");
    let error = Counter::language_of("Makefile").unwrap_err();
    assert_eq!(error.to_string(), "Lexing Error: Unknown language for extension: ");
    assert_eq!(Counter::language_of("a/b.Kt").unwrap(), LangType::Kotlin);
}

#[test]
fn a_zero_byte_among_the_first_1024_makes_a_file_binary() {
    let counter = Counter::new(Config::new());
    assert!(!Counter::is_binary_file(b""));
    assert!(!Counter::is_binary_file(b"text"));
    assert!(Counter::is_binary_file(b"te\0xt"));
    let mut bytes = vec![b'a'; 1023];
    bytes.push(0);
    assert!(Counter::is_binary_file(&bytes));
    assert!(matches!(counter.count_bytes("a.rs", &bytes), Err(CounterError::BinaryFile)));
    let mut bytes = vec![b'a'; 1024];
    bytes.push(0);
    assert!(!Counter::is_binary_file(&bytes));
    assert!(counter.count_bytes("a.rs", &bytes).is_ok());
    assert_eq!(CounterError::BinaryFile.to_string(), "Binary file detected");
}

#[test]
fn text_in_utf_16_is_transcoded_by_its_byte_order_mark() {
    let counter = Counter::new(Config::new());
    // "// c\nx\n" in UTF-16LE behind its byte-order mark; the zero bytes lie within the first 1024
    let mut bytes: Vec<u8> = vec![0xFF, 0xFE];
    for unit in "// c\nx\n".encode_utf16() {
        bytes.push((unit & 0xFF) as u8);
        bytes.push((unit >> 8) as u8);
    }
    assert!(matches!(counter.count_bytes("a.rs", &bytes), Err(CounterError::BinaryFile)));
    // without zero bytes among the first 1024 the text is decoded: a first line of
    // six hundred narrow no-break spaces, a comment and a line of code
    let mut bytes: Vec<u8> = vec![0xFF, 0xFE];
    for _ in 0..600 {
        bytes.extend_from_slice(&[0x2F, 0x20]);
    }
    for unit in "\n// c\nx\n".encode_utf16() {
        bytes.push((unit & 0xFF) as u8);
        bytes.push((unit >> 8) as u8);
    }
    let stat = counter.count_bytes("a.rs", &bytes).unwrap();
    assert_eq!((stat.lines, stat.blanks, stat.comments, stat.code), (3, 1, 1, 1));
}

#[test]
fn malformed_text_is_read_all_the_same() {
    let counter = Counter::new(Config::new());
    let stat = counter.count_bytes("a.rs", b"fn a() {}\n\xff\xfe\xfd\n// \xc3\n").unwrap();
    assert_eq!((stat.lines, stat.code, stat.comments), (3, 2, 1));
    // a byte-order mark of UTF-8 is no part of the text
    let stat = counter.count_bytes("a.rs", b"\xef\xbb\xbf// c\n").unwrap();
    assert_eq!((stat.lines, stat.comments), (1, 1));
    // a malformed byte is read as a replacement character, which a signature may hold
    let stat = counter.count_bytes("a.c", b"int f(\xff) {\n}\n").unwrap();
    assert_eq!((stat.lines, stat.code, stat.functions), (2, 2, 2));
}

#[test]
fn extensions_resolve_to_the_first_language_that_lists_them() {
    assert_eq!(get_type_from_ext("rs"), Some(LangType::Rust));
    assert_eq!(get_type_from_ext("c"), Some(LangType::C));
    assert_eq!(get_type_from_ext("h"), Some(LangType::C));
    assert_eq!(get_type_from_ext("hpp"), Some(LangType::Cpp));
    assert_eq!(get_type_from_ext("xhtml"), Some(LangType::Html));
    assert_eq!(get_type_from_ext("py"), Some(LangType::Python));
    assert_eq!(get_type_from_ext("wy"), Some(LangType::WenYan));
    assert_eq!(get_type_from_ext("R"), Some(LangType::R));
    assert_eq!(get_type_from_ext("RS"), None);
    assert_eq!(get_type_from_ext(""), None);
    assert_eq!(get_type_from_ext("exe"), None);
}

#[test]
fn every_language_but_unknown_has_a_definition_whose_patterns_compile() {
    let names = supported_languages();
    assert_eq!(names.len(), 53);
    for i in 0..53 {
        let lang = LangType::from_index(i);
        assert_eq!(lang.index(), i);
        assert_eq!(lang.name(), names[i]);
        assert_eq!(lang.to_string(), names[i]);
        if lang == LangType::Unknown {
            assert!(get_lang_def(&lang).is_none());
            assert!(get_function_regex(&lang).is_none());
            assert!(get_class_regex(&lang).is_none());
            assert_eq!(display_name(&lang), "Unknown");
        } else {
            let def = get_lang_def(&lang).unwrap();
            assert_eq!(display_name(&lang), def.name);
            assert_eq!(get_function_regex(&lang).unwrap().len(), def.function_patterns.len());
            assert_eq!(get_class_regex(&lang).unwrap().len(), def.class_patterns.len());
        }
    }
    assert_eq!(LangType::from_index(99), LangType::Unknown);
    assert_eq!(LangType::default(), LangType::Unknown);
    assert_eq!(display_name(&LangType::Javascript), "JavaScript");
    assert_eq!(display_name(&LangType::H), "C");
    let c = get_lang_def(&LangType::C).unwrap();
    assert_eq!(c.line_comment, Some("//"));
    assert_eq!(c.block_comment, Some(("/*", "*/")));
    assert_eq!(c.extensions, vec!["c", "h"]);
    assert!(get_function_regex(&LangType::C).unwrap().is_match(b"int main() {"));
    assert!(!get_function_regex(&LangType::C).unwrap().is_match(b"int x;"));
    assert!(get_class_regex(&LangType::Rust).unwrap().is_match(b"pub struct S;"));
}

fn reader(types: &[&str], exclude: &[&str]) -> FileReader {
    let mut config = Config::new();
    config.types = types.iter().map(|s| s.to_string()).collect();
    config.exclude_files = exclude.iter().map(|s| s.to_string()).collect();
    FileReader::new(config)
}

#[test]
fn the_walk_yields_files_of_enabled_languages() {
    let all = FileReader::new(Config::new());
    assert!(all.include_entry("/p/src/main.rs", false));
    assert!(all.include_entry("/p/src/MAIN.RS", false));
    assert!(!all.include_entry("/p/src", true));
    assert!(!all.include_entry("/p/src/Makefile", false));
    assert!(!all.include_entry("/p/src/data.bin", false));
    let some = reader(&["rust", "PYTHON"], &[]);
    assert!(some.include_entry("a/x.rs", false));
    assert!(some.include_entry("a/x.py", false));
    assert!(!some.include_entry("a/x.c", false));
    let none = reader(&[], &[]);
    assert!(!none.include_entry("a/x.rs", false));
}

#[test]
fn the_walk_leaves_hidden_and_excluded_paths_out() {
    let all = FileReader::new(Config::new());
    assert!(!all.include_entry("/p/.git/main.rs", false));
    assert!(!all.include_entry("/p/src/.main.rs", false));
    assert!(!all.include_entry("./src/main.rs", false));
    let excluding = reader(&["rust"], &["", "target", "Gen/out.rs"]);
    assert!(excluding.include_entry("/p/src/main.rs", false));
    assert!(!excluding.include_entry("/p/target/main.rs", false));
    assert!(!excluding.include_entry("/p/src/mytarget.rs", false));
    assert!(!excluding.include_entry("/p/src/MyTarget.rs", false));
    assert!(!excluding.include_entry("/p/gen/OUT.rs", false));
    assert!(!excluding.include_entry("/p/Gen/out.rs", false));
}

#[test]
fn the_walk_descends_unless_a_directory_is_hidden_or_excluded() {
    let excluding = reader(&["rust"], &["", "target", "a/b"]);
    assert!(excluding.descend(".hidden", true, true));
    assert!(excluding.descend("/p/src", false, true));
    assert!(excluding.descend("/p/src/main.rs", false, false));
    assert!(excluding.descend("/p/.git/x", false, false));
    assert!(!excluding.descend("/p/.git", false, true));
    assert!(!excluding.descend("/p/target", false, true));
    assert!(excluding.descend("/p/mytarget", false, true));
    assert!(!excluding.descend("/p/a/b", false, true));
    assert!(excluding.descend("/p/a/c", false, true));
}
