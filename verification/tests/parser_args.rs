use toukei::config::Config;
use toukei::parser::arg::{Arg, ArgAction};
use toukei::parser::arg_cursor::ArgCursor;
use toukei::parser::args_parser::ArgParser;
use toukei::parser::any_value::TypeId;
use toukei::parser::parse_error::ParseError;
use toukei::parser::value_parser::DefaultParser;
use toukei::utils::format::OutputFormat;

#[test]
fn test_long_flag_with_value() {
    let mut parser = ArgParser::new();
    parser.add_arg(Arg::new("path")
        .long("path")
        .help("设置路径"));

    let args = vec!["--path", "/home/user"];
    let result = parser.build_matches(args);
    assert!(result.is_ok());
    let matches = result.unwrap();
    assert_eq!(matches.get_one::<String>("path").unwrap(), "/home/user");
}

#[test]
fn test_short_flag_with_value() {
    let mut parser = ArgParser::new();
    parser.add_arg(Arg::new("path")
        .short('p')
        .help("设置路径"));

    let args = vec!["-p", "/home/user"];
    let result = parser.build_matches(args);
    assert!(result.is_ok());
    let matches = result.unwrap();
    assert_eq!(matches.get_one::<String>("path").unwrap(), "/home/user");
}

#[test]
fn test_multiple_short_flags() {
    let mut parser = ArgParser::new();
    parser.add_arg(Arg::new("verbose")
        .parser(DefaultParser::<bool>::default())
        .short('v')
        .action(ArgAction::SetTrue)
        .help("详细输出"));
    parser.add_arg(Arg::new("debug")
        .parser(DefaultParser::<bool>::default())
        .action(ArgAction::SetTrue)
        .short('d')
        .help("调试模式"));

    let args = vec!["-vd"];
    let result = parser.build_matches(args);
    assert!(result.is_ok());
    let matches = result.unwrap();
    assert!(matches.get_one::<bool>("verbose").is_ok());
    assert!(matches.get_one::<bool>("debug").is_ok());
}

#[test]
fn test_unknown_flag() {
    let mut parser = ArgParser::new();
    let args = vec!["--unknown"];
    let result = parser.build_matches(args);
    assert!(result.is_err());
    assert!(matches!(result.unwrap_err(), ParseError::UnknownFlag(_)));
}

#[test]
fn test_flag_without_value() {
    let mut parser = ArgParser::new();
    parser.add_arg(Arg::new("path")
        .long("path")
        .help("设置路径"));

    let args = vec!["--path"];
    let result = parser.build_matches(args);
    assert!(result.is_err());
    assert!(matches!(result.unwrap_err(), ParseError::NoValue(_)));
}

#[test]
fn test_append_action() {
    let mut parser = ArgParser::new();
    parser.add_arg(Arg::new("files")
        .long("files")
        .action(ArgAction::Append)
        .help("多个文件"));

    let args = vec!["--files", "file1", "--files", "file2"];
    let result = parser.build_matches(args);
    assert!(result.is_ok());
    let matches = result.unwrap();
    let files: Vec<&String> = matches.get_many("files").unwrap();
    assert_eq!(files.len(), 2);
    assert_eq!(files[0], "file1");
    assert_eq!(files[1], "file2");
}

#[test]
fn test_count_action() {
    let mut parser = ArgParser::new();
    parser.add_arg(Arg::new("verbose")
        .short('v')
        .parser(DefaultParser::<u8>::default())
        .action(ArgAction::Count)
        .help("详细级别"));

    let args = vec!["-vvv"];
    let result = parser.build_matches(args);
    assert!(result.is_ok());
    let matches = result.unwrap();
    assert_eq!(*matches.get_one::<u8>("verbose").unwrap(), 3);
}

#[test]
fn test_set_true_action() {
    let mut parser = ArgParser::new();
    parser.add_arg(Arg::new("debug")
        .long("debug")
        .action(ArgAction::SetTrue)
        .parser(DefaultParser::<bool>::default())
        .help("调试模式"));

    let args = vec!["--debug"];
    let result = parser.build_matches(args);
    assert!(result.is_ok());
    let matches = result.unwrap();
    assert_eq!(*matches.get_one::<bool>("debug").unwrap(), true);
}

#[test]
fn test_matches_and_config() {
    let mut arg_parser = ArgParser::default();

    let args = vec!["--path", "/home/user", "--type", "cpp,rust", "--exclude-files", "file1,file2", "--ignore-blanks", "--ignore-comments", "--output", "json"];
    let result = arg_parser.build_matches(args);
    assert!(result.is_ok());
    let matches = result.unwrap();
    let config = arg_parser.parse_matches(&matches);
    assert!(config.is_ok());
    let config = config.unwrap();
    assert_eq!(config, Config {
        paths: vec!["/home/user".to_string()],
        types: vec!["cpp".to_string(), "rust".to_string()],
        ignore_blanks: true,
        ignore_comments: true,
        exclude_files: vec!["file1".to_string(), "file2".to_string()],
        show_stats: false,
        output: OutputFormat::Json,
        help: false,
        num_workers: 0,
        enable_async: false,
    });
}

#[test]
fn no_words_give_the_initial_settings() {
    let mut parser = ArgParser::default();
    let matches = parser.build_matches(Vec::new()).unwrap();
    let config = parser.parse_matches(&matches).unwrap();
    assert_eq!(config, Config::new());
    assert_eq!(config.paths, vec!["."]);
    assert_eq!(config.types.len(), 53);
    assert_eq!(config.types[0], "Asciidoc");
    assert_eq!(config.types[52], "Unknown");
}

#[test]
fn short_flags_of_the_standard_reader() {
    let mut parser = ArgParser::default();
    let matches = parser.build_matches(vec!["-p", "a, b", "-t", "rust", "-e", "target", "-o", "csv", "-h"]).unwrap();
    let config = parser.parse_matches(&matches).unwrap();
    assert_eq!(config.paths, vec!["a", "b"]);
    assert_eq!(config.types, vec!["rust"]);
    assert_eq!(config.exclude_files, vec!["target"]);
    assert_eq!(config.output, OutputFormat::Csv);
    assert!(config.help);
    assert!(!config.ignore_blanks);
}

#[test]
fn a_value_behind_a_long_flag_lets_the_flag_act_again() {
    let mut parser = ArgParser::new();
    parser.add_arg(Arg::new("path").long("path"));
    let matches = parser.build_matches(vec!["--path", "a", "b", "c"]).unwrap();
    assert_eq!(matches.get_one::<String>("path").unwrap(), "c");
}

#[test]
fn a_word_without_a_flag_before_it_is_passed_over() {
    let mut parser = ArgParser::new();
    parser.add_arg(Arg::new("path").short('p'));
    let matches = parser.build_matches(vec!["stray", "-p", "x", "more"]).unwrap();
    assert_eq!(matches.get_one::<String>("path").unwrap(), "x");
}

#[test]
fn the_flag_of_a_long_name_that_is_no_argument_name_fails_on_values() {
    let mut parser = ArgParser::new();
    parser.add_arg(Arg::new("target").long("path"));
    let error = parser.build_matches(vec!["--path", "a", "b"]).unwrap_err();
    assert!(matches!(error, ParseError::UnknownArg(ref name) if name == "path"));
}

#[test]
fn an_unknown_short_flag_is_named() {
    let mut parser = ArgParser::new();
    let error = parser.build_matches(vec!["-x"]).unwrap_err();
    assert!(matches!(error, ParseError::UnknownFlag(ref flag) if flag == "x"));
    assert_eq!(error.to_string(), "unknown flag: x");
}

#[test]
fn a_flag_in_place_of_a_value_is_no_value() {
    let mut parser = ArgParser::new();
    parser.add_arg(Arg::new("path").long("path"));
    parser.add_arg(Arg::new("debug").long("debug").parser(DefaultParser::<bool>::default()).action(ArgAction::SetTrue));
    let error = parser.build_matches(vec!["--path", "--debug"]).unwrap_err();
    assert!(matches!(error, ParseError::NoValue(ref key) if key == "path"));
}

#[test]
fn a_value_that_does_not_parse_stops_the_reading() {
    let mut parser = ArgParser::new();
    parser.add_arg(Arg::new("n").long("n").default_parser::<i32>());
    let error = parser.build_matches(vec!["--n", "many"]).unwrap_err();
    assert!(matches!(error, ParseError::FromString(_)));
}

#[test]
fn counting_stops_at_the_largest_count() {
    let mut parser = ArgParser::new();
    parser.add_arg(Arg::new("v").short('v').parser(DefaultParser::<u8>::default()).action(ArgAction::Count));
    let flags = format!("-{}", "v".repeat(300));
    let matches = parser.build_matches(vec![flags.as_str()]).unwrap();
    assert_eq!(*matches.get_one::<u8>("v").unwrap(), 255);
}

#[test]
fn the_readers_own_values() {
    let mut parser = ArgParser::new().arg(Arg::new("n").default_parser::<i32>());
    parser.set_param("n", "5".to_string(), TypeId::of::<i32>()).unwrap();
    assert_eq!(*parser.get_one::<i32>("n").unwrap(), 5);
    parser.append_param("n", "6".to_string(), TypeId::of::<i32>()).unwrap();
    assert_eq!(parser.get_many::<i32>("n").unwrap(), vec![&5, &6]);
    assert!(matches!(parser.set_param("m", "5".to_string(), TypeId::of::<i32>()), Err(ParseError::UnknownArg(_))));
    assert!(matches!(parser.set_param("n", "5".to_string(), TypeId::of::<bool>()), Err(ParseError::ArgMismatch { .. })));
    assert!(matches!(parser.append_param("n", "x".to_string(), TypeId::of::<i32>()), Err(ParseError::FromString(_))));
    assert!(parser.get_arg("n").is_some());
    assert!(parser.get_arg("m").is_none());
    assert_eq!(parser.get_args().len(), 1);
}

#[test]
fn an_argument_of_the_same_name_takes_the_place_of_the_old_one() {
    let mut parser = ArgParser::new();
    parser.add_arg(Arg::new("n").long("number"));
    parser.add_arg(Arg::new("n").long("count").default_parser::<i32>());
    assert_eq!(parser.get_args().len(), 1);
    assert_eq!(parser.get_arg("n").unwrap().get_value_type(), TypeId::of::<i32>());
    assert!(parser.get_arg_by_long("number").is_some());
    assert!(parser.get_arg_by_long("count").is_some());
    assert!(parser.get_arg_by_short('n').is_none());
}

#[test]
fn the_cursor_hands_out_words_in_order() {
    let mut cursor = ArgCursor::new(vec!["a".to_string(), "-b".to_string(), "c".to_string()]);
    assert_eq!(cursor.peek(), Some(&"a".to_string()));
    assert!(!cursor.is_next_flag());
    assert_eq!(cursor.next_if_value(), Some("a".to_string()));
    assert!(cursor.is_next_flag());
    assert_eq!(cursor.next_if_value(), None);
    assert_eq!(cursor.next(), Some("-b".to_string()));
    assert_eq!(cursor.next(), Some("c".to_string()));
    assert_eq!(cursor.next(), None);
    assert_eq!(cursor.peek(), None);
    assert!(!cursor.is_next_flag());
}

#[test]
fn the_arguments_are_listed_in_the_order_of_their_names() {
    let parser = ArgParser::default();
    let names: Vec<&str> = parser.get_args().iter().map(|arg| arg.get_name()).collect();
    assert_eq!(
        names,
        vec!["exclude-files", "help", "ignore-blanks", "ignore-comments", "output", "path", "type"]
    );
    let mut parser = ArgParser::new();
    for name in ["b", "a", "ab", "", "B", "a"] {
        parser.add_arg(Arg::new(name));
    }
    let names: Vec<&str> = parser.get_args().iter().map(|arg| arg.get_name()).collect();
    assert_eq!(names, vec!["", "B", "a", "ab", "b"]);
}
