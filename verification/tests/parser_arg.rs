use toukei::parser::any_value::TypeId;
use toukei::parser::arg::Arg;
use toukei::parser::value_parser::{CustomParser, DefaultParser, ParseValue};
use toukei::utils::format::OutputFormat;

#[test]
fn test_cli() {
    let parser = CustomParser::<Vec<String>, _>::new(|s: &str| {
        Ok(s.split(',').map(|s| s.trim().to_string()).collect())
    });

    assert_eq!(parser.parse("a,b,c").unwrap(), vec!["a".to_string(), "b".to_string(), "c".to_string()]);
}

#[test]
fn test_parser() {
    let parser = DefaultParser::<OutputFormat>::default();

    assert_eq!(parser.parse("text").unwrap(), OutputFormat::Text);
}

#[test]
fn test_new_arg() {
    let arg = Arg::new("test");
    assert_eq!(arg.get_name(), "test");
    assert_eq!(arg.get_short(), None);
    assert_eq!(arg.get_long(), None);
    assert_eq!(arg.get_help(), "");
    assert!(!arg.is_required());
    assert_eq!(arg.get_conflicts().len(), 0);
}

#[test]
fn test_arg_with_short() {
    let arg = Arg::new("test").short('t');
    assert_eq!(arg.get_short(), Some('t'));
}

#[test]
fn test_arg_with_long() {
    let arg = Arg::new("test").long("test-long");
    assert_eq!(arg.get_long(), Some("test-long"));
}

#[test]
fn test_arg_with_help() {
    let arg = Arg::new("test").help("Test help message");
    assert_eq!(arg.get_help(), "Test help message");
}

#[test]
fn test_required_arg() {
    let arg = Arg::new("test").required();
    assert!(arg.is_required());
}

#[test]
fn test_arg_with_conflicts() {
    let arg = Arg::new("test").conflicts_with("other");
    assert!(arg.is_conflict_with("other"));
    assert!(!arg.is_conflict_with("different"));
}

#[test]
fn test_default_parser() {
    let arg = Arg::new("test").default_parser::<i32>();
    assert_eq!(arg.get_value_type(), TypeId::of::<i32>());

    // Test parsing
    let result = arg.parse("42");
    assert!(result.is_ok());
    let value = result.unwrap();
    assert_eq!(value.downcast_ref::<i32>(), Some(&42));
}

#[test]
fn test_custom_parser() {
    let arg = Arg::new("test").custom_parser(|s: &str| {
        Ok(s.trim().split(',').map(|s| s.to_string()).collect::<Vec<String>>())
    });

    let result = arg.parse("a,b,c");
    assert!(result.is_ok());
    let value = result.unwrap();
    assert_eq!(value.downcast_ref::<Vec<String>>(), Some(&vec!["a".to_string(), "b".to_string(), "c".to_string()]));
}

#[test]
fn test_parser_error() {
    let arg = Arg::new("test").default_parser::<i32>();
    let result = arg.parse("not_a_number");
    assert!(result.is_err());
}

#[test]
fn arg_builders_keep_what_was_set_before() {
    let arg = Arg::new("depth").short('d').long("depth").help("how deep").required().conflicts_with("flat");
    assert_eq!(arg.get_name(), "depth");
    assert_eq!(arg.get_short(), Some('d'));
    assert_eq!(arg.get_long(), Some("depth"));
    assert_eq!(arg.get_help(), "how deep");
    assert!(arg.is_required());
    assert_eq!(arg.get_conflicts().len(), 1);
    assert_eq!(arg.get_value_type(), TypeId::of::<String>());
}

#[test]
fn value_type_can_be_set_apart_from_the_parser() {
    let arg = Arg::new("n").value_type(TypeId::of::<u8>());
    assert_eq!(arg.get_value_type(), TypeId::of::<u8>());
    let value = arg.parse("7").unwrap();
    assert_eq!(value.type_id(), TypeId::of::<String>());
}

#[test]
fn default_parsers_read_each_type() {
    assert_eq!(DefaultParser::<bool>::default().parse("true").unwrap(), true);
    assert_eq!(DefaultParser::<bool>::default().parse("false").unwrap(), false);
    assert!(DefaultParser::<bool>::default().parse("yes").is_err());
    assert_eq!(DefaultParser::<u8>::default().parse("255").unwrap(), 255u8);
    assert!(DefaultParser::<u8>::default().parse("256").is_err());
    assert_eq!(DefaultParser::<i32>::default().parse("-17").unwrap(), -17);
    assert_eq!(DefaultParser::<String>::default().parse(" as is ").unwrap(), " as is ");
    assert_eq!(
        DefaultParser::<Vec<String>>::default().parse("a, b ,,c").unwrap(),
        vec!["a".to_string(), "b".to_string(), "".to_string(), "c".to_string()]
    );
    assert_eq!(DefaultParser::<OutputFormat>::default().parse("csv").unwrap(), OutputFormat::Csv);
    assert_eq!(DefaultParser::<OutputFormat>::default().parse("json").unwrap(), OutputFormat::Json);
}

#[test]
fn a_wrong_format_is_refused_with_its_name() {
    let error = DefaultParser::<OutputFormat>::default().parse("xml").unwrap_err();
    assert_eq!(error.to_string(), "parse error: Invalid output format: xml");
}
