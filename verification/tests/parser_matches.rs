use toukei::parser::any_value::{AnyValue, TypeId};
use toukei::parser::matches::{ExtractFromMatches, MatchedArg, Matches};
use toukei::parser::parse_error::ParseError;
use toukei::utils::format::OutputFormat;

#[test]
fn test_matched_arg_new() {
    let arg = MatchedArg::new();
    assert!(arg.values.is_empty());
}

#[test]
fn test_matched_arg_from_vec() {
    let vec = vec![AnyValue::new(42i32)];
    let arg = MatchedArg::from_vec(vec);
    assert_eq!(arg.values.len(), 1);
}

#[test]
fn test_matched_arg_push() {
    let mut arg = MatchedArg::new();
    arg.push(AnyValue::new(42i32));
    assert_eq!(arg.values.len(), 1);
}

#[test]
fn test_matches_new() {
    let matches = Matches::new();
    assert!(matches.values.is_empty());
    assert!(matches.types.is_empty());
}

#[test]
fn test_set_and_get_one() {
    let mut matches = Matches::new();
    matches.set("number", AnyValue::new(42i32), TypeId::of::<i32>()).unwrap();

    assert!(matches.contains("number"));
    let value = matches.get_one::<i32>("number").unwrap();
    assert_eq!(*value, 42);
}

#[test]
fn test_append_and_get_many() {
    let mut matches = Matches::new();
    matches.append("numbers", AnyValue::new(1i32), TypeId::of::<i32>()).unwrap();
    matches.append("numbers", AnyValue::new(2i32), TypeId::of::<i32>()).unwrap();

    let values = matches.get_many::<i32>("numbers").unwrap();
    assert_eq!(values.len(), 2);
    assert_eq!(values[0], &1);
    assert_eq!(values[1], &2);
}

#[test]
fn test_type_mismatch() {
    let mut matches = Matches::new();
    matches.set("value", AnyValue::new(42i32), TypeId::of::<i32>()).unwrap();

    let result = matches.get_one::<String>("value");
    assert!(result.is_err());
    assert!(matches!(result.unwrap_err(), ParseError::ArgMismatch { .. }));
}

#[test]
fn test_try_get() {
    let mut matches = Matches::new();

    assert!(matches.try_get_one::<i32>("nonexistent").is_none());
    assert!(matches.try_get_many::<i32>("nonexistent").is_none());

    matches.set("number", AnyValue::new(42i32), TypeId::of::<i32>()).unwrap();
    assert_eq!(*matches.try_get_one::<i32>("number").unwrap(), 42);

    matches.append("numbers", AnyValue::new(1i32), TypeId::of::<i32>()).unwrap();
    matches.append("numbers", AnyValue::new(2i32), TypeId::of::<i32>()).unwrap();
    let values = matches.try_get_many::<i32>("numbers").unwrap();
    assert_eq!(values.len(), 2);
}

#[test]
fn test_contains() {
    let mut matches = Matches::new();

    assert!(!matches.contains("test"));

    matches.set("test", AnyValue::new(42i32), TypeId::of::<i32>()).unwrap();
    assert!(matches.contains("test"));
}

#[test]
fn test_complex_types() {
    let mut matches = Matches::new();
    let vec_value = vec![1, 2, 3];
    matches.set("vector", AnyValue::new(vec_value.clone()), TypeId::of::<Vec<i32>>()).unwrap();

    let retrieved = matches.get_one::<Vec<i32>>("vector").unwrap();
    assert_eq!(*retrieved, vec_value);
}

#[test]
fn test_multiple_values() {
    let mut matches = Matches::new();

    matches.set("number", AnyValue::new(42i32), TypeId::of::<i32>()).unwrap();
    matches.set("text", AnyValue::new("hello".to_string()), TypeId::of::<String>()).unwrap();
    matches.set("flag", AnyValue::new(true), TypeId::of::<bool>()).unwrap();

    assert_eq!(*matches.get_one::<i32>("number").unwrap(), 42);
    assert_eq!(matches.get_one::<String>("text").unwrap(), "hello");
    assert_eq!(*matches.get_one::<bool>("flag").unwrap(), true);
}

#[test]
fn set_replaces_and_append_adds() {
    let mut matches = Matches::new();
    matches.append("n", AnyValue::new(1i32), TypeId::of::<i32>()).unwrap();
    matches.append("n", AnyValue::new(2i32), TypeId::of::<i32>()).unwrap();
    matches.set("n", AnyValue::new(9i32), TypeId::of::<i32>()).unwrap();
    let values = matches.get_many::<i32>("n").unwrap();
    assert_eq!(values, vec![&9]);
    assert_eq!(*matches.get_one::<i32>("n").unwrap(), 9);
}

#[test]
fn append_under_another_type_changes_nothing() {
    let mut matches = Matches::new();
    matches.append("n", AnyValue::new(1i32), TypeId::of::<i32>()).unwrap();
    let error = matches.append("n", AnyValue::new(true), TypeId::of::<bool>()).unwrap_err();
    match error {
        ParseError::ArgMismatch { name, expected, actual } => {
            assert_eq!(name, "n");
            assert_eq!(expected, TypeId::of::<bool>());
            assert_eq!(actual, TypeId::of::<i32>());
        }
        other => panic!("unexpected error: {:?}", other),
    }
    assert_eq!(matches.get_many::<i32>("n").unwrap(), vec![&1]);
}

#[test]
fn an_unknown_name_is_reported() {
    let matches = Matches::new();
    let error = matches.get_one::<i32>("missing").unwrap_err();
    assert!(matches!(error, ParseError::UnknownArg(ref name) if name == "missing"));
    assert_eq!(error.to_string(), "unknown argument: missing");
}

#[test]
fn a_value_of_another_type_than_its_argument_is_an_internal_error() {
    let mut matches = Matches::new();
    matches.set("n", AnyValue::new(1i32), TypeId::of::<bool>()).unwrap();
    let error = matches.get_one::<bool>("n").unwrap_err();
    assert!(matches!(error, ParseError::InternalError(_)));
    let error = matches.get_many::<bool>("n").unwrap_err();
    assert!(matches!(error, ParseError::InternalError(_)));
}

#[test]
fn values_are_extracted_by_type() {
    let mut matches = Matches::new();
    matches.set("flag", AnyValue::new(true), TypeId::of::<bool>()).unwrap();
    matches.set("name", AnyValue::new("x".to_string()), TypeId::of::<String>()).unwrap();
    matches.set("format", AnyValue::new(OutputFormat::Csv), TypeId::of::<OutputFormat>()).unwrap();
    matches.append("list", AnyValue::new(vec!["a".to_string(), "b".to_string()]), TypeId::of::<Vec<String>>()).unwrap();
    matches.append("list", AnyValue::new(vec!["c".to_string()]), TypeId::of::<Vec<String>>()).unwrap();

    assert_eq!(bool::extract(&matches, "flag"), Some(true));
    assert_eq!(String::extract(&matches, "name"), Some("x".to_string()));
    assert_eq!(OutputFormat::extract(&matches, "format"), Some(OutputFormat::Csv));
    assert_eq!(
        Vec::<String>::extract(&matches, "list"),
        Some(vec!["a".to_string(), "b".to_string(), "c".to_string()])
    );
    assert_eq!(bool::extract(&matches, "name"), None);
    assert_eq!(String::extract(&matches, "absent"), None);
}

#[test]
fn any_value_knows_its_type() {
    let mut value = AnyValue::new(7u8);
    assert_eq!(value.type_id(), TypeId::of::<u8>());
    assert_eq!(value.downcast_ref::<u8>(), Some(&7));
    assert_eq!(value.downcast_ref::<i32>(), None);
    assert_eq!(value.downcast_into::<u8>().unwrap(), 7);
    assert!(value.downcast_into::<bool>().is_err());
    assert_eq!(AnyValue::default().type_id(), TypeId::of::<()>());
}

#[test]
fn every_failure_has_its_message() {
    let text = |s: &str| s.to_string();
    assert_eq!(ParseError::FromString(text("bad")).to_string(), "parse error: bad");
    assert_eq!(
        ParseError::ArgMismatch { name: text("n"), expected: TypeId::of::<bool>(), actual: TypeId::of::<Vec<String>>() }.to_string(),
        "参数 'n' 类型不匹配，期望 bool，实际 Vec<String>"
    );
    assert_eq!(ParseError::UnknownArg(text("x")).to_string(), "unknown argument: x");
    assert_eq!(ParseError::InternalError(text("x")).to_string(), "internal error: x");
    assert_eq!(ParseError::MissingRequired(text("x")).to_string(), "missing required argument: x");
    assert_eq!(ParseError::UnknownFlag(text("x")).to_string(), "unknown flag: x");
    assert_eq!(ParseError::InvalidOutputFormat(text("x")).to_string(), "invalid output format: x");
    assert_eq!(ParseError::NoValue(text("x")).to_string(), "no value provided for argument: x");
    assert_eq!(
        ParseError::BadValue { arg: text("n"), ty: "u8", msg: text("too large") }.to_string(),
        "bad value for argument n: expected u8, too large"
    );
    assert_eq!(
        ParseError::Conflict { a: text("a"), b: text("b") }.to_string(),
        "argument a conflicts with argument b"
    );
    let mut matches = Matches::new();
    matches.set("n", AnyValue::new(1i32), TypeId::of::<bool>()).unwrap();
    assert_eq!(
        matches.get_one::<bool>("n").unwrap_err().to_string(),
        "internal error: 参数n解析时出现内部错误，类型检查通过但是转换错误"
    );
    for (id, name) in [
        (TypeId::of::<()>(), "()"),
        (TypeId::of::<bool>(), "bool"),
        (TypeId::of::<u8>(), "u8"),
        (TypeId::of::<i32>(), "i32"),
        (TypeId::of::<String>(), "String"),
        (TypeId::of::<Vec<String>>(), "Vec<String>"),
        (TypeId::of::<Vec<i32>>(), "Vec<i32>"),
        (TypeId::of::<OutputFormat>(), "OutputFormat"),
    ] {
        assert_eq!(id.name(), name);
    }
}
