//! The ways in which reading arguments fails.

use vstd::prelude::*;
use vstd::string::StringExecFns;
use super::any_value::TypeId;

verus! {

/// A failure as mathematical values.
pub enum Fault {
    FromString(Seq<char>),
    ArgMismatch { name: Seq<char>, expected: TypeId, actual: TypeId },
    UnknownArg(Seq<char>),
    InternalError(Seq<char>),
    MissingRequired(Seq<char>),
    UnknownFlag(Seq<char>),
    InvalidOutputFormat(Seq<char>),
    NoValue(Seq<char>),
    BadValue { arg: Seq<char>, ty: Seq<char>, msg: Seq<char> },
    Conflict { a: Seq<char>, b: Seq<char> },
}

/// Why arguments could not be read.
#[derive(Debug)]
pub enum ParseError {
    /// A value could not be read from its text.
    FromString(String),
    /// A value was asked for, or given, under another type than the
    /// argument's.
    ArgMismatch { name: String, expected: TypeId, actual: TypeId },
    UnknownArg(String),
    InternalError(String),
    MissingRequired(String),
    UnknownFlag(String),
    InvalidOutputFormat(String),
    /// A flag that takes a value stood without one.
    NoValue(String),
    BadValue { arg: String, ty: &'static str, msg: String },
    Conflict { a: String, b: String },
}

impl View for ParseError {
    type V = Fault;

    open spec fn view(&self) -> Fault {
        match self {
            ParseError::FromString(s) => Fault::FromString(s@),
            ParseError::ArgMismatch { name, expected, actual } => Fault::ArgMismatch {
                name: name@,
                expected: *expected,
                actual: *actual,
            },
            ParseError::UnknownArg(s) => Fault::UnknownArg(s@),
            ParseError::InternalError(s) => Fault::InternalError(s@),
            ParseError::MissingRequired(s) => Fault::MissingRequired(s@),
            ParseError::UnknownFlag(s) => Fault::UnknownFlag(s@),
            ParseError::InvalidOutputFormat(s) => Fault::InvalidOutputFormat(s@),
            ParseError::NoValue(s) => Fault::NoValue(s@),
            ParseError::BadValue { arg, ty, msg } => Fault::BadValue {
                arg: arg@,
                ty: ty@,
                msg: msg@,
            },
            ParseError::Conflict { a, b } => Fault::Conflict { a: a@, b: b@ },
        }
    }
}

impl TypeId {
    /// The name of the type as it is written in messages.
    pub open spec fn spec_name(self) -> Seq<char> {
        match self {
            TypeId::Unit => "()"@,
            TypeId::Bool => "bool"@,
            TypeId::U8 => "u8"@,
            TypeId::I32 => "i32"@,
            TypeId::Text => "String"@,
            TypeId::TextList => "Vec<String>"@,
            TypeId::I32List => "Vec<i32>"@,
            TypeId::Format => "OutputFormat"@,
        }
    }

    /// The name of the type as it is written in messages.
    pub fn name(&self) -> (s: &'static str)
        ensures
            s@ == self.spec_name(),
    {
        match self {
            TypeId::Unit => "()",
            TypeId::Bool => "bool",
            TypeId::U8 => "u8",
            TypeId::I32 => "i32",
            TypeId::Text => "String",
            TypeId::TextList => "Vec<String>",
            TypeId::I32List => "Vec<i32>",
            TypeId::Format => "OutputFormat",
        }
    }
}

impl Fault {
    /// The message of the failure.
    pub open spec fn message(self) -> Seq<char> {
        match self {
            Fault::FromString(msg) => "parse error: "@ + msg,
            Fault::ArgMismatch { name, expected, actual } => "参数 '"@ + name
                + "' 类型不匹配，期望 "@ + expected.spec_name() + "，实际 "@ + actual.spec_name(),
            Fault::InternalError(msg) => "internal error: "@ + msg,
            Fault::UnknownArg(arg) => "unknown argument: "@ + arg,
            Fault::MissingRequired(arg) => "missing required argument: "@ + arg,
            Fault::UnknownFlag(flag) => "unknown flag: "@ + flag,
            Fault::InvalidOutputFormat(format) => "invalid output format: "@ + format,
            Fault::NoValue(arg) => "no value provided for argument: "@ + arg,
            Fault::BadValue { arg, ty, msg } => "bad value for argument "@ + arg + ": expected "@
                + ty + ", "@ + msg,
            Fault::Conflict { a, b } => "argument "@ + a + " conflicts with argument "@ + b,
        }
    }
}

impl ParseError {
    /// The message of the failure.
    pub fn to_string(&self) -> (s: String)
        ensures
            s@ == self@.message(),
    {
        match self {
            ParseError::FromString(msg) => String::from_str("parse error: ").concat(msg.as_str()),
            ParseError::ArgMismatch { name, expected, actual } => String::from_str(
                "参数 '",
            ).concat(name.as_str()).concat("' 类型不匹配，期望 ").concat(expected.name()).concat(
                "，实际 ",
            ).concat(actual.name()),
            ParseError::InternalError(msg) => String::from_str("internal error: ").concat(
                msg.as_str(),
            ),
            ParseError::UnknownArg(arg) => String::from_str("unknown argument: ").concat(
                arg.as_str(),
            ),
            ParseError::MissingRequired(arg) => String::from_str(
                "missing required argument: ",
            ).concat(arg.as_str()),
            ParseError::UnknownFlag(flag) => String::from_str("unknown flag: ").concat(
                flag.as_str(),
            ),
            ParseError::InvalidOutputFormat(format) => String::from_str(
                "invalid output format: ",
            ).concat(format.as_str()),
            ParseError::NoValue(arg) => String::from_str(
                "no value provided for argument: ",
            ).concat(arg.as_str()),
            ParseError::BadValue { arg, ty, msg } => String::from_str(
                "bad value for argument ",
            ).concat(arg.as_str()).concat(": expected ").concat(ty).concat(", ").concat(
                msg.as_str(),
            ),
            ParseError::Conflict { a, b } => String::from_str("argument ").concat(
                a.as_str(),
            ).concat(" conflicts with argument ").concat(b.as_str()),
        }
    }
}

} // verus!
