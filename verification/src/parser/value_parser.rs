//! Parsers that read an argument's value from its text.

use vstd::prelude::*;
use super::any_value::{AnyValue, ArgType, Datum, TypeId};
use super::parse_error::{Fault, ParseError};
use crate::syntax::text::str_eq;
use crate::utils::format::OutputFormat;
use crate::utils::strings::{comma_items, split_commas};

verus! {

/// What `<u8 as FromStr>::from_str` makes of a text: the number, or the
/// message of the error.
pub uninterp spec fn u8_from_str(s: Seq<char>) -> Result<u8, Seq<char>>;

/// What `<i32 as FromStr>::from_str` makes of a text: the number, or the
/// message of the error.
pub uninterp spec fn i32_from_str(s: Seq<char>) -> Result<i32, Seq<char>>;

/// `str::parse::<u8>`: the outcome depends on the text alone; an error is
/// handed on as its message.
#[verifier::external_body]
pub(crate) fn parse_u8(s: &str) -> (r: Result<u8, String>)
    ensures
        match r {
            Ok(n) => u8_from_str(s@) == Ok::<u8, Seq<char>>(n),
            Err(e) => u8_from_str(s@) == Err::<u8, Seq<char>>(e@),
        },
{
    s.parse::<u8>().map_err(|e| e.to_string())
}

/// `str::parse::<i32>`: the outcome depends on the text alone; an error is
/// handed on as its message.
#[verifier::external_body]
pub(crate) fn parse_i32(s: &str) -> (r: Result<i32, String>)
    ensures
        match r {
            Ok(n) => i32_from_str(s@) == Ok::<i32, Seq<char>>(n),
            Err(e) => i32_from_str(s@) == Err::<i32, Seq<char>>(e@),
        },
{
    s.parse::<i32>().map_err(|e| e.to_string())
}

/// A value read from text, or the message that says why there is none.
pub type Reading = Result<Datum, Seq<char>>;

/// A type whose values can be read from text.
pub trait FromText: ArgType {
    /// The value that `s` stands for, or the message that says why it
    /// stands for none.
    spec fn spec_from_text(s: Seq<char>) -> Reading;

    /// Reads a value from `s`.
    fn from_text(s: &str) -> (r: Result<Self, String>)
        ensures
            match r {
                Ok(v) => Self::spec_from_text(s@) == Reading::Ok(v.datum()),
                Err(e) => Self::spec_from_text(s@) == Reading::Err(e@),
            },
    ;
}

impl FromText for String {
    open spec fn spec_from_text(s: Seq<char>) -> Reading {
        Ok(Datum::Text(s))
    }

    fn from_text(s: &str) -> (r: Result<Self, String>) {
        Ok(s.to_owned())
    }
}

impl FromText for bool {
    open spec fn spec_from_text(s: Seq<char>) -> Reading {
        if s == "true"@ {
            Ok(Datum::Bool(true))
        } else if s == "false"@ {
            Ok(Datum::Bool(false))
        } else {
            Err("provided string was not `true` or `false`"@)
        }
    }

    fn from_text(s: &str) -> (r: Result<Self, String>) {
        if str_eq(s, "true") {
            Ok(true)
        } else if str_eq(s, "false") {
            Ok(false)
        } else {
            Err("provided string was not `true` or `false`".to_owned())
        }
    }
}

impl FromText for u8 {
    open spec fn spec_from_text(s: Seq<char>) -> Reading {
        match u8_from_str(s) {
            Ok(n) => Ok(Datum::U8(n)),
            Err(e) => Err(e),
        }
    }

    fn from_text(s: &str) -> (r: Result<Self, String>) {
        parse_u8(s)
    }
}

impl FromText for i32 {
    open spec fn spec_from_text(s: Seq<char>) -> Reading {
        match i32_from_str(s) {
            Ok(n) => Ok(Datum::I32(n)),
            Err(e) => Err(e),
        }
    }

    fn from_text(s: &str) -> (r: Result<Self, String>) {
        parse_i32(s)
    }
}

impl FromText for Vec<String> {
    /// A list is read from its items, which commas separate.
    open spec fn spec_from_text(s: Seq<char>) -> Reading {
        Ok(Datum::TextList(comma_items(s)))
    }

    fn from_text(s: &str) -> (r: Result<Self, String>) {
        Ok(split_commas(s))
    }
}

impl FromText for OutputFormat {
    open spec fn spec_from_text(s: Seq<char>) -> Reading {
        match OutputFormat::named(s) {
            Some(format) => Ok(Datum::Format(format)),
            None => Err(OutputFormat::refusal(s)),
        }
    }

    fn from_text(s: &str) -> (r: Result<Self, String>) {
        OutputFormat::parse(s)
    }
}

/// A parsed value or a failure, as mathematical values.
pub type Outcome = Result<Datum, Fault>;

/// The outcome that the result `r` of a parser stands for.
pub open spec fn outcome<T: ArgType>(r: Result<T, ParseError>) -> Outcome {
    match r {
        Ok(v) => Ok(v.datum()),
        Err(e) => Err(e@),
    }
}

/// The outcome that the result `r` of a type-erased parser stands for.
pub open spec fn erased(r: Result<AnyValue, ParseError>) -> Outcome {
    match r {
        Ok(v) => Ok(v@),
        Err(e) => Err(e@),
    }
}

/// A parser of values of one type.
pub trait ParseValue: Send + Sync + 'static {
    type Output: ArgType;

    /// Whether the parser can be called on every text and gives the same
    /// outcome for the same text.
    spec fn ready(&self) -> bool;

    /// What the parser makes of `value`.
    spec fn parsed(&self, value: Seq<char>) -> Outcome;

    fn parse(&self, value: &str) -> (r: Result<Self::Output, ParseError>)
        requires
            self.ready(),
        ensures
            outcome(r) == self.parsed(value@),
    ;
}

/// A parser whose values are handed on under the common type.
pub trait ValueParser: Send + Sync + 'static {
    /// Whether the parser can be called on every text and gives the same
    /// outcome for the same text.
    spec fn ready(&self) -> bool;

    /// What the parser makes of `value`.
    spec fn parsed(&self, value: Seq<char>) -> Outcome;

    /// The type of the values that the parser gives.
    spec fn spec_type_id(&self) -> TypeId;

    fn parse(&self, value: &str) -> (r: Result<AnyValue, ParseError>)
        requires
            self.ready(),
        ensures
            erased(r) == self.parsed(value@),
    ;

    fn type_id(&self) -> (id: TypeId)
        ensures
            id == self.spec_type_id(),
    ;
}

impl<P> ValueParser for P where P: ParseValue + Send + Sync + 'static {
    open spec fn ready(&self) -> bool {
        ParseValue::ready(self)
    }

    open spec fn parsed(&self, value: Seq<char>) -> Outcome {
        ParseValue::parsed(self, value)
    }

    open spec fn spec_type_id(&self) -> TypeId {
        <P::Output as ArgType>::spec_type_id()
    }

    fn parse(&self, value: &str) -> (r: Result<AnyValue, ParseError>) {
        match ParseValue::parse(self, value) {
            Ok(v) => Ok(AnyValue::new(v)),
            Err(e) => Err(e),
        }
    }

    fn type_id(&self) -> (id: TypeId) {
        <P::Output as ArgType>::type_id()
    }
}

/// The parser that reads a value of `T` as `T` itself does.
pub struct DefaultParser<T> {
    _marker: std::marker::PhantomData<T>,
}

impl<T> DefaultParser<T> {
    pub fn new() -> Self {
        Self { _marker: std::marker::PhantomData }
    }
}

impl<T> Default for DefaultParser<T> {
    fn default() -> Self {
        DefaultParser::new()
    }
}

impl<T> ParseValue for DefaultParser<T> where T: FromText + Send + Sync + 'static {
    type Output = T;

    open spec fn ready(&self) -> bool {
        true
    }

    open spec fn parsed(&self, value: Seq<char>) -> Outcome {
        match T::spec_from_text(value) {
            Ok(d) => Ok(d),
            Err(msg) => Err(Fault::FromString(msg)),
        }
    }

    fn parse(&self, s: &str) -> (r: Result<Self::Output, ParseError>) {
        match T::from_text(s) {
            Ok(v) => Ok(v),
            Err(msg) => Err(ParseError::FromString(msg)),
        }
    }
}

/// A parser that reads a value of `T` by the function `logic`.
pub struct CustomParser<T, F> {
    logic: F,
    _marker: std::marker::PhantomData<T>,
}

/// Whether `logic` can be called on every text, and gives for the same text
/// the same outcome.
pub open spec fn is_parser<T: ArgType, F: Fn(&str) -> Result<T, ParseError>>(logic: F) -> bool {
    &&& forall|s: &str| #[trigger] logic.requires((s,))
    &&& forall|s1: &str, s2: &str, r1: Result<T, ParseError>, r2: Result<T, ParseError>|
        s1@ == s2@ && #[trigger] logic.ensures((s1,), r1) && #[trigger] logic.ensures((s2,), r2)
            ==> outcome(r1) == outcome(r2)
}

/// Whether `logic` has, for the text `value`, a result that stands for the
/// outcome `o`.
pub open spec fn yields<T: ArgType, F: Fn(&str) -> Result<T, ParseError>>(
    logic: F,
    value: Seq<char>,
    o: Outcome,
) -> bool {
    exists|s: &str, r: Result<T, ParseError>|
        s@ == value && #[trigger] logic.ensures((s,), r) && outcome(r) == o
}

/// What `logic` makes of `value`.
pub open spec fn parsed_by<T: ArgType, F: Fn(&str) -> Result<T, ParseError>>(
    logic: F,
    value: Seq<char>,
) -> Outcome {
    choose|o: Outcome| #[trigger] yields::<T, F>(logic, value, o)
}

impl<T, F> CustomParser<T, F> where
    F: Fn(&str) -> Result<T, ParseError> + Send + Sync + 'static,
    T: ArgType + Send + Sync + 'static,
 {
    /// The function that the parser reads by.
    pub closed spec fn logic(&self) -> F {
        self.logic
    }

    pub fn new(logic: F) -> (parser: Self)
        ensures
            parser.logic() == logic,
    {
        Self { logic, _marker: std::marker::PhantomData }
    }
}

impl<T, F> ParseValue for CustomParser<T, F> where
    F: Fn(&str) -> Result<T, ParseError> + Send + Sync + 'static,
    T: ArgType + Send + Sync + 'static,
 {
    type Output = T;

    open spec fn ready(&self) -> bool {
        is_parser::<T, F>(self.logic())
    }

    open spec fn parsed(&self, value: Seq<char>) -> Outcome {
        parsed_by::<T, F>(self.logic(), value)
    }

    fn parse(&self, s: &str) -> (r: Result<Self::Output, ParseError>) {
        let r = (self.logic)(s);
        proof {
            let logic = self.logic();
            let o = outcome(r);
            assert(logic.ensures((s,), r));
            assert(yields::<T, F>(logic, s@, o));
            let picked = parsed_by::<T, F>(logic, s@);
            assert(yields::<T, F>(logic, s@, picked));
            let (s2, r2): (&str, Result<T, ParseError>) = choose|
                s0: &str,
                r0: Result<T, ParseError>,
            |
                s0@ == s@ && #[trigger] logic.ensures((s0,), r0) && outcome(r0) == picked;
            assert(outcome(r2) == outcome(r));
        }
        r
    }
}

} // verus!
