//! The description of one command-line argument.

use vstd::prelude::*;
use super::any_value::{AnyValue, ArgType, Datum, TypeId};
use super::parse_error::{Fault, ParseError};
use super::value_parser::{
    erased, is_parser, parsed_by, CustomParser, DefaultParser, FromText, Outcome, ValueParser,
};
use crate::utils::strings::{contains_string, strs};

verus! {

/// What a flag does with its value.
#[derive(Debug, Clone, Copy, PartialEq, Eq, Structural)]
pub enum ArgAction {
    /// Keeps the last value.
    SetValue,
    /// Keeps every value.
    Append,
    /// Counts how often the flag stands.
    Count,
    /// Keeps `true`.
    SetTrue,
}

/// The description of an argument as mathematical values.
pub struct ArgView {
    pub name: Seq<char>,
    pub short: Option<char>,
    pub long: Option<Seq<char>>,
    pub help: Seq<char>,
    pub action: ArgAction,
    pub required: bool,
    pub value_type: TypeId,
    pub conflicts: Seq<Seq<char>>,
}

/// The description of an argument: its names, what its flag does, and the
/// parser of its value.
pub struct Arg {
    name: String,
    short: Option<char>,
    long: Option<String>,
    help: String,
    action: ArgAction,
    required: bool,
    parser: Box<dyn ValueParser>,
    value_type: TypeId,
    conflicts: Vec<String>,
}

impl View for Arg {
    type V = ArgView;

    closed spec fn view(&self) -> ArgView {
        ArgView {
            name: self.name@,
            short: self.short,
            long: match self.long {
                Some(s) => Some(s@),
                None => None,
            },
            help: self.help@,
            action: self.action,
            required: self.required,
            value_type: self.value_type,
            conflicts: strs(self.conflicts@),
        }
    }
}

impl Arg {
    /// Whether the argument's parser can be called on every text.
    pub closed spec fn ready(&self) -> bool {
        self.parser.ready()
    }

    /// What the argument's parser makes of `value`.
    pub closed spec fn parsed(&self, value: Seq<char>) -> Outcome {
        self.parser.parsed(value)
    }

    /// The type of the values that the argument's parser gives.
    pub closed spec fn parser_type(&self) -> TypeId {
        self.parser.spec_type_id()
    }

    /// Whether the parser of `self` reads as that of `other` does.
    pub open spec fn same_parser(&self, other: &Arg) -> bool {
        &&& self.ready() == other.ready()
        &&& self.parser_type() == other.parser_type()
        &&& forall|value: Seq<char>| #[trigger] self.parsed(value) == other.parsed(value)
    }

    /// An argument named `name`: optional, without flags or help, that keeps
    /// its last value and takes it as text.
    pub fn new(name: &str) -> (arg: Self)
        ensures
            arg@ == (ArgView {
                name: name@,
                short: None,
                long: None,
                help: Seq::empty(),
                action: ArgAction::SetValue,
                required: false,
                value_type: TypeId::Text,
                conflicts: Seq::empty(),
            }),
            arg.ready(),
            arg.parser_type() == TypeId::Text,
            forall|value: Seq<char>| #[trigger] arg.parsed(value) == Outcome::Ok(Datum::Text(value)),
    {
        let parser: DefaultParser<String> = DefaultParser::new();
        let arg = Arg {
            name: name.to_owned(),
            short: None,
            long: None,
            help: String::new(),
            action: ArgAction::SetValue,
            required: false,
            parser: Box::new(parser),
            value_type: TypeId::Text,
            conflicts: Vec::new(),
        };
        assert(arg@.conflicts =~= Seq::<Seq<char>>::empty());
        arg
    }

    /// Gives the argument the one-letter flag `short`.
    pub fn short(self, short: char) -> (arg: Self)
        ensures
            arg@ == (ArgView { short: Some(short), ..self@ }),
            arg.same_parser(&self),
    {
        let mut arg = self;
        arg.short = Some(short);
        arg
    }

    /// Gives the argument the long flag `long`.
    pub fn long(self, long: &str) -> (arg: Self)
        ensures
            arg@ == (ArgView { long: Some(long@), ..self@ }),
            arg.same_parser(&self),
    {
        let mut arg = self;
        arg.long = Some(long.to_owned());
        arg
    }

    /// Gives the argument the help text `help`.
    pub fn help(self, help: &str) -> (arg: Self)
        ensures
            arg@ == (ArgView { help: help@, ..self@ }),
            arg.same_parser(&self),
    {
        let mut arg = self;
        arg.help = help.to_owned();
        arg
    }

    /// Makes the argument required.
    pub fn required(self) -> (arg: Self)
        ensures
            arg@ == (ArgView { required: true, ..self@ }),
            arg.same_parser(&self),
    {
        let mut arg = self;
        arg.required = true;
        arg
    }

    /// Sets what the argument's flag does.
    pub fn action(self, action: ArgAction) -> (arg: Self)
        ensures
            arg@ == (ArgView { action, ..self@ }),
            arg.same_parser(&self),
    {
        let mut arg = self;
        arg.action = action;
        arg
    }

    /// Sets the type under which the argument's values are kept.
    pub fn value_type(self, value_type: TypeId) -> (arg: Self)
        ensures
            arg@ == (ArgView { value_type, ..self@ }),
            arg.same_parser(&self),
    {
        let mut arg = self;
        arg.value_type = value_type;
        arg
    }

    /// Gives the argument the parser `parser`, and the type of its values.
    pub fn parser<P: ValueParser + 'static>(self, parser: P) -> (arg: Self)
        ensures
            arg@ == (ArgView { value_type: parser.spec_type_id(), ..self@ }),
            arg.ready() == parser.ready(),
            arg.parser_type() == parser.spec_type_id(),
            forall|value: Seq<char>| #[trigger] arg.parsed(value) == parser.parsed(value),
    {
        let mut arg = self;
        arg.value_type = parser.type_id();
        arg.parser = Box::new(parser);
        arg
    }

    /// Gives the argument the parser that reads a `T` as `T` itself does.
    pub fn default_parser<T>(self) -> (arg: Self) where T: FromText + Send + Sync + 'static
        ensures
            arg@ == (ArgView { value_type: T::spec_type_id(), ..self@ }),
            arg.ready(),
            arg.parser_type() == T::spec_type_id(),
            forall|value: Seq<char>| #[trigger]
                arg.parsed(value) == (match T::spec_from_text(value) {
                    Ok(d) => Outcome::Ok(d),
                    Err(msg) => Outcome::Err(Fault::FromString(msg)),
                }),
    {
        let parser: DefaultParser<T> = DefaultParser::new();
        let mut arg = self;
        arg.value_type = T::type_id();
        arg.parser = Box::new(parser);
        arg
    }

    /// Gives the argument a parser that reads a `T` by `logic`.
    pub fn custom_parser<T, F>(self, logic: F) -> (arg: Self) where
        F: Fn(&str) -> Result<T, ParseError> + Send + Sync + 'static,
        T: ArgType + Send + Sync + 'static,

        ensures
            arg@ == (ArgView { value_type: T::spec_type_id(), ..self@ }),
            arg.ready() == is_parser::<T, F>(logic),
            arg.parser_type() == T::spec_type_id(),
            forall|value: Seq<char>| #[trigger] arg.parsed(value) == parsed_by::<T, F>(logic, value),
    {
        let parser: CustomParser<T, F> = CustomParser::new(logic);
        let mut arg = self;
        arg.value_type = T::type_id();
        arg.parser = Box::new(parser);
        arg
    }

    /// Notes that the argument cannot stand beside the one named
    /// `arg_name`.
    pub fn conflicts_with(self, arg_name: &str) -> (arg: Self)
        ensures
            arg@ == (ArgView { conflicts: self@.conflicts.push(arg_name@), ..self@ }),
            arg.same_parser(&self),
    {
        let mut arg = self;
        arg.conflicts.push(arg_name.to_owned());
        assert(strs(arg.conflicts@) =~= strs(self.conflicts@).push(arg_name@));
        arg
    }

    /// Reads a value of the argument from `value`.
    pub fn parse(&self, value: &str) -> (r: Result<AnyValue, ParseError>)
        requires
            self.ready(),
        ensures
            erased(r) == self.parsed(value@),
    {
        self.parser.parse(value)
    }

    pub fn get_name(&self) -> (r: &str)
        ensures
            r@ == self@.name,
    {
        self.name.as_str()
    }

    pub fn get_short(&self) -> (r: Option<char>)
        ensures
            r == self@.short,
    {
        self.short
    }

    pub fn get_long(&self) -> (r: Option<&str>)
        ensures
            match r {
                Some(s) => self@.long == Some(s@),
                None => self@.long is None,
            },
    {
        match &self.long {
            Some(s) => Some(s.as_str()),
            None => None,
        }
    }

    pub fn get_help(&self) -> (r: &str)
        ensures
            r@ == self@.help,
    {
        self.help.as_str()
    }

    pub fn get_action(&self) -> (r: ArgAction)
        ensures
            r == self@.action,
    {
        self.action
    }

    pub fn is_required(&self) -> (r: bool)
        ensures
            r == self@.required,
    {
        self.required
    }

    pub fn get_value_type(&self) -> (r: TypeId)
        ensures
            r == self@.value_type,
    {
        self.value_type
    }

    pub fn get_conflicts(&self) -> (r: &[String])
        ensures
            strs(r@) == self@.conflicts,
    {
        self.conflicts.as_slice()
    }

    /// Whether the argument cannot stand beside the one named `arg_name`.
    pub fn is_conflict_with(&self, arg_name: &str) -> (r: bool)
        ensures
            r == self@.conflicts.contains(arg_name@),
    {
        contains_string(&self.conflicts, arg_name)
    }
}

} // verus!
