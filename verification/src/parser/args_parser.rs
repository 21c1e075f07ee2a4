//! The reader of the command line.

use vstd::prelude::*;
use vstd::string::StrSliceExecFns;
use super::any_value::{ArgType, Datum, TypeId};
use super::arg::{Arg, ArgAction};
use super::arg_cursor::{is_flag, ArgCursor};
use super::matches::{datums, flat, flatten, Matches, MatchesView};
use super::parse_error::{Fault, ParseError};
use super::table::{ascending, name_less, Table};
use super::value_parser::{DefaultParser, Outcome};
use crate::config::{Config, ConfigView};
use crate::langs::lang_def::texts;
use crate::utils::format::OutputFormat;
use crate::utils::strings::{char_to_string, comma_items, decimal, strs, usize_to_string};

verus! {

/// What a flag did: whether it took the word behind it as its value, and the
/// values after it.
pub struct Step {
    pub consumed: bool,
    pub matches: MatchesView,
}

/// What a group of one-letter flags did: how many of the words behind it the
/// flags took as values, and the values after it.
pub struct Run {
    pub used: int,
    pub matches: MatchesView,
}

/// How often a counting flag stood so far.
pub open spec fn counted(m: MatchesView, name: Seq<char>) -> u8 {
    match m.get_one(name, TypeId::U8) {
        Ok(Datum::U8(n)) => n,
        _ => 0u8,
    }
}

/// One more than `n`, or `n` where there is no more.
pub open spec fn next_count(n: u8) -> u8 {
    if n == 255 {
        255u8
    } else {
        (n + 1) as u8
    }
}

/// Whether a value stands at the front of `words`.
pub open spec fn has_value(words: Seq<Seq<char>>) -> bool {
    words.len() > 0 && !is_flag(words[0])
}

/// The values after the parser's outcome `parsed` was kept as the one value
/// of the argument `arg`.
pub open spec fn keep(arg: Arg, parsed: Outcome, consumed: bool, m: MatchesView) -> Result<
    Step,
    Fault,
> {
    match parsed {
        Ok(d) => Ok(Step { consumed, matches: m.set(arg@.name, d, arg@.value_type) }),
        Err(f) => Err(f),
    }
}

/// What the flag of `arg`, written as `key`, does in front of `words` when
/// the values so far are `m`. A flag that sets or appends takes the next
/// word as its value unless that word is a flag; a counting flag hands its
/// parser the new count in decimal digits; a flag that sets `true` hands it
/// the word `true`.
pub open spec fn act(arg: Arg, key: Seq<char>, words: Seq<Seq<char>>, m: MatchesView) -> Result<
    Step,
    Fault,
> {
    let v = arg@;
    match arg@.action {
        ArgAction::SetValue => if has_value(words) {
            keep(arg, arg.parsed(words[0]), true, m)
        } else {
            Err(Fault::NoValue(key))
        },
        ArgAction::Append => if has_value(words) {
            match arg.parsed(words[0]) {
                Ok(d) => match m.append(v.name, d, v.value_type) {
                    Ok(after) => Ok(Step { consumed: true, matches: after }),
                    Err(f) => Err(f),
                },
                Err(f) => Err(f),
            }
        } else {
            Err(Fault::NoValue(key))
        },
        ArgAction::Count => keep(
            arg,
            arg.parsed(decimal(next_count(counted(m, v.name)) as nat)),
            false,
            m,
        ),
        ArgAction::SetTrue => keep(arg, arg.parsed("true"@), false, m),
    }
}

/// What the flag of the argument `found` does, or the failure `missing`
/// where there is no such argument.
pub open spec fn acted(
    found: Option<Arg>,
    missing: Fault,
    key: Seq<char>,
    words: Seq<Seq<char>>,
    m: MatchesView,
) -> Result<Step, Fault> {
    match found {
        None => Err(missing),
        Some(arg) => act(arg, key, words, m),
    }
}

/// Whether the result `r` of a flag's action, with the words and the values
/// that it left, is what `model` says.
pub open spec fn done(
    model: Result<Step, Fault>,
    r: Result<(), ParseError>,
    words: Seq<Seq<char>>,
    left: Seq<Seq<char>>,
    m: MatchesView,
) -> bool {
    match r {
        Ok(_) => model matches Ok(step) && step.matches == m && left == after(words, step.consumed),
        Err(e) => model == Err::<Step, Fault>(e@),
    }
}

/// `words` without the first word if `consumed` holds.
pub open spec fn after(words: Seq<Seq<char>>, consumed: bool) -> Seq<Seq<char>> {
    if consumed && words.len() > 0 {
        words.skip(1)
    } else {
        words
    }
}

/// Whether the word `w` is a long flag: it begins with two hyphens.
pub open spec fn is_long(w: Seq<char>) -> bool {
    w.len() >= 2 && w[0] == '-' && w[1] == '-'
}

/// The reader of the command line: the arguments that it knows, and the
/// flags by which they are written.
pub struct ArgParser {
    args: Table<Arg>,
    long_arg: Table<String>,
    short_arg: Table<String>,
    params: Matches,
}

impl ArgParser {
    /// The tables are in order, and the arguments stand under their own
    /// names, in the order of the names.
    pub closed spec fn wf(&self) -> bool {
        &&& self.args.wf()
        &&& self.long_arg.wf()
        &&& self.short_arg.wf()
        &&& self.params.wf()
        &&& ascending(strs(self.args.keys@))
        &&& forall|i: int|
            0 <= i < self.args.vals@.len() ==> (#[trigger] self.args.vals@[i])@.name
                == self.args.keys@[i]@
    }

    /// The argument named `name`.
    pub closed spec fn arg_named(&self, name: Seq<char>) -> Option<Arg> {
        self.args.get(name)
    }

    /// The name of the argument that the long flag `key` stands for.
    pub closed spec fn long_name(&self, key: Seq<char>) -> Option<Seq<char>> {
        match self.long_arg.get(key) {
            Some(name) => Some(name@),
            None => None,
        }
    }

    /// The name of the argument that the one-letter flag `c` stands for.
    pub closed spec fn short_name(&self, c: char) -> Option<Seq<char>> {
        match self.short_arg.get(seq![c]) {
            Some(name) => Some(name@),
            None => None,
        }
    }

    /// The values that were set by `set_param` and `append_param`.
    pub closed spec fn params(&self) -> MatchesView {
        self.params@
    }

    /// The argument that the long flag `key` stands for.
    pub open spec fn by_long(&self, key: Seq<char>) -> Option<Arg> {
        match self.long_name(key) {
            Some(name) => self.arg_named(name),
            None => None,
        }
    }

    /// The argument that the one-letter flag `c` stands for.
    pub open spec fn by_short(&self, c: char) -> Option<Arg> {
        match self.short_name(c) {
            Some(name) => self.arg_named(name),
            None => None,
        }
    }

    /// Whether the parser of every argument can be called on every text.
    pub open spec fn ready(&self) -> bool {
        forall|name: Seq<char>| (#[trigger] self.arg_named(name)) matches Some(arg) ==> arg.ready()
    }

    /// What the long flag `key` does in front of `words`.
    pub open spec fn long_step(&self, key: Seq<char>, words: Seq<Seq<char>>, m: MatchesView) -> Result<
        Step,
        Fault,
    > {
        acted(self.by_long(key), Fault::UnknownFlag(key), key, words, m)
    }

    /// What the one-letter flag `c` does in front of `words`.
    pub open spec fn short_step(&self, c: char, words: Seq<Seq<char>>, m: MatchesView) -> Result<
        Step,
        Fault,
    > {
        acted(self.by_short(c), Fault::UnknownFlag(seq![c]), seq![c], words, m)
    }

    /// What the argument named `name` does when the word `w`, which is no
    /// flag, stands in front of `words`.
    pub open spec fn value_step(
        &self,
        w: Seq<char>,
        name: Seq<char>,
        words: Seq<Seq<char>>,
        m: MatchesView,
    ) -> Result<Step, Fault> {
        acted(self.arg_named(name), Fault::UnknownArg(name), w, words, m)
    }

    /// What the one-letter flags `flags` do, one after the other, in front
    /// of `words`.
    pub open spec fn shorts(&self, flags: Seq<char>, words: Seq<Seq<char>>, m: MatchesView) -> Result<
        Run,
        Fault,
    >
        decreases flags.len(),
    {
        if flags.len() == 0 {
            Ok(Run { used: 0, matches: m })
        } else {
            match self.short_step(flags[0], words, m) {
                Err(f) => Err(f),
                Ok(step) => match self.shorts(
                    flags.skip(1),
                    after(words, step.consumed),
                    step.matches,
                ) {
                    Err(f) => Err(f),
                    Ok(run) => Ok(
                        Run {
                            used: run.used + (if step.consumed && words.len() > 0 {
                                1int
                            } else {
                                0int
                            }),
                            matches: run.matches,
                        },
                    ),
                },
            }
        }
    }

    /// The values that the words `words` give, read from the first word on,
    /// when the values so far are `m` and `cur` is the long flag that stood
    /// last. A word with two hyphens is a long flag; any other word with a
    /// hyphen is a group of one-letter flags; a word without hyphen brings
    /// the argument named as the last long flag to act once more, and is
    /// passed over where no long flag stood last.
    pub open spec fn run(&self, words: Seq<Seq<char>>, m: MatchesView, cur: Option<Seq<char>>) -> Result<
        MatchesView,
        Fault,
    >
        decreases words.len(),
    {
        if words.len() == 0 {
            Ok(m)
        } else {
            let w = words[0];
            let rest = words.skip(1);
            if is_long(w) {
                let key = w.skip(2);
                match self.long_step(key, rest, m) {
                    Err(f) => Err(f),
                    Ok(step) => self.run(after(rest, step.consumed), step.matches, Some(key)),
                }
            } else if is_flag(w) {
                match self.shorts(w.skip(1), rest, m) {
                    Err(f) => Err(f),
                    Ok(run) => if 0 <= run.used <= rest.len() {
                        self.run(rest.skip(run.used), run.matches, None)
                    } else {
                        Ok(run.matches)
                    },
                }
            } else {
                match cur {
                    None => self.run(rest, m, cur),
                    Some(name) => match self.value_step(w, name, rest, m) {
                        Err(f) => Err(f),
                        Ok(step) => self.run(after(rest, step.consumed), step.matches, cur),
                    },
                }
            }
        }
    }

    /// A group of flags takes no more words than there are.
    pub proof fn lemma_shorts_used(&self, flags: Seq<char>, words: Seq<Seq<char>>, m: MatchesView)
        ensures
            self.shorts(flags, words, m) matches Ok(run) ==> 0 <= run.used <= words.len(),
        decreases flags.len(),
    {
        if flags.len() > 0 {
            match self.short_step(flags[0], words, m) {
                Err(_) => {},
                Ok(step) => {
                    self.lemma_shorts_used(flags.skip(1), after(words, step.consumed), step.matches);
                },
            }
        }
    }

    /// A reader that knows no argument.
    pub fn new() -> (parser: Self)
        ensures
            parser.wf(),
            parser.ready(),
            parser.params() == MatchesView::empty(),
            forall|name: Seq<char>| #[trigger] parser.arg_named(name) is None,
            forall|key: Seq<char>| #[trigger] parser.long_name(key) is None,
            forall|c: char| #[trigger] parser.short_name(c) is None,
    {
        ArgParser {
            args: Table::new(),
            long_arg: Table::new(),
            short_arg: Table::new(),
            params: Matches::new(),
        }
    }

    /// The reader with the argument `arg` added.
    pub fn arg(self, arg: Arg) -> (parser: Self)
        requires
            self.wf(),
        ensures
            parser.wf(),
            parser.params() == self.params(),
            forall|name: Seq<char>| #[trigger]
                parser.arg_named(name) == (if name == arg@.name {
                    Some(arg)
                } else {
                    self.arg_named(name)
                }),
            forall|key: Seq<char>| #[trigger]
                parser.long_name(key) == (if arg@.long == Some(key) {
                    Some(arg@.name)
                } else {
                    self.long_name(key)
                }),
            forall|c: char| #[trigger]
                parser.short_name(c) == (if arg@.short == Some(c) {
                    Some(arg@.name)
                } else {
                    self.short_name(c)
                }),
    {
        let mut parser = self;
        parser.add_arg(arg);
        parser
    }

    /// Adds the argument `arg`, in place of the one of the same name if
    /// there is one, and lets its flags stand for it.
    pub fn add_arg(&mut self, arg: Arg)
        requires
            old(self).wf(),
        ensures
            final(self).wf(),
            final(self).params() == old(self).params(),
            forall|name: Seq<char>| #[trigger]
                final(self).arg_named(name) == (if name == arg@.name {
                    Some(arg)
                } else {
                    old(self).arg_named(name)
                }),
            forall|key: Seq<char>| #[trigger]
                final(self).long_name(key) == (if arg@.long == Some(key) {
                    Some(arg@.name)
                } else {
                    old(self).long_name(key)
                }),
            forall|c: char| #[trigger]
                final(self).short_name(c) == (if arg@.short == Some(c) {
                    Some(arg@.name)
                } else {
                    old(self).short_name(c)
                }),
    {
        let name: String = arg.get_name().to_owned();
        match arg.get_long() {
            Some(long) => {
                self.long_arg.put(long, name.clone());
            },
            None => {},
        }
        match arg.get_short() {
            Some(short) => {
                let key = char_to_string(short);
                self.short_arg.put(key.as_str(), name.clone());
            },
            None => {},
        }
        let ghost keys = strs(self.args.keys@);
        let ghost vals = self.args.vals@;
        self.args.put_sorted(name.as_str(), arg);
        proof {
            assert forall|i: int| 0 <= i < self.args.vals@.len() implies (
            #[trigger] self.args.vals@[i])@.name == self.args.keys@[i]@ by {
                crate::utils::strings::lemma_index_of(keys, name@, 0);
                match crate::utils::strings::index_of(keys, name@, 0) {
                    Some(k) => {
                        assert(strs(self.args.keys@)[i] == keys[i]);
                        if i != k {
                            assert(self.args.vals@[i] == vals[i]);
                        }
                    },
                    None => {
                        let p = choose|p: int|
                            0 <= p <= keys.len() && strs(self.args.keys@) == (#[trigger] keys.insert(
                                p,
                                name@,
                            )) && self.args.vals@ == vals.insert(p, arg);
                        assert(strs(self.args.keys@)[i] == keys.insert(p, name@)[i]);
                        if i < p {
                            assert(self.args.vals@[i] == vals[i]);
                            assert(keys.insert(p, name@)[i] == keys[i]);
                        } else if i > p {
                            assert(self.args.vals@[i] == vals[i - 1]);
                            assert(keys.insert(p, name@)[i] == keys[i - 1]);
                        }
                    },
                }
            }
            assert forall|c: char| true implies #[trigger] self.short_name(c) == (if arg@.short
                == Some(c) {
                Some(arg@.name)
            } else {
                old(self).short_name(c)
            }) by {
                match arg@.short {
                    Some(short) => {
                        if c != short {
                            assert(seq![c][0] != seq![short][0]);
                        }
                    },
                    None => {},
                }
            }
        }
    }

    /// The argument named `name`.
    pub fn get_arg(&self, name: &str) -> (r: Option<&Arg>)
        requires
            self.wf(),
        ensures
            match r {
                Some(arg) => self.arg_named(name@) == Some(*arg),
                None => self.arg_named(name@) is None,
            },
    {
        self.args.find(name)
    }

    /// The argument that the long flag `long` stands for.
    pub fn get_arg_by_long(&self, long: &str) -> (r: Option<&Arg>)
        requires
            self.wf(),
        ensures
            match r {
                Some(arg) => self.by_long(long@) == Some(*arg),
                None => self.by_long(long@) is None,
            },
    {
        match self.long_arg.find(long) {
            Some(name) => self.args.find(name.as_str()),
            None => None,
        }
    }

    /// The argument that the one-letter flag `short` stands for.
    pub fn get_arg_by_short(&self, short: char) -> (r: Option<&Arg>)
        requires
            self.wf(),
        ensures
            match r {
                Some(arg) => self.by_short(short) == Some(*arg),
                None => self.by_short(short) is None,
            },
    {
        let key = char_to_string(short);
        match self.short_arg.find(key.as_str()) {
            Some(name) => self.args.find(name.as_str()),
            None => None,
        }
    }

    /// The arguments, in the order of their names.
    pub closed spec fn listed(&self) -> Seq<Arg> {
        self.args.vals@
    }

    /// The arguments, in the order of their names: each name stands before
    /// those behind it, by the bytes of its text.
    pub fn get_args(&self) -> (r: &Vec<Arg>)
        requires
            self.wf(),
        ensures
            r@ == self.listed(),
            forall|i: int, j: int|
                0 <= i < j < r@.len() ==> name_less((#[trigger] r@[i])@.name, (#[trigger] r@[j])@.name),
            forall|i: int| 0 <= i < r@.len() ==> self.arg_named((#[trigger] r@[i])@.name) == Some(r@[i]),
    {
        proof {
            let keys = strs(self.args.keys@);
            assert forall|i: int, j: int| 0 <= i < j < self.args.vals@.len() implies name_less(
                (#[trigger] self.args.vals@[i])@.name,
                (#[trigger] self.args.vals@[j])@.name,
            ) by {
                assert(name_less(keys[i], keys[j]));
            }
            assert forall|i: int| 0 <= i < self.args.vals@.len() implies self.arg_named(
                (#[trigger] self.args.vals@[i])@.name,
            ) == Some(self.args.vals@[i]) by {
                assert forall|t: int| 0 <= t < i implies keys[t] != keys[i] by {
                    assert(name_less(keys[t], keys[i]));
                    crate::syntax::text::lemma_bytes_less_total(
                        vstd::utf8::encode_utf8(keys[t]),
                        vstd::utf8::encode_utf8(keys[i]),
                    );
                }
                crate::utils::strings::lemma_index_is(keys, keys[i], i);
            }
        }
        &self.args.vals
    }

    /// Reads `value` by the parser of the argument `name` and keeps it as
    /// the argument's one value among the reader's own values. The argument
    /// must be known and keep its values under `value_type`.
    pub fn set_param(&mut self, name: &str, value: String, value_type: TypeId) -> (r: Result<
        (),
        ParseError,
    >)
        requires
            old(self).wf(),
            old(self).ready(),
        ensures
            final(self).wf(),
            forall|other: Seq<char>| #[trigger] final(self).arg_named(other) == old(self).arg_named(other),
            match r {
                Ok(_) => old(self).fed(name@, value@, value_type) matches Ok(d)
                    && final(self).params() == old(self).params().set(name@, d, value_type),
                Err(e) => old(self).fed(name@, value@, value_type) == Err::<Datum, Fault>(e@)
                    && final(self).params() == old(self).params(),
            },
    {
        let parsed = match self.args.find(name) {
            None => {
                return Err(ParseError::UnknownArg(name.to_owned()));
            },
            Some(arg) => {
                let expected: TypeId = arg.get_value_type();
                if expected != value_type {
                    return Err(
                        ParseError::ArgMismatch {
                            name: name.to_owned(),
                            expected,
                            actual: value_type,
                        },
                    );
                }
                arg.parse(value.as_str())
            },
        };
        match parsed {
            Ok(v) => self.params.set(name, v, value_type),
            Err(e) => Err(e),
        }
    }

    /// What the parser of the argument `name` makes of `value`, for an
    /// argument that is known and keeps its values under `value_type`.
    pub open spec fn fed(&self, name: Seq<char>, value: Seq<char>, value_type: TypeId) -> Result<
        Datum,
        Fault,
    > {
        match self.arg_named(name) {
            None => Err(Fault::UnknownArg(name)),
            Some(arg) => if arg@.value_type != value_type {
                Err(Fault::ArgMismatch { name, expected: arg@.value_type, actual: value_type })
            } else {
                arg.parsed(value)
            },
        }
    }

    /// Reads `value` by the parser of the argument `name` and keeps it as
    /// one more value of the argument among the reader's own values.
    pub fn append_param(&mut self, name: &str, value: String, value_type: TypeId) -> (r: Result<
        (),
        ParseError,
    >)
        requires
            old(self).wf(),
            old(self).ready(),
        ensures
            final(self).wf(),
            forall|other: Seq<char>| #[trigger] final(self).arg_named(other) == old(self).arg_named(other),
            match r {
                Ok(_) => old(self).fed(name@, value@, value_type) matches Ok(d) && old(
                    self,
                ).params().append(name@, d, value_type) == Ok::<MatchesView, Fault>(
                    final(self).params(),
                ),
                Err(e) => final(self).params() == old(self).params() && (match old(self).fed(
                    name@,
                    value@,
                    value_type,
                ) {
                    Ok(d) => old(self).params().append(name@, d, value_type) == Err::<
                        MatchesView,
                        Fault,
                    >(e@),
                    Err(f) => f == e@,
                }),
            },
    {
        let parsed = match self.args.find(name) {
            None => {
                return Err(ParseError::UnknownArg(name.to_owned()));
            },
            Some(arg) => {
                let expected: TypeId = arg.get_value_type();
                if expected != value_type {
                    return Err(
                        ParseError::ArgMismatch {
                            name: name.to_owned(),
                            expected,
                            actual: value_type,
                        },
                    );
                }
                arg.parse(value.as_str())
            },
        };
        match parsed {
            Ok(v) => self.params.append(name, v, value_type),
            Err(e) => Err(e),
        }
    }

    /// The last of the reader's own values of the argument `name`.
    pub fn get_one<T: ArgType>(&self, name: &str) -> (r: Result<&T, ParseError>)
        requires
            self.wf(),
        ensures
            match r {
                Ok(v) => self.params().get_one(name@, T::spec_type_id()) == Ok::<Datum, Fault>(
                    v.datum(),
                ),
                Err(e) => self.params().get_one(name@, T::spec_type_id()) == Err::<Datum, Fault>(
                    e@,
                ),
            },
    {
        self.params.get_one(name)
    }

    /// All of the reader's own values of the argument `name`.
    pub fn get_many<T: ArgType>(&self, name: &str) -> (r: Result<Vec<&T>, ParseError>)
        requires
            self.wf(),
        ensures
            match r {
                Ok(v) => self.params().get_many(name@, T::spec_type_id()) == Ok::<
                    Seq<Datum>,
                    Fault,
                >(datums(v@)),
                Err(e) => self.params().get_many(name@, T::spec_type_id()) == Err::<
                    Seq<Datum>,
                    Fault,
                >(e@),
            },
    {
        self.params.get_many(name)
    }
}

impl ArgParser {
    /// Lets the flag of `arg`, written as `key`, act on the words that the
    /// cursor holds and on `matches`.
    pub fn act_parse(
        &self,
        key: &str,
        arg: &Arg,
        cursor: &mut ArgCursor,
        matches: &mut Matches,
    ) -> (r: Result<(), ParseError>)
        requires
            arg.ready(),
            old(matches).wf(),
        ensures
            final(matches).wf(),
            done(
                act(*arg, key@, old(cursor).remaining(), old(matches)@),
                r,
                old(cursor).remaining(),
                final(cursor).remaining(),
                final(matches)@,
            ),
    {
        match arg.get_action() {
            ArgAction::SetValue => {
                let value: String = match cursor.next_if_value() {
                    Some(value) => value,
                    None => {
                        return Err(ParseError::NoValue(key.to_owned()));
                    },
                };
                match arg.parse(value.as_str()) {
                    Ok(v) => matches.set(arg.get_name(), v, arg.get_value_type()),
                    Err(e) => Err(e),
                }
            },
            ArgAction::Append => {
                let value: String = match cursor.next_if_value() {
                    Some(value) => value,
                    None => {
                        return Err(ParseError::NoValue(key.to_owned()));
                    },
                };
                match arg.parse(value.as_str()) {
                    Ok(v) => matches.append(arg.get_name(), v, arg.get_value_type()),
                    Err(e) => Err(e),
                }
            },
            ArgAction::Count => {
                let cnt: u8 = match matches.try_get_one::<u8>(arg.get_name()) {
                    Some(n) => *n,
                    None => 0,
                };
                let new: u8 = if cnt == 255 {
                    255
                } else {
                    cnt + 1
                };
                let text: String = usize_to_string(new as usize);
                match arg.parse(text.as_str()) {
                    Ok(v) => matches.set(arg.get_name(), v, arg.get_value_type()),
                    Err(e) => Err(e),
                }
            },
            ArgAction::SetTrue => {
                match arg.parse("true") {
                    Ok(v) => matches.set(arg.get_name(), v, arg.get_value_type()),
                    Err(e) => Err(e),
                }
            },
        }
    }

    /// Lets the long flag `key` act.
    pub fn handle_long_flag(&self, key: &str, cursor: &mut ArgCursor, matches: &mut Matches) -> (r:
        Result<(), ParseError>)
        requires
            self.wf(),
            self.ready(),
            old(matches).wf(),
        ensures
            final(matches).wf(),
            done(
                self.long_step(key@, old(cursor).remaining(), old(matches)@),
                r,
                old(cursor).remaining(),
                final(cursor).remaining(),
                final(matches)@,
            ),
    {
        match self.get_arg_by_long(key) {
            Some(arg) => self.act_parse(key, arg, cursor, matches),
            None => Err(ParseError::UnknownFlag(key.to_owned())),
        }
    }

    /// Lets the one-letter flag `key` act.
    pub fn handle_short_flag(&self, key: char, cursor: &mut ArgCursor, matches: &mut Matches) -> (r:
        Result<(), ParseError>)
        requires
            self.wf(),
            self.ready(),
            old(matches).wf(),
        ensures
            final(matches).wf(),
            done(
                self.short_step(key, old(cursor).remaining(), old(matches)@),
                r,
                old(cursor).remaining(),
                final(cursor).remaining(),
                final(matches)@,
            ),
    {
        let text: String = char_to_string(key);
        match self.get_arg_by_short(key) {
            Some(arg) => self.act_parse(text.as_str(), arg, cursor, matches),
            None => Err(ParseError::UnknownFlag(text)),
        }
    }

    /// Lets the argument named `cur` act on the word `key`, which is no
    /// flag.
    pub fn handle_value(
        &self,
        key: &str,
        cur: &str,
        cursor: &mut ArgCursor,
        matches: &mut Matches,
    ) -> (r: Result<(), ParseError>)
        requires
            self.wf(),
            self.ready(),
            old(matches).wf(),
        ensures
            final(matches).wf(),
            done(
                self.value_step(key@, cur@, old(cursor).remaining(), old(matches)@),
                r,
                old(cursor).remaining(),
                final(cursor).remaining(),
                final(matches)@,
            ),
    {
        match self.get_arg(cur) {
            Some(arg) => self.act_parse(key, arg, cursor, matches),
            None => Err(ParseError::UnknownArg(cur.to_owned())),
        }
    }

    /// Lets the one-letter flags of `flags` act, one after the other.
    fn handle_short_flags(&self, flags: &str, cursor: &mut ArgCursor, matches: &mut Matches) -> (r:
        Result<(), ParseError>)
        requires
            self.wf(),
            self.ready(),
            old(matches).wf(),
        ensures
            final(matches).wf(),
            match r {
                Ok(_) => self.shorts(flags@, old(cursor).remaining(), old(matches)@) matches Ok(
                    run,
                ) && run.matches == final(matches)@ && 0 <= run.used <= old(
                    cursor,
                ).remaining().len() && final(cursor).remaining() == old(cursor).remaining().skip(
                    run.used,
                ),
                Err(e) => self.shorts(flags@, old(cursor).remaining(), old(matches)@) == Err::<
                    Run,
                    Fault,
                >(e@),
            },
    {
        let n: usize = flags.unicode_len();
        let ghost words = cursor.remaining();
        let ghost start = matches@;
        let ghost goal = self.shorts(flags@, words, start);
        let mut used: Ghost<int> = Ghost(0);
        let mut k: usize = 0;
        assert(flags@.skip(0) =~= flags@);
        assert(words.skip(0) =~= words);
        while k < n
            invariant
                k <= n,
                n == flags@.len(),
                self.wf(),
                self.ready(),
                matches.wf(),
                0 <= used@ <= words.len(),
                cursor.remaining() == words.skip(used@),
                goal == self.shorts(flags@, words, start),
                words == old(cursor).remaining(),
                start == old(matches)@,
                match self.shorts(flags@.skip(k as int), cursor.remaining(), matches@) {
                    Ok(run) => goal == Ok::<Run, Fault>(
                        Run { used: run.used + used@, matches: run.matches },
                    ),
                    Err(f) => goal == Err::<Run, Fault>(f),
                },
            decreases n - k,
        {
            let c: char = flags.get_char(k);
            let ghost left = cursor.remaining();
            let ghost had = matches@;
            proof {
                assert(flags@.skip(k as int)[0] == c);
                assert(flags@.skip(k as int).skip(1) =~= flags@.skip(k + 1));
                self.lemma_shorts_used(flags@.skip(k + 1), left, had);
                self.lemma_shorts_used(flags@.skip(k + 1), after(left, true), had);
            }
            match self.handle_short_flag(c, cursor, matches) {
                Ok(_) => {},
                Err(e) => {
                    return Err(e);
                },
            }
            proof {
                let step = self.short_step(c, left, had)->Ok_0;
                if step.consumed && left.len() > 0 {
                    assert(left.skip(1) =~= words.skip(used@ + 1));
                    used@ = used@ + 1;
                }
            }
            k = k + 1;
        }
        assert(flags@.skip(n as int).len() == 0);
        Ok(())
    }

    /// Reads the words of a command line into the values of the arguments.
    pub fn build_matches(&mut self, args: Vec<&str>) -> (r: Result<Matches, ParseError>)
        requires
            old(self).wf(),
            old(self).ready(),
        ensures
            *final(self) == *old(self),
            match r {
                Ok(m) => m.wf() && old(self).run(texts(args@), MatchesView::empty(), None) == Ok::<
                    MatchesView,
                    Fault,
                >(m@),
                Err(e) => old(self).run(texts(args@), MatchesView::empty(), None) == Err::<
                    MatchesView,
                    Fault,
                >(e@),
            },
    {
        let mut words: Vec<String> = Vec::new();
        let mut i: usize = 0;
        while i < args.len()
            invariant
                i <= args@.len(),
                words@.len() == i,
                forall|j: int| 0 <= j < i ==> words@[j]@ == args@[j]@,
            decreases args@.len() - i,
        {
            words.push(args[i].to_owned());
            i = i + 1;
        }
        assert(strs(words@) =~= texts(args@));
        let ghost all = texts(args@);
        let ghost goal = self.run(all, MatchesView::empty(), None);
        let mut cursor = ArgCursor::new(words);
        let mut matches = Matches::new();
        let mut cur_arg: Option<String> = None;
        loop
            invariant
                self.wf(),
                self.ready(),
                *self == *old(self),
                matches.wf(),
                goal == old(self).run(texts(args@), MatchesView::empty(), None),
                goal == self.run(
                    cursor.remaining(),
                    matches@,
                    match cur_arg {
                        Some(s) => Some(s@),
                        None => None,
                    },
                ),
            ensures
                match goal {
                    Ok(m) => m == matches@,
                    Err(_) => false,
                },
            decreases cursor.remaining().len(),
        {
            let ghost before = cursor.remaining();
            let word: String = match cursor.next() {
                Some(word) => word,
                None => {
                    break ;
                },
            };
            let ghost rest = cursor.remaining();
            let ghost had = matches@;
            let n: usize = word.as_str().unicode_len();
            if n >= 2 && word.as_str().get_char(0) == '-' && word.as_str().get_char(1) == '-' {
                let key: &str = word.as_str().substring_char(2, n);
                assert(key@ =~= word@.skip(2));
                match self.handle_long_flag(key, &mut cursor, &mut matches) {
                    Ok(_) => {},
                    Err(e) => {
                        return Err(e);
                    },
                }
                cur_arg = Some(key.to_owned());
            } else if n >= 1 && word.as_str().get_char(0) == '-' {
                let flags: &str = word.as_str().substring_char(1, n);
                assert(flags@ =~= word@.skip(1));
                proof {
                    self.lemma_shorts_used(flags@, rest, had);
                }
                match self.handle_short_flags(flags, &mut cursor, &mut matches) {
                    Ok(_) => {},
                    Err(e) => {
                        return Err(e);
                    },
                }
                cur_arg = None;
            } else {
                match &cur_arg {
                    Some(cur) => {
                        match self.handle_value(word.as_str(), cur.as_str(), &mut cursor, &mut matches) {
                            Ok(_) => {},
                            Err(e) => {
                                return Err(e);
                            },
                        }
                    },
                    None => {},
                }
            }
        }
        Ok(matches)
    }
}

/// The texts that `m` holds for the list argument `key`, or `otherwise`
/// where it holds none.
pub open spec fn list_or(m: MatchesView, key: Seq<char>, otherwise: Seq<Seq<char>>) -> Seq<
    Seq<char>,
> {
    match m.get_many(key, TypeId::TextList) {
        Ok(lists) => flat(lists),
        Err(_) => otherwise,
    }
}

/// The truth value that `m` holds for `key`, or `otherwise` where it holds
/// none.
pub open spec fn flag_or(m: MatchesView, key: Seq<char>, otherwise: bool) -> bool {
    match m.get_one(key, TypeId::Bool) {
        Ok(Datum::Bool(b)) => b,
        _ => otherwise,
    }
}

/// The format that `m` holds for `key`, or `otherwise` where it holds none.
pub open spec fn format_or(m: MatchesView, key: Seq<char>, otherwise: OutputFormat) -> OutputFormat {
    match m.get_one(key, TypeId::Format) {
        Ok(Datum::Format(f)) => f,
        _ => otherwise,
    }
}

/// The settings that the values `m` ask for: what `m` does not speak of
/// stays as it is where nothing is asked for.
pub open spec fn configured(m: MatchesView) -> ConfigView {
    let base = Config::initial();
    ConfigView {
        paths: list_or(m, "path"@, base.paths),
        types: list_or(m, "type"@, base.types),
        ignore_blanks: flag_or(m, "ignore-blanks"@, base.ignore_blanks),
        ignore_comments: flag_or(m, "ignore-comments"@, base.ignore_comments),
        exclude_files: list_or(m, "exclude-files"@, base.exclude_files),
        show_stats: base.show_stats,
        output: format_or(m, "output"@, base.output),
        help: flag_or(m, "help"@, base.help),
        num_workers: base.num_workers,
        enable_async: base.enable_async,
    }
}

impl ArgParser {
    /// The settings that `matches` asks for.
    pub fn parse_matches(&self, matches: &Matches) -> (r: Result<Config, ParseError>)
        requires
            matches.wf(),
        ensures
            r matches Ok(config) && config@ == configured(matches@),
    {
        let mut config = Config::new();
        match matches.get_many::<Vec<String>>("path") {
            Ok(lists) => {
                config.paths = flatten(&lists);
            },
            Err(_) => {},
        }
        match matches.get_many::<Vec<String>>("type") {
            Ok(lists) => {
                config.types = flatten(&lists);
            },
            Err(_) => {},
        }
        match matches.get_many::<Vec<String>>("exclude-files") {
            Ok(lists) => {
                config.exclude_files = flatten(&lists);
            },
            Err(_) => {},
        }
        match matches.get_one::<bool>("ignore-blanks") {
            Ok(b) => {
                config.ignore_blanks = *b;
            },
            Err(_) => {},
        }
        match matches.get_one::<bool>("ignore-comments") {
            Ok(b) => {
                config.ignore_comments = *b;
            },
            Err(_) => {},
        }
        match matches.get_one::<OutputFormat>("output") {
            Ok(f) => {
                config.output = *f;
            },
            Err(_) => {},
        }
        match matches.get_one::<bool>("help") {
            Ok(b) => {
                config.help = *b;
            },
            Err(_) => {},
        }
        Ok(config)
    }
}

/// The names of the standard arguments differ from each other.
pub proof fn lemma_names_differ()
    ensures
        "help"@ != "path"@,
        "help"@ != "type"@,
        "help"@ != "exclude-files"@,
        "help"@ != "ignore-blanks"@,
        "help"@ != "ignore-comments"@,
        "help"@ != "output"@,
        "path"@ != "type"@,
        "path"@ != "exclude-files"@,
        "path"@ != "ignore-blanks"@,
        "path"@ != "ignore-comments"@,
        "path"@ != "output"@,
        "type"@ != "exclude-files"@,
        "type"@ != "ignore-blanks"@,
        "type"@ != "ignore-comments"@,
        "type"@ != "output"@,
        "exclude-files"@ != "ignore-blanks"@,
        "exclude-files"@ != "ignore-comments"@,
        "exclude-files"@ != "output"@,
        "ignore-blanks"@ != "ignore-comments"@,
        "ignore-blanks"@ != "output"@,
        "ignore-comments"@ != "output"@,
{
    reveal_strlit("help");
    reveal_strlit("path");
    reveal_strlit("type");
    reveal_strlit("exclude-files");
    reveal_strlit("ignore-blanks");
    reveal_strlit("ignore-comments");
    reveal_strlit("output");
    assert("help"@.len() == 4 && "path"@.len() == 4 && "type"@.len() == 4);
    assert("output"@.len() == 6);
    assert("exclude-files"@.len() == 13 && "ignore-blanks"@.len() == 13);
    assert("ignore-comments"@.len() == 15);
    assert("help"@[0] != "path"@[0]);
    assert("help"@[0] != "type"@[0]);
    assert("path"@[0] != "type"@[0]);
    assert("exclude-files"@[0] != "ignore-blanks"@[0]);
}

/// What holds of the reader of the counter's own command line.
pub open spec fn is_standard(parser: &ArgParser) -> bool {
    &&& parser.wf()
    &&& parser.ready()
    &&& parser.long_name("help"@) == Some("help"@)
    &&& parser.long_name("path"@) == Some("path"@)
    &&& parser.long_name("type"@) == Some("type"@)
    &&& parser.long_name("exclude-files"@) == Some("exclude-files"@)
    &&& parser.long_name("ignore-blanks"@) == Some("ignore-blanks"@)
    &&& parser.long_name("ignore-comments"@) == Some("ignore-comments"@)
    &&& parser.long_name("output"@) == Some("output"@)
    &&& parser.short_name('h') == Some("help"@)
    &&& parser.short_name('p') == Some("path"@)
    &&& parser.short_name('t') == Some("type"@)
    &&& parser.short_name('e') == Some("exclude-files"@)
    &&& parser.short_name('o') == Some("output"@)
    &&& forall|name: Seq<char>|
        (#[trigger] parser.arg_named(name)) matches Some(arg) ==> arg@.name == name && (
        arg@.value_type == TypeId::Bool ==> arg@.action == ArgAction::SetTrue) && (
        arg@.value_type != TypeId::Bool ==> arg@.action == ArgAction::SetValue)
    &&& forall|name: Seq<char>|
        (#[trigger] parser.arg_named(name)) is Some <==> (name == "help"@ || name == "path"@
            || name == "type"@ || name == "exclude-files"@ || name == "ignore-blanks"@ || name
            == "ignore-comments"@ || name == "output"@)
    &&& parser.arg_named("help"@) matches Some(arg) && arg@.value_type == TypeId::Bool
    &&& parser.arg_named("ignore-blanks"@) matches Some(arg) && arg@.value_type == TypeId::Bool
    &&& parser.arg_named("ignore-comments"@) matches Some(arg) && arg@.value_type == TypeId::Bool
    &&& parser.arg_named("path"@) matches Some(arg) && arg@.value_type == TypeId::TextList
        && forall|value: Seq<char>| #[trigger]
        arg.parsed(value) == Outcome::Ok(Datum::TextList(comma_items(value)))
    &&& parser.arg_named("type"@) matches Some(arg) && arg@.value_type == TypeId::TextList
        && forall|value: Seq<char>| #[trigger]
        arg.parsed(value) == Outcome::Ok(Datum::TextList(comma_items(value)))
    &&& parser.arg_named("exclude-files"@) matches Some(arg) && arg@.value_type
        == TypeId::TextList && forall|value: Seq<char>| #[trigger]
        arg.parsed(value) == Outcome::Ok(Datum::TextList(comma_items(value)))
    &&& parser.arg_named("output"@) matches Some(arg) && arg@.value_type == TypeId::Format
}

/// The reader of the counter's own command line: the flags `help`,
/// `ignore-blanks` and `ignore-comments`, the lists `path`, `type` and
/// `exclude-files`, whose items commas separate, and the format
/// `output`.
pub fn standard() -> (parser: ArgParser)
    ensures
        is_standard(&parser),
{
    let flag: DefaultParser<bool> = DefaultParser::new();
    let blanks: DefaultParser<bool> = DefaultParser::new();
    let comments: DefaultParser<bool> = DefaultParser::new();
    let format: DefaultParser<OutputFormat> = DefaultParser::new();
    proof {
        lemma_names_differ();
    }
    ArgParser::new().arg(
        Arg::new("help").short('h').long("help").help("显示帮助信息").parser(flag).action(
            ArgAction::SetTrue,
        ),
    ).arg(
        Arg::new("path").short('p').long("path").help("指定要分析的路径").default_parser::<Vec<String>>(),
    ).arg(
        Arg::new("type").short('t').long("type").help("指定要分析的语言类型").default_parser::<Vec<String>>(),
    ).arg(
        Arg::new("exclude-files").short('e').long("exclude-files").help(
            "指定要忽略的文件或目录，多个以逗号分隔",
        ).default_parser::<Vec<String>>(),
    ).arg(
        Arg::new("ignore-blanks").long("ignore-blanks").help("忽略空白行").parser(
            blanks,
        ).action(ArgAction::SetTrue),
    ).arg(
        Arg::new("ignore-comments").long("ignore-comments").help("忽略注释行").parser(
            comments,
        ).action(ArgAction::SetTrue),
    ).arg(
        Arg::new("output").short('o').long("output").help("指定输出文件").parser(format),
    )
}

impl ArgParser {
    /// The reader of the counter's own command line.
    pub fn default() -> (parser: ArgParser)
        ensures
            is_standard(&parser),
    {
        standard()
    }
}

} // verus!
