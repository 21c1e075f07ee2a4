//! The values that a command line gave to the arguments.

use vstd::prelude::*;
use vstd::string::StringExecFns;
use super::any_value::{AnyValue, ArgType, Datum, TypeId};
use super::parse_error::{Fault, ParseError};
use crate::utils::format::OutputFormat;
use crate::utils::strings::{index_of, lemma_index_of, lemma_index_push, position, strs};

verus! {

/// The values that one argument was given, in the order in which they came.
#[derive(Debug)]
pub struct MatchedArg {
    pub values: Vec<AnyValue>,
}

impl View for MatchedArg {
    type V = Seq<Datum>;

    open spec fn view(&self) -> Seq<Datum> {
        Seq::new(self.values@.len(), |i: int| self.values@[i]@)
    }
}

impl MatchedArg {
    /// No value.
    pub fn new() -> (r: Self)
        ensures
            r@ == Seq::<Datum>::empty(),
    {
        let r = MatchedArg { values: Vec::new() };
        assert(r@ =~= Seq::<Datum>::empty());
        r
    }

    /// The values of `vec`.
    pub fn from_vec(vec: Vec<AnyValue>) -> (r: Self)
        ensures
            r.values == vec,
    {
        MatchedArg { values: vec }
    }

    /// Adds `value` behind the values that are there.
    pub fn push(&mut self, value: AnyValue)
        ensures
            final(self)@ == old(self)@.push(value@),
    {
        self.values.push(value);
        assert(self@ =~= old(self)@.push(value@));
    }
}

impl Clone for MatchedArg {
    fn clone(&self) -> (r: MatchedArg)
        ensures
            r@ == self@,
    {
        let mut values: Vec<AnyValue> = Vec::new();
        let mut i: usize = 0;
        while i < self.values.len()
            invariant
                i <= self.values@.len(),
                values@.len() == i,
                forall|j: int| 0 <= j < i ==> values@[j]@ == self.values@[j]@,
            decreases self.values@.len() - i,
        {
            values.push(self.values[i].clone());
            i = i + 1;
        }
        let r = MatchedArg { values };
        assert(r@ =~= self@);
        r
    }
}

/// The values and the types of all arguments as mathematical values.
pub struct MatchesView {
    pub values: Map<Seq<char>, Seq<Datum>>,
    pub types: Map<Seq<char>, TypeId>,
}

impl MatchesView {
    /// Nothing was given.
    pub open spec fn empty() -> MatchesView {
        MatchesView { values: Map::empty(), types: Map::empty() }
    }

    /// The argument `name` has the one value `value`, of type `value_type`.
    pub open spec fn set(self, name: Seq<char>, value: Datum, value_type: TypeId) -> MatchesView {
        MatchesView {
            values: self.values.insert(name, seq![value]),
            types: self.types.insert(name, value_type),
        }
    }

    /// The argument `name` has one more value, or a failure where its values
    /// are kept under another type than `value_type`.
    pub open spec fn append(self, name: Seq<char>, value: Datum, value_type: TypeId) -> Result<
        MatchesView,
        Fault,
    > {
        if self.types.contains_key(name) && self.types[name] != value_type {
            Err(Fault::ArgMismatch { name, expected: value_type, actual: self.types[name] })
        } else {
            Ok(
                MatchesView {
                    values: self.values.insert(
                        name,
                        (if self.values.contains_key(name) {
                            self.values[name]
                        } else {
                            Seq::empty()
                        }).push(value),
                    ),
                    types: self.types.insert(name, value_type),
                },
            )
        }
    }

    /// The message for a value that is not of the type under which it is
    /// kept.
    pub open spec fn internal(name: Seq<char>) -> Seq<char> {
        "参数"@ + name + "解析时出现内部错误，类型检查通过但是转换错误"@
    }

    /// Why the argument `name` gives no value of type `want`, if it gives
    /// none because of its type: the argument is unknown, or its values are
    /// kept under another type.
    pub open spec fn refusal(self, name: Seq<char>, want: TypeId) -> Option<Fault> {
        if !self.types.contains_key(name) {
            Some(Fault::UnknownArg(name))
        } else if self.types[name] != want {
            Some(Fault::ArgMismatch { name, expected: want, actual: self.types[name] })
        } else {
            None
        }
    }

    /// The last value of the argument `name`, asked for under the type
    /// `want`.
    pub open spec fn get_one(self, name: Seq<char>, want: TypeId) -> Result<Datum, Fault> {
        match self.refusal(name, want) {
            Some(fault) => Err(fault),
            None => if self.values.contains_key(name) && self.values[name].len() > 0
                && self.values[name].last().type_id() == want {
                Ok(self.values[name].last())
            } else {
                Err(Fault::InternalError(MatchesView::internal(name)))
            },
        }
    }

    /// All values of the argument `name`, asked for under the type `want`.
    pub open spec fn get_many(self, name: Seq<char>, want: TypeId) -> Result<Seq<Datum>, Fault> {
        match self.refusal(name, want) {
            Some(fault) => Err(fault),
            None => if self.values.contains_key(name) && forall|i: int|
                0 <= i < self.values[name].len() ==> (#[trigger] self.values[name][i]).type_id()
                    == want {
                Ok(self.values[name])
            } else {
                Err(Fault::InternalError(MatchesView::internal(name)))
            },
        }
    }
}

/// The values that a command line gave to the arguments, each argument's
/// values under one type.
#[derive(Debug)]
pub struct Matches {
    /// The names of the arguments that have values.
    pub names: Vec<String>,
    /// The values of the arguments, in the order of `names`.
    pub values: Vec<MatchedArg>,
    /// The names of the arguments whose type is known.
    pub type_names: Vec<String>,
    /// The types of the arguments, in the order of `type_names`.
    pub types: Vec<TypeId>,
}

/// The datums of `v`.
pub open spec fn datums<T: ArgType>(v: Seq<&T>) -> Seq<Datum> {
    Seq::new(v.len(), |i: int| v[i].datum())
}

impl Matches {
    /// Every name has its values and every typed name its type.
    pub open spec fn wf(&self) -> bool {
        self.names@.len() == self.values@.len() && self.type_names@.len() == self.types@.len()
    }

    /// The values of the argument `name`, if it has any.
    pub open spec fn values_of(&self, name: Seq<char>) -> Option<Seq<Datum>> {
        match index_of(strs(self.names@), name, 0) {
            Some(i) => Some(self.values@[i]@),
            None => None,
        }
    }

    /// The type of the argument `name`, if it is known.
    pub open spec fn type_of(&self, name: Seq<char>) -> Option<TypeId> {
        match index_of(strs(self.type_names@), name, 0) {
            Some(i) => Some(self.types@[i]),
            None => None,
        }
    }

    pub open spec fn view(&self) -> MatchesView {
        MatchesView {
            values: Map::new(
                |name: Seq<char>| self.values_of(name) is Some,
                |name: Seq<char>| self.values_of(name)->0,
            ),
            types: Map::new(
                |name: Seq<char>| self.type_of(name) is Some,
                |name: Seq<char>| self.type_of(name)->0,
            ),
        }
    }

    /// Nothing was given.
    pub fn new() -> (r: Self)
        ensures
            r.wf(),
            r@ == MatchesView::empty(),
    {
        let r = Matches {
            names: Vec::new(),
            values: Vec::new(),
            type_names: Vec::new(),
            types: Vec::new(),
        };
        assert(r@.values =~= Map::<Seq<char>, Seq<Datum>>::empty());
        assert(r@.types =~= Map::<Seq<char>, TypeId>::empty());
        r
    }

    /// Notes `value_type` as the type of `name`.
    fn put_type(&mut self, name: &str, value_type: TypeId)
        requires
            old(self).wf(),
        ensures
            final(self).wf(),
            final(self).names == old(self).names,
            final(self).values == old(self).values,
            final(self)@.types == old(self)@.types.insert(name@, value_type),
    {
        let ghost before = strs(self.type_names@);
        match position(&self.type_names, name) {
            Some(i) => {
                self.types[i] = value_type;
                assert forall|other: Seq<char>| true implies #[trigger] self.type_of(other) == (
                if other == name@ {
                    Some(value_type)
                } else {
                    old(self).type_of(other)
                }) by {
                    lemma_index_of(before, other, 0);
                    lemma_index_of(before, name@, 0);
                }
            },
            None => {
                self.type_names.push(name.to_owned());
                self.types.push(value_type);
                assert(strs(self.type_names@) =~= before.push(name@));
                assert forall|other: Seq<char>| true implies #[trigger] self.type_of(other) == (
                if other == name@ {
                    Some(value_type)
                } else {
                    old(self).type_of(other)
                }) by {
                    lemma_index_push(before, name@, other);
                    lemma_index_of(before, other, 0);
                }
            },
        }
        assert(self@.types =~= old(self)@.types.insert(name@, value_type));
    }

    /// Gives the argument `name` the one value `value`, kept under the type
    /// `value_type`; what the argument had before is dropped.
    pub fn set(&mut self, name: &str, value: AnyValue, value_type: TypeId) -> (r: Result<
        (),
        ParseError,
    >)
        requires
            old(self).wf(),
        ensures
            r is Ok,
            final(self).wf(),
            final(self)@ == old(self)@.set(name@, value@, value_type),
    {
        let ghost before = strs(self.names@);
        let mut one: Vec<AnyValue> = Vec::new();
        one.push(value);
        let matched = MatchedArg::from_vec(one);
        assert(matched@ =~= seq![value@]);
        match position(&self.names, name) {
            Some(i) => {
                self.values[i] = matched;
                assert forall|other: Seq<char>| true implies #[trigger] self.values_of(other) == (
                if other == name@ {
                    Some(seq![value@])
                } else {
                    old(self).values_of(other)
                }) by {
                    lemma_index_of(before, other, 0);
                    lemma_index_of(before, name@, 0);
                }
            },
            None => {
                self.names.push(name.to_owned());
                self.values.push(matched);
                assert(strs(self.names@) =~= before.push(name@));
                assert forall|other: Seq<char>| true implies #[trigger] self.values_of(other) == (
                if other == name@ {
                    Some(seq![value@])
                } else {
                    old(self).values_of(other)
                }) by {
                    lemma_index_push(before, name@, other);
                    lemma_index_of(before, other, 0);
                }
            },
        }
        assert(self@.values =~= old(self)@.values.insert(name@, seq![value@]));
        assert(self@.types =~= old(self)@.types);
        let ghost mid = *self;
        self.put_type(name, value_type);
        assert(self@.values =~= mid@.values);
        Ok(())
    }

    /// Gives the argument `name` one more value, kept under the type
    /// `value_type`. Where the argument's values are kept under another
    /// type, nothing changes and the mismatch is reported.
    pub fn append(&mut self, name: &str, value: AnyValue, value_type: TypeId) -> (r: Result<
        (),
        ParseError,
    >)
        requires
            old(self).wf(),
        ensures
            final(self).wf(),
            match r {
                Ok(_) => old(self)@.append(name@, value@, value_type) == Ok::<MatchesView, Fault>(
                    final(self)@,
                ),
                Err(e) => old(self)@.append(name@, value@, value_type) == Err::<MatchesView, Fault>(
                    e@,
                ) && final(self)@ == old(self)@,
            },
    {
        match position(&self.type_names, name) {
            Some(i) => {
                let stored: TypeId = self.types[i];
                if stored != value_type {
                    return Err(
                        ParseError::ArgMismatch {
                            name: name.to_owned(),
                            expected: value_type,
                            actual: stored,
                        },
                    );
                }
            },
            None => {},
        }
        self.put_type(name, value_type);
        let ghost before = strs(self.names@);
        let ghost had = old(self).values_of(name@);
        match position(&self.names, name) {
            Some(i) => {
                self.values[i].push(value);
                assert forall|other: Seq<char>| true implies #[trigger] self.values_of(other) == (
                if other == name@ {
                    Some(had->0.push(value@))
                } else {
                    old(self).values_of(other)
                }) by {
                    lemma_index_of(before, other, 0);
                    lemma_index_of(before, name@, 0);
                }
            },
            None => {
                let mut matched = MatchedArg::new();
                matched.push(value);
                self.names.push(name.to_owned());
                self.values.push(matched);
                assert(strs(self.names@) =~= before.push(name@));
                assert forall|other: Seq<char>| true implies #[trigger] self.values_of(other) == (
                if other == name@ {
                    Some(Seq::<Datum>::empty().push(value@))
                } else {
                    old(self).values_of(other)
                }) by {
                    lemma_index_push(before, name@, other);
                    lemma_index_of(before, other, 0);
                }
            },
        }
        assert(self@.values =~= old(self)@.append(name@, value@, value_type)->Ok_0.values);
        assert(self@.types =~= old(self)@.append(name@, value@, value_type)->Ok_0.types);
        Ok(())
    }

    /// The failure for asking `name` under the type `want`, if its type
    /// forbids the question.
    fn refuse(&self, name: &str, want: TypeId) -> (r: Option<ParseError>)
        requires
            self.wf(),
        ensures
            match r {
                Some(e) => self@.refusal(name@, want) == Some(e@),
                None => self@.refusal(name@, want) is None,
            },
    {
        match position(&self.type_names, name) {
            None => Some(ParseError::UnknownArg(name.to_owned())),
            Some(i) => {
                let actual: TypeId = self.types[i];
                if actual != want {
                    Some(
                        ParseError::ArgMismatch {
                            name: name.to_owned(),
                            expected: want,
                            actual,
                        },
                    )
                } else {
                    None
                }
            },
        }
    }

    /// The failure for a value of `name` that is not of the type under
    /// which it is kept.
    fn internal(name: &str) -> (e: ParseError)
        ensures
            e@ == Fault::InternalError(MatchesView::internal(name@)),
    {
        ParseError::InternalError(
            String::from_str("参数").concat(name).concat(
                "解析时出现内部错误，类型检查通过但是转换错误",
            ),
        )
    }

    /// The last value of the argument `name`, as a `T`.
    pub fn get_one<T: ArgType>(&self, name: &str) -> (r: Result<&T, ParseError>)
        requires
            self.wf(),
        ensures
            match r {
                Ok(v) => self@.get_one(name@, T::spec_type_id()) == Ok::<Datum, Fault>(v.datum()),
                Err(e) => self@.get_one(name@, T::spec_type_id()) == Err::<Datum, Fault>(e@),
            },
    {
        match self.refuse(name, T::type_id()) {
            Some(e) => {
                return Err(e);
            },
            None => {},
        }
        match position(&self.names, name) {
            Some(i) => {
                let matched: &MatchedArg = &self.values[i];
                let n: usize = matched.values.len();
                if n > 0 {
                    assert(matched@.last() == matched.values@[n - 1]@);
                    match matched.values[n - 1].downcast_ref::<T>() {
                        Some(v) => Ok(v),
                        None => Err(Matches::internal(name)),
                    }
                } else {
                    Err(Matches::internal(name))
                }
            },
            None => Err(Matches::internal(name)),
        }
    }

    /// All values of the argument `name`, as values of `T`.
    pub fn get_many<T: ArgType>(&self, name: &str) -> (r: Result<Vec<&T>, ParseError>)
        requires
            self.wf(),
        ensures
            match r {
                Ok(v) => self@.get_many(name@, T::spec_type_id()) == Ok::<Seq<Datum>, Fault>(
                    datums(v@),
                ),
                Err(e) => self@.get_many(name@, T::spec_type_id()) == Err::<Seq<Datum>, Fault>(e@),
            },
    {
        match self.refuse(name, T::type_id()) {
            Some(e) => {
                return Err(e);
            },
            None => {},
        }
        match position(&self.names, name) {
            Some(i) => {
                let matched: &MatchedArg = &self.values[i];
                let mut out: Vec<&T> = Vec::new();
                let mut k: usize = 0;
                while k < matched.values.len()
                    invariant
                        k <= matched.values@.len(),
                        out@.len() == k,
                        self@.refusal(name@, T::spec_type_id()) is None,
                        self@.values.contains_key(name@),
                        self@.values[name@] == matched@,
                        forall|j: int| 0 <= j < k ==> (#[trigger] out@[j]).datum() == matched@[j],
                        forall|j: int|
                            0 <= j < k ==> (#[trigger] matched@[j]).type_id() == T::spec_type_id(),
                    decreases matched.values@.len() - k,
                {
                    match matched.values[k].downcast_ref::<T>() {
                        Some(v) => {
                            out.push(v);
                        },
                        None => {
                            assert(matched@[k as int].type_id() != T::spec_type_id());
                            return Err(Matches::internal(name));
                        },
                    }
                    k = k + 1;
                }
                assert(datums(out@) =~= matched@);
                Ok(out)
            },
            None => Err(Matches::internal(name)),
        }
    }

    /// The last value of the argument `name` as a `T`, if there is one.
    pub fn try_get_one<T: ArgType>(&self, name: &str) -> (r: Option<&T>)
        requires
            self.wf(),
        ensures
            match r {
                Some(v) => self@.get_one(name@, T::spec_type_id()) == Ok::<Datum, Fault>(v.datum()),
                None => self@.get_one(name@, T::spec_type_id()) is Err,
            },
    {
        match self.get_one(name) {
            Ok(v) => Some(v),
            Err(_) => None,
        }
    }

    /// All values of the argument `name` as values of `T`, if there are any.
    pub fn try_get_many<T: ArgType>(&self, name: &str) -> (r: Option<Vec<&T>>)
        requires
            self.wf(),
        ensures
            match r {
                Some(v) => self@.get_many(name@, T::spec_type_id()) == Ok::<Seq<Datum>, Fault>(
                    datums(v@),
                ),
                None => self@.get_many(name@, T::spec_type_id()) is Err,
            },
    {
        match self.get_many(name) {
            Ok(v) => Some(v),
            Err(_) => None,
        }
    }

    /// Whether the argument `name` has values.
    pub fn contains(&self, name: &str) -> (r: bool)
        requires
            self.wf(),
        ensures
            r == self@.values.contains_key(name@),
    {
        position(&self.names, name).is_some()
    }
}

/// The texts of all lists among `lists`, one list after the other.
pub open spec fn flat(lists: Seq<Datum>) -> Seq<Seq<char>>
    decreases lists.len(),
{
    if lists.len() == 0 {
        Seq::empty()
    } else {
        flat(lists.drop_last()) + (match lists.last() {
            Datum::TextList(list) => list,
            _ => Seq::empty(),
        })
    }
}

/// The texts of all of `lists`, one list after the other.
pub fn flatten(lists: &Vec<&Vec<String>>) -> (r: Vec<String>)
    ensures
        strs(r@) == flat(datums(lists@)),
{
    let ghost all = datums(lists@);
    let mut out: Vec<String> = Vec::new();
    let mut i: usize = 0;
    assert(all.take(0) =~= Seq::<Datum>::empty());
    assert(strs(out@) =~= Seq::<Seq<char>>::empty());
    while i < lists.len()
        invariant
            i <= lists@.len(),
            all == datums(lists@),
            strs(out@) == flat(all.take(i as int)),
        decreases lists@.len() - i,
    {
        let list: &Vec<String> = lists[i];
        let ghost before = strs(out@);
        let mut k: usize = 0;
        while k < list.len()
            invariant
                k <= list@.len(),
                strs(out@) == before + strs(list@).take(k as int),
            decreases list@.len() - k,
        {
            let ghost was = strs(out@);
            out.push(list[k].clone());
            assert(strs(out@) =~= was.push(list@[k as int]@));
            assert(strs(list@).take(k + 1) =~= strs(list@).take(k as int).push(list@[k as int]@));
            assert(before + strs(list@).take(k + 1) =~= (before + strs(list@).take(k as int)).push(
                list@[k as int]@,
            ));
            k = k + 1;
        }
        proof {
            assert(strs(list@).take(list@.len() as int) =~= strs(list@));
            assert(all.take(i + 1).drop_last() =~= all.take(i as int));
            assert(all.take(i + 1).last() == all[i as int]);
            assert(all[i as int] == Datum::TextList(strs(list@)));
        }
        i = i + 1;
    }
    assert(all.take(lists@.len() as int) =~= all);
    out
}

/// A type whose value can be taken out of the matches by an argument's name.
pub trait ExtractFromMatches: Sized + ArgType {
    /// The value of this type that `m` holds for `name`.
    spec fn extracted(m: MatchesView, name: Seq<char>) -> Option<Datum>;

    /// The value of this type that `matches` holds for `name`.
    fn extract(matches: &Matches, name: &str) -> (r: Option<Self>)
        requires
            matches.wf(),
        ensures
            match r {
                Some(v) => Self::extracted(matches@, name@) == Some(v.datum()),
                None => Self::extracted(matches@, name@) is None,
            },
    ;
}

/// The last value of `name`, asked for under the type `want`, if there is
/// one.
pub open spec fn last_of(m: MatchesView, name: Seq<char>, want: TypeId) -> Option<Datum> {
    match m.get_one(name, want) {
        Ok(d) => Some(d),
        Err(_) => None,
    }
}

impl ExtractFromMatches for bool {
    open spec fn extracted(m: MatchesView, name: Seq<char>) -> Option<Datum> {
        last_of(m, name, TypeId::Bool)
    }

    fn extract(matches: &Matches, name: &str) -> (r: Option<Self>) {
        match matches.try_get_one::<bool>(name) {
            Some(b) => Some(*b),
            None => None,
        }
    }
}

impl ExtractFromMatches for String {
    open spec fn extracted(m: MatchesView, name: Seq<char>) -> Option<Datum> {
        last_of(m, name, TypeId::Text)
    }

    fn extract(matches: &Matches, name: &str) -> (r: Option<Self>) {
        match matches.try_get_one::<String>(name) {
            Some(s) => Some(s.clone()),
            None => None,
        }
    }
}

impl ExtractFromMatches for Vec<String> {
    open spec fn extracted(m: MatchesView, name: Seq<char>) -> Option<Datum> {
        match m.get_many(name, TypeId::TextList) {
            Ok(lists) => Some(Datum::TextList(flat(lists))),
            Err(_) => None,
        }
    }

    fn extract(matches: &Matches, name: &str) -> (r: Option<Self>) {
        match matches.try_get_many::<Vec<String>>(name) {
            Some(lists) => Some(flatten(&lists)),
            None => None,
        }
    }
}

impl ExtractFromMatches for OutputFormat {
    open spec fn extracted(m: MatchesView, name: Seq<char>) -> Option<Datum> {
        last_of(m, name, TypeId::Format)
    }

    fn extract(matches: &Matches, name: &str) -> (r: Option<Self>) {
        match matches.try_get_one::<OutputFormat>(name) {
            Some(f) => Some(*f),
            None => None,
        }
    }
}

} // verus!
