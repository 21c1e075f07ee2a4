//! Values of the types that an argument can have, held under one type.

use vstd::prelude::*;
use crate::utils::format::OutputFormat;
use crate::utils::strings::{clone_strings, strs};

verus! {

/// The name of a type that an argument's value can have.
#[derive(Debug, Clone, Copy, PartialEq, Eq, Structural, Hash)]
pub enum TypeId {
    Unit,
    Bool,
    U8,
    I32,
    Text,
    TextList,
    I32List,
    Format,
}

/// A value of one of the supported types as a mathematical value.
pub enum Datum {
    Unit,
    Bool(bool),
    U8(u8),
    I32(i32),
    Text(Seq<char>),
    TextList(Seq<Seq<char>>),
    I32List(Seq<i32>),
    Format(OutputFormat),
}

impl Datum {
    /// The type of the value.
    pub open spec fn type_id(self) -> TypeId {
        match self {
            Datum::Unit => TypeId::Unit,
            Datum::Bool(_) => TypeId::Bool,
            Datum::U8(_) => TypeId::U8,
            Datum::I32(_) => TypeId::I32,
            Datum::Text(_) => TypeId::Text,
            Datum::TextList(_) => TypeId::TextList,
            Datum::I32List(_) => TypeId::I32List,
            Datum::Format(_) => TypeId::Format,
        }
    }
}

/// A value of one of the supported types.
#[derive(Debug)]
pub enum Held {
    Unit,
    Bool(bool),
    U8(u8),
    I32(i32),
    Text(String),
    TextList(Vec<String>),
    I32List(Vec<i32>),
    Format(OutputFormat),
}

impl View for Held {
    type V = Datum;

    open spec fn view(&self) -> Datum {
        match self {
            Held::Unit => Datum::Unit,
            Held::Bool(b) => Datum::Bool(*b),
            Held::U8(n) => Datum::U8(*n),
            Held::I32(n) => Datum::I32(*n),
            Held::Text(s) => Datum::Text(s@),
            Held::TextList(v) => Datum::TextList(strs(v@)),
            Held::I32List(v) => Datum::I32List(v@),
            Held::Format(f) => Datum::Format(*f),
        }
    }
}

impl Clone for Held {
    fn clone(&self) -> (r: Held)
        ensures
            r@ == self@,
    {
        match self {
            Held::Unit => Held::Unit,
            Held::Bool(b) => Held::Bool(*b),
            Held::U8(n) => Held::U8(*n),
            Held::I32(n) => Held::I32(*n),
            Held::Text(s) => Held::Text(s.clone()),
            Held::TextList(v) => Held::TextList(clone_strings(v)),
            Held::I32List(v) => Held::I32List(clone_numbers(v)),
            Held::Format(f) => Held::Format(*f),
        }
    }
}

/// A copy of `v`.
pub fn clone_numbers(v: &Vec<i32>) -> (r: Vec<i32>)
    ensures
        r@ == v@,
{
    let mut out: Vec<i32> = Vec::new();
    let mut i: usize = 0;
    while i < v.len()
        invariant
            i <= v@.len(),
            out@ == v@.take(i as int),
        decreases v@.len() - i,
    {
        out.push(v[i]);
        assert(v@.take(i + 1) =~= v@.take(i as int).push(v@[i as int]));
        i = i + 1;
    }
    assert(v@.take(v@.len() as int) =~= v@);
    out
}

/// A type whose values an argument can have.
pub trait ArgType: Sized {
    /// The name of the type.
    spec fn spec_type_id() -> TypeId;

    /// The value as a mathematical value; its type is this one.
    spec fn datum(&self) -> Datum;

    /// Every value of the type has the type's name.
    proof fn lemma_datum(&self)
        ensures
            self.datum().type_id() == Self::spec_type_id(),
    ;

    /// The name of the type.
    fn type_id() -> (id: TypeId)
        ensures
            id == Self::spec_type_id(),
    ;

    /// Holds the value under the common type.
    fn hold(self) -> (h: Held)
        ensures
            h@ == self.datum(),
    ;

    /// The value that `h` holds, if it is of this type.
    fn peek(h: &Held) -> (r: Option<&Self>)
        ensures
            r is Some <==> h@.type_id() == Self::spec_type_id(),
            r matches Some(v) ==> v.datum() == h@,
    ;

    /// A copy of the value that `h` holds, if it is of this type.
    fn copy_out(h: &Held) -> (r: Option<Self>)
        ensures
            r is Some <==> h@.type_id() == Self::spec_type_id(),
            r matches Some(v) ==> v.datum() == h@,
    ;
}

impl ArgType for () {
    open spec fn spec_type_id() -> TypeId {
        TypeId::Unit
    }

    open spec fn datum(&self) -> Datum {
        Datum::Unit
    }

    proof fn lemma_datum(&self) {
    }

    fn type_id() -> (id: TypeId) {
        TypeId::Unit
    }

    fn hold(self) -> (h: Held) {
        Held::Unit
    }

    fn peek(h: &Held) -> (r: Option<&Self>) {
        match h {
            Held::Unit => Some(&()),
            _ => None,
        }
    }

    fn copy_out(h: &Held) -> (r: Option<Self>) {
        match h {
            Held::Unit => Some(()),
            _ => None,
        }
    }
}

impl ArgType for bool {
    open spec fn spec_type_id() -> TypeId {
        TypeId::Bool
    }

    open spec fn datum(&self) -> Datum {
        Datum::Bool(*self)
    }

    proof fn lemma_datum(&self) {
    }

    fn type_id() -> (id: TypeId) {
        TypeId::Bool
    }

    fn hold(self) -> (h: Held) {
        Held::Bool(self)
    }

    fn peek(h: &Held) -> (r: Option<&Self>) {
        match h {
            Held::Bool(b) => Some(b),
            _ => None,
        }
    }

    fn copy_out(h: &Held) -> (r: Option<Self>) {
        match h {
            Held::Bool(b) => Some(*b),
            _ => None,
        }
    }
}

impl ArgType for u8 {
    open spec fn spec_type_id() -> TypeId {
        TypeId::U8
    }

    open spec fn datum(&self) -> Datum {
        Datum::U8(*self)
    }

    proof fn lemma_datum(&self) {
    }

    fn type_id() -> (id: TypeId) {
        TypeId::U8
    }

    fn hold(self) -> (h: Held) {
        Held::U8(self)
    }

    fn peek(h: &Held) -> (r: Option<&Self>) {
        match h {
            Held::U8(n) => Some(n),
            _ => None,
        }
    }

    fn copy_out(h: &Held) -> (r: Option<Self>) {
        match h {
            Held::U8(n) => Some(*n),
            _ => None,
        }
    }
}

impl ArgType for i32 {
    open spec fn spec_type_id() -> TypeId {
        TypeId::I32
    }

    open spec fn datum(&self) -> Datum {
        Datum::I32(*self)
    }

    proof fn lemma_datum(&self) {
    }

    fn type_id() -> (id: TypeId) {
        TypeId::I32
    }

    fn hold(self) -> (h: Held) {
        Held::I32(self)
    }

    fn peek(h: &Held) -> (r: Option<&Self>) {
        match h {
            Held::I32(n) => Some(n),
            _ => None,
        }
    }

    fn copy_out(h: &Held) -> (r: Option<Self>) {
        match h {
            Held::I32(n) => Some(*n),
            _ => None,
        }
    }
}

impl ArgType for String {
    open spec fn spec_type_id() -> TypeId {
        TypeId::Text
    }

    open spec fn datum(&self) -> Datum {
        Datum::Text(self@)
    }

    proof fn lemma_datum(&self) {
    }

    fn type_id() -> (id: TypeId) {
        TypeId::Text
    }

    fn hold(self) -> (h: Held) {
        Held::Text(self)
    }

    fn peek(h: &Held) -> (r: Option<&Self>) {
        match h {
            Held::Text(s) => Some(s),
            _ => None,
        }
    }

    fn copy_out(h: &Held) -> (r: Option<Self>) {
        match h {
            Held::Text(s) => Some(s.clone()),
            _ => None,
        }
    }
}

impl ArgType for Vec<String> {
    open spec fn spec_type_id() -> TypeId {
        TypeId::TextList
    }

    open spec fn datum(&self) -> Datum {
        Datum::TextList(strs(self@))
    }

    proof fn lemma_datum(&self) {
    }

    fn type_id() -> (id: TypeId) {
        TypeId::TextList
    }

    fn hold(self) -> (h: Held) {
        Held::TextList(self)
    }

    fn peek(h: &Held) -> (r: Option<&Self>) {
        match h {
            Held::TextList(v) => Some(v),
            _ => None,
        }
    }

    fn copy_out(h: &Held) -> (r: Option<Self>) {
        match h {
            Held::TextList(v) => Some(clone_strings(v)),
            _ => None,
        }
    }
}

impl ArgType for Vec<i32> {
    open spec fn spec_type_id() -> TypeId {
        TypeId::I32List
    }

    open spec fn datum(&self) -> Datum {
        Datum::I32List(self@)
    }

    proof fn lemma_datum(&self) {
    }

    fn type_id() -> (id: TypeId) {
        TypeId::I32List
    }

    fn hold(self) -> (h: Held) {
        Held::I32List(self)
    }

    fn peek(h: &Held) -> (r: Option<&Self>) {
        match h {
            Held::I32List(v) => Some(v),
            _ => None,
        }
    }

    fn copy_out(h: &Held) -> (r: Option<Self>) {
        match h {
            Held::I32List(v) => Some(clone_numbers(v)),
            _ => None,
        }
    }
}

impl ArgType for OutputFormat {
    open spec fn spec_type_id() -> TypeId {
        TypeId::Format
    }

    open spec fn datum(&self) -> Datum {
        Datum::Format(*self)
    }

    proof fn lemma_datum(&self) {
    }

    fn type_id() -> (id: TypeId) {
        TypeId::Format
    }

    fn hold(self) -> (h: Held) {
        Held::Format(self)
    }

    fn peek(h: &Held) -> (r: Option<&Self>) {
        match h {
            Held::Format(f) => Some(f),
            _ => None,
        }
    }

    fn copy_out(h: &Held) -> (r: Option<Self>) {
        match h {
            Held::Format(f) => Some(*f),
            _ => None,
        }
    }
}

impl TypeId {
    /// The name of the type `T`.
    pub fn of<T: ArgType>() -> (id: TypeId)
        ensures
            id == T::spec_type_id(),
    {
        T::type_id()
    }
}

/// A value of any of the supported types, together with the name of its
/// type.
#[derive(Debug)]
pub struct AnyValue {
    pub inner: Held,
}

impl View for AnyValue {
    type V = Datum;

    open spec fn view(&self) -> Datum {
        self.inner@
    }
}

impl AnyValue {
    /// Holds `value`.
    pub fn new<T: ArgType>(value: T) -> (r: Self)
        ensures
            r@ == value.datum(),
            r@.type_id() == T::spec_type_id(),
    {
        proof {
            value.lemma_datum();
        }
        AnyValue { inner: value.hold() }
    }

    /// The held value, if it is of type `T`.
    pub fn downcast_ref<T: ArgType>(&self) -> (r: Option<&T>)
        ensures
            r is Some <==> self@.type_id() == T::spec_type_id(),
            r matches Some(v) ==> v.datum() == self@,
    {
        T::peek(&self.inner)
    }

    /// A copy of the held value, if it is of type `T`; else a copy of the
    /// holder.
    pub fn downcast_into<T: ArgType>(&mut self) -> (r: Result<T, Self>)
        ensures
            final(self)@ == old(self)@,
            match r {
                Ok(v) => old(self)@.type_id() == T::spec_type_id() && v.datum() == old(self)@,
                Err(same) => old(self)@.type_id() != T::spec_type_id() && same@ == old(self)@,
            },
    {
        match T::copy_out(&self.inner) {
            Some(v) => Ok(v),
            None => Err(self.clone()),
        }
    }

    /// The name of the type of the held value.
    pub fn type_id(&self) -> (id: TypeId)
        ensures
            id == self@.type_id(),
    {
        match &self.inner {
            Held::Unit => TypeId::Unit,
            Held::Bool(_) => TypeId::Bool,
            Held::U8(_) => TypeId::U8,
            Held::I32(_) => TypeId::I32,
            Held::Text(_) => TypeId::Text,
            Held::TextList(_) => TypeId::TextList,
            Held::I32List(_) => TypeId::I32List,
            Held::Format(_) => TypeId::Format,
        }
    }
}

impl Clone for AnyValue {
    fn clone(&self) -> (r: AnyValue)
        ensures
            r@ == self@,
    {
        AnyValue { inner: self.inner.clone() }
    }
}

impl Default for AnyValue {
    fn default() -> (r: AnyValue)
        ensures
            r@ == Datum::Unit,
    {
        AnyValue::new(())
    }
}

} // verus!
