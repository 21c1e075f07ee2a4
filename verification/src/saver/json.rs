//! JSON documents of the shape that a report takes, written by
//! `serde_json`.

use vstd::prelude::*;
use crate::utils::strings::strs;

verus! {

/// An error of `serde_json`.
#[verifier::external_type_specification]
#[verifier::external_body]
pub struct ExJsonError(serde_json::Error);

/// A JSON object whose members are texts and numbers.
#[derive(Debug)]
pub struct JsonRecord {
    pub text_keys: Vec<String>,
    pub texts: Vec<String>,
    pub number_keys: Vec<String>,
    pub numbers: Vec<usize>,
}

/// A JSON object as mathematical values.
pub struct RecordModel {
    pub text_keys: Seq<Seq<char>>,
    pub texts: Seq<Seq<char>>,
    pub number_keys: Seq<Seq<char>>,
    pub numbers: Seq<usize>,
}

impl View for JsonRecord {
    type V = RecordModel;

    open spec fn view(&self) -> RecordModel {
        RecordModel {
            text_keys: strs(self.text_keys@),
            texts: strs(self.texts@),
            number_keys: strs(self.number_keys@),
            numbers: self.numbers@,
        }
    }
}

impl JsonRecord {
    /// An object without members.
    pub fn new() -> (r: Self)
        ensures
            r.text_keys@.len() == 0,
            r.texts@.len() == 0,
            r.number_keys@.len() == 0,
            r.numbers@.len() == 0,
            r@ == (RecordModel {
                text_keys: Seq::empty(),
                texts: Seq::empty(),
                number_keys: Seq::empty(),
                numbers: Seq::empty(),
            }),
    {
        let r = JsonRecord {
            text_keys: Vec::new(),
            texts: Vec::new(),
            number_keys: Vec::new(),
            numbers: Vec::new(),
        };
        assert(r@.text_keys =~= Seq::<Seq<char>>::empty());
        assert(r@.texts =~= Seq::<Seq<char>>::empty());
        assert(r@.number_keys =~= Seq::<Seq<char>>::empty());
        r
    }

    /// The object with the member `key`, a text.
    pub fn text(self, key: &str, value: &str) -> (r: Self)
        requires
            self.text_keys@.len() == self.texts@.len(),
        ensures
            r.text_keys@.len() == r.texts@.len(),
            r.number_keys@.len() == self.number_keys@.len(),
            r.numbers@.len() == self.numbers@.len(),
            r@ == (RecordModel {
                text_keys: self@.text_keys.push(key@),
                texts: self@.texts.push(value@),
                ..self@
            }),
    {
        let mut r = self;
        r.text_keys.push(key.to_owned());
        r.texts.push(value.to_owned());
        assert(r@.text_keys =~= self@.text_keys.push(key@));
        assert(r@.texts =~= self@.texts.push(value@));
        r
    }

    /// The object with the member `key`, a number.
    pub fn number(self, key: &str, value: usize) -> (r: Self)
        requires
            self.number_keys@.len() == self.numbers@.len(),
        ensures
            r.number_keys@.len() == r.numbers@.len(),
            r.text_keys@.len() == self.text_keys@.len(),
            r.texts@.len() == self.texts@.len(),
            r@ == (RecordModel {
                number_keys: self@.number_keys.push(key@),
                numbers: self@.numbers.push(value),
                ..self@
            }),
    {
        let mut r = self;
        r.number_keys.push(key.to_owned());
        r.numbers.push(value);
        assert(r@.number_keys =~= self@.number_keys.push(key@));
        r
    }
}

/// A JSON document: an object with one member that is a list of objects
/// and one member that is an object.
#[derive(Debug)]
pub struct JsonDoc {
    pub list_key: String,
    pub list: Vec<JsonRecord>,
    pub record_key: String,
    pub record: JsonRecord,
}

/// A JSON document as mathematical values.
pub struct DocModel {
    pub list_key: Seq<char>,
    pub list: Seq<RecordModel>,
    pub record_key: Seq<char>,
    pub record: RecordModel,
}

impl View for JsonDoc {
    type V = DocModel;

    open spec fn view(&self) -> DocModel {
        DocModel {
            list_key: self.list_key@,
            list: Seq::new(self.list@.len(), |i: int| self.list@[i]@),
            record_key: self.record_key@,
            record: self.record@,
        }
    }
}

/// The text that `serde_json::to_string_pretty` gives of a document.
pub uninterp spec fn pretty_json(doc: DocModel) -> Seq<char>;

/// Builds the `serde_json::Value` of `doc`, member by member, and has
/// `serde_json::to_string_pretty` write it. The text depends on the
/// document alone.
#[verifier::external_body]
pub(crate) fn write_pretty(doc: &JsonDoc) -> (r: Result<String, serde_json::Error>)
    ensures
        r matches Ok(s) ==> s@ == pretty_json(doc@),
{
    let object = |r: &JsonRecord| {
        let texts = r.text_keys.iter().cloned().zip(r.texts.iter().cloned().map(serde_json::Value::from));
        let numbers = r.number_keys.iter().cloned().zip(r.numbers.iter().cloned().map(serde_json::Value::from));
        serde_json::Value::Object(texts.chain(numbers).collect())
    };
    let mut root = serde_json::Map::new();
    root.insert(doc.list_key.clone(), serde_json::Value::Array(doc.list.iter().map(object).collect()));
    root.insert(doc.record_key.clone(), object(&doc.record));
    serde_json::to_string_pretty(&serde_json::Value::Object(root))
}

/// The message of an error of `serde_json`, as its `Display` writes it.
#[verifier::external_body]
pub(crate) fn error_text(e: &serde_json::Error) -> (s: String)
{
    e.to_string()
}

} // verus!
