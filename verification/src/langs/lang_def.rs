//! The lexical rules of one language.

use vstd::prelude::*;
use vstd::utf8::encode_utf8;

verus! {

/// The character sequences that the strings of `v` hold.
pub open spec fn texts(v: Seq<&str>) -> Seq<Seq<char>> {
    Seq::new(v.len(), |i: int| v[i]@)
}

/// The rules of a language as mathematical values.
pub struct LangRule {
    pub name: Seq<char>,
    pub extensions: Seq<Seq<char>>,
    pub line_comment: Option<Seq<char>>,
    pub block_comment: Option<(Seq<char>, Seq<char>)>,
    pub doc_comment: Option<Seq<char>>,
    pub function_patterns: Seq<Seq<char>>,
    pub class_patterns: Seq<Seq<char>>,
}

impl LangRule {
    /// The bytes of the prefix that opens a line comment.
    pub open spec fn line_prefix(self) -> Option<Seq<u8>> {
        match self.line_comment {
            Some(prefix) => Some(encode_utf8(prefix)),
            None => None,
        }
    }

    /// The bytes of the delimiter that opens a block comment; empty where
    /// the language has no block comments.
    pub open spec fn block_open(self) -> Seq<u8> {
        match self.block_comment {
            Some(pair) => encode_utf8(pair.0),
            None => Seq::empty(),
        }
    }

    /// The bytes of the delimiter that closes a block comment; empty where
    /// the language has no block comments.
    pub open spec fn block_close(self) -> Seq<u8> {
        match self.block_comment {
            Some(pair) => encode_utf8(pair.1),
            None => Seq::empty(),
        }
    }
}

/// The rules by which a language's lines are classified and its function and
/// class definitions are found.
#[derive(Debug, Clone)]
pub struct LangDef {
    pub name: &'static str,
    pub extensions: Vec<&'static str>,
    pub line_comment: Option<&'static str>,
    pub block_comment: Option<(&'static str, &'static str)>,
    pub doc_comment: Option<&'static str>,
    pub function_patterns: Vec<&'static str>,
    pub class_patterns: Vec<&'static str>,
}

impl View for LangDef {
    type V = LangRule;

    open spec fn view(&self) -> LangRule {
        LangRule {
            name: self.name@,
            extensions: texts(self.extensions@),
            line_comment: match self.line_comment {
                Some(s) => Some(s@),
                None => None,
            },
            block_comment: match self.block_comment {
                Some((open, close)) => Some((open@, close@)),
                None => None,
            },
            doc_comment: match self.doc_comment {
                Some(s) => Some(s@),
                None => None,
            },
            function_patterns: texts(self.function_patterns@),
            class_patterns: texts(self.class_patterns@),
        }
    }
}

} // verus!
