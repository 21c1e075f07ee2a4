use vstd::prelude::*;
use crate::langs::lang_type::LangType;
use crate::stats::Counts;

pub mod classifier;
pub mod lex_status;
pub mod lexer;
pub mod text;

verus! {

/// Chooses the lexer of a language.
pub struct LexerFactory;

/// The message with which the lexer of `lang` refuses a text that it has no
/// rules to count by.
pub open spec fn refusal_of(lang: LangType) -> Seq<char> {
    match lang {
        LangType::Python => lexer::Lexer::refusal(&lexer::PythonLexer),
        LangType::Markdown => lexer::Lexer::refusal(&lexer::MdLexer),
        _ => lexer::Lexer::refusal(
            &(lexer::DefaultLexer { lang_type: lang, classifier: classifier::DefaultClassifier }),
        ),
    }
}

/// The counters of a file of `lang` that holds `text`: Python is counted
/// under the indentation policy, every other known language under the
/// brace-depth policy.
pub open spec fn counted_as(lang: LangType, text: Seq<u8>) -> Option<Counts> {
    match lang {
        LangType::Python => lexer::Lexer::counted(&lexer::PythonLexer, text),
        LangType::Markdown => lexer::Lexer::counted(&lexer::MdLexer, text),
        LangType::Unknown => None,
        _ => lexer::Lexer::counted(
            &(lexer::DefaultLexer { lang_type: lang, classifier: classifier::DefaultClassifier }),
            text,
        ),
    }
}

impl LexerFactory {
    pub fn new() -> Self {
        LexerFactory
    }

    /// The lexer of `lang`; there is none for `Unknown`.
    pub fn get_lexer(lang_type: LangType) -> (r: Option<Box<dyn lexer::Lexer>>)
        ensures
            r is None <==> lang_type == LangType::Unknown,
            r matches Some(found) ==> forall|text: Seq<u8>| #[trigger]
                found.counted(text) == counted_as(lang_type, text),
            r matches Some(found) ==> found.refusal() == refusal_of(lang_type),
    {
        match lang_type {
            LangType::Python => Some(Box::new(lexer::PythonLexer::new())),
            LangType::Markdown => Some(Box::new(lexer::MdLexer::new())),
            LangType::Unknown => None,
            _ => Some(Box::new(lexer::DefaultLexer::new(lang_type))),
        }
    }
}

} // verus!
