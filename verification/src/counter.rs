//! Counting one file: the file's language, the check for binary content,
//! the decoding of its bytes and the scan of its text.

use vstd::prelude::*;
use vstd::string::StringExecFns;
use crate::config::Config;
use crate::langs::lang_type::LangType;
use crate::langs::registry::{get_type_from_ext, type_of_ext};
use crate::stats::{Counts, FileStat};
use crate::syntax::lexer::Lexer;
use crate::syntax::{counted_as, refusal_of, LexerFactory};
use crate::utils::path::{extension, extension_of, file_name, file_name_of};
use crate::utils::strings::{lowercase, to_lowercase};

verus! {

/// How many bytes at the start of a file are looked at for a zero byte.
pub const SNIFF_LEN: usize = 1024;

/// Why a file was not counted, as mathematical values.
pub enum CounterFault {
    IoError(Seq<char>),
    LexError(Seq<char>),
    BinaryFile,
}

/// Why a file was not counted.
#[derive(Debug)]
pub enum CounterError {
    /// The file could not be opened or read.
    IoError(String),
    /// There are no rules to count the file by.
    LexError(String),
    /// The file holds binary content and is passed over.
    BinaryFile,
}

impl View for CounterError {
    type V = CounterFault;

    open spec fn view(&self) -> CounterFault {
        match self {
            CounterError::IoError(msg) => CounterFault::IoError(msg@),
            CounterError::LexError(msg) => CounterFault::LexError(msg@),
            CounterError::BinaryFile => CounterFault::BinaryFile,
        }
    }
}

impl CounterFault {
    /// The message of the failure.
    pub open spec fn message(self) -> Seq<char> {
        match self {
            CounterFault::IoError(msg) => "IO Error: "@ + msg,
            CounterFault::LexError(msg) => "Lexing Error: "@ + msg,
            CounterFault::BinaryFile => "Binary file detected"@,
        }
    }
}

impl CounterError {
    /// The message of the failure.
    pub fn to_string(&self) -> (s: String)
        ensures
            s@ == self@.message(),
    {
        match self {
            CounterError::IoError(msg) => String::from_str("IO Error: ").concat(msg.as_str()),
            CounterError::LexError(msg) => String::from_str("Lexing Error: ").concat(msg.as_str()),
            CounterError::BinaryFile => "Binary file detected".to_owned(),
        }
    }
}

/// Whether a zero byte stands among the first `SNIFF_LEN` bytes of `bytes`.
pub open spec fn is_binary(bytes: Seq<u8>) -> bool {
    exists|i: int| 0 <= i < bytes.len() && i < SNIFF_LEN && bytes[i] == 0
}

/// What `encoding_rs_io` makes of a file's bytes when it is left to find the
/// encoding by the byte-order mark: the bytes in UTF-8, or nothing where it
/// reports an error.
pub uninterp spec fn transcoded(bytes: Seq<u8>) -> Option<Seq<u8>>;

/// Whether at least three bytes are there and begin with the byte-order
/// mark of UTF-8, of UTF-16 little-endian or of UTF-16 big-endian.
pub open spec fn has_byte_order_mark(bytes: Seq<u8>) -> bool {
    bytes.len() >= 3 && ((bytes[0] == 0xEF && bytes[1] == 0xBB && bytes[2] == 0xBF) || (bytes[0]
        == 0xFF && bytes[1] == 0xFE) || (bytes[0] == 0xFE && bytes[1] == 0xFF))
}

/// What `String::from_utf8_lossy` makes of bytes: their text in UTF-8, with
/// a replacement character in place of each malformed sequence.
pub uninterp spec fn lossy(bytes: Seq<u8>) -> Seq<u8>;

/// Reads `bytes` to the end through an `encoding_rs_io::DecodeReaderBytes`
/// that was built without an explicit encoding. What comes out depends on
/// the bytes alone, and bytes without a byte-order mark come out as they
/// are.
#[verifier::external_body]
pub(crate) fn transcode(bytes: &[u8]) -> (r: Option<Vec<u8>>)
    ensures
        match r {
            Some(out) => transcoded(bytes@) == Some(out@),
            None => transcoded(bytes@) is None,
        },
        r is None ==> has_byte_order_mark(bytes@),
        r matches Some(out) ==> has_byte_order_mark(bytes@) || out@ == bytes@,
{
    let mut reader = encoding_rs_io::DecodeReaderBytesBuilder::new().encoding(None).build(bytes);
    let mut out: Vec<u8> = Vec::new();
    match std::io::Read::read_to_end(&mut reader, &mut out) {
        Ok(_) => Some(out),
        Err(_) => None,
    }
}

/// `String::from_utf8_lossy` on `bytes`, as bytes again. What comes out
/// depends on the bytes alone, and well-formed UTF-8 comes out as it is.
#[verifier::external_body]
pub(crate) fn decode_lossy(bytes: &[u8]) -> (r: Vec<u8>)
    ensures
        r@ == lossy(bytes@),
        vstd::utf8::valid_utf8(bytes@) ==> r@ == bytes@,
{
    String::from_utf8_lossy(bytes).into_owned().into_bytes()
}

/// The extension by which the language of `path` is found: the extension of
/// the path in lower case, empty where the path has none.
pub open spec fn lookup_key(path: Seq<char>) -> Seq<char> {
    lowercase(
        match extension(path) {
            Some(ext) => ext,
            None => Seq::empty(),
        },
    )
}

/// The language of the file `path`, found by its extension.
pub open spec fn language_of_path(path: Seq<char>) -> Option<LangType> {
    type_of_ext(lookup_key(path))
}

/// The message for a path whose extension names no language.
pub open spec fn unknown_extension(path: Seq<char>) -> Seq<char> {
    "Unknown language for extension: "@ + lookup_key(path)
}

/// The text of a file that holds `bytes`: the bytes transcoded to UTF-8 and
/// cleared of malformed sequences; none where transcoding fails.
pub open spec fn text_of(bytes: Seq<u8>) -> Option<Seq<u8>> {
    match transcoded(bytes) {
        Some(out) => Some(lossy(out)),
        None => None,
    }
}

/// The counters of the file `path` that holds `bytes`, where the file is
/// counted: its language is known, its content is not binary, its text can
/// be had and is short enough to be scanned, and there are rules to count
/// it by.
pub open spec fn counted_file(path: Seq<char>, bytes: Seq<u8>) -> Option<Counts> {
    match language_of_path(path) {
        Some(lang) => if is_binary(bytes) {
            None
        } else {
            match text_of(bytes) {
                Some(text) => if text.len() <= usize::MAX / 4 {
                    counted_as(lang, text)
                } else {
                    None
                },
                None => None,
            }
        },
        None => None,
    }
}

/// Why the file `path` that holds `bytes` is not counted, if it is not: a
/// path whose extension names no language is refused first; binary content
/// is reported next; then a text that cannot be had, a text too long to be
/// scanned, and a language without rules to count by.
pub open spec fn refused_file(path: Seq<char>, bytes: Seq<u8>) -> Option<CounterFault> {
    match language_of_path(path) {
        None => Some(CounterFault::LexError(unknown_extension(path))),
        Some(lang) => if is_binary(bytes) {
            Some(CounterFault::BinaryFile)
        } else {
            match text_of(bytes) {
                None => Some(CounterFault::LexError("File cannot be decoded"@)),
                Some(text) => if text.len() > usize::MAX / 4 {
                    Some(CounterFault::LexError("File too large"@))
                } else if lang == LangType::Unknown {
                    Some(CounterFault::LexError("Unknown language"@))
                } else if counted_as(lang, text) is None {
                    Some(CounterFault::LexError(refusal_of(lang)))
                } else {
                    None
                },
            }
        },
    }
}

/// Counts files, one at a time.
#[derive(Debug)]
pub struct Counter {
    config: Config,
}

impl Clone for Counter {
    fn clone(&self) -> (r: Counter)
        ensures
            r.config()@ == self.config()@,
    {
        Counter { config: self.config.clone() }
    }
}

impl Counter {
    /// The settings that the counter was made with.
    pub closed spec fn config(&self) -> Config {
        self.config
    }

    pub fn new(config: Config) -> (counter: Self)
        ensures
            counter.config() == config,
    {
        Counter { config }
    }

    /// Whether a zero byte stands among the first `SNIFF_LEN` bytes of
    /// `bytes`.
    pub fn is_binary_file(bytes: &[u8]) -> (r: bool)
        ensures
            r == is_binary(bytes@),
    {
        let n: usize = bytes.len();
        let mut i: usize = 0;
        while i < n && i < SNIFF_LEN
            invariant
                i <= n,
                i <= SNIFF_LEN,
                n == bytes@.len(),
                forall|j: int| 0 <= j < i ==> bytes@[j] != 0,
            decreases n - i,
        {
            if bytes[i] == 0 {
                return true;
            }
            i = i + 1;
        }
        false
    }

    /// The language of the file `path`; a path whose extension names no
    /// language is refused.
    pub fn language_of(path: &str) -> (r: Result<LangType, CounterError>)
        ensures
            match r {
                Ok(lang) => language_of_path(path@) == Some(lang),
                Err(e) => language_of_path(path@) is None && e@ == CounterFault::LexError(
                    unknown_extension(path@),
                ),
            },
    {
        let ext: String = match extension_of(path) {
            Some(ext) => to_lowercase(ext),
            None => to_lowercase(""),
        };
        proof {
            reveal_strlit("");
            assert(""@ =~= Seq::<char>::empty());
        }
        match get_type_from_ext(ext.as_str()) {
            Some(lang) => Ok(lang),
            None => Err(
                CounterError::LexError(
                    String::from_str("Unknown language for extension: ").concat(ext.as_str()),
                ),
            ),
        }
    }

    /// Counts the file `path` whose content is `bytes`. A path whose
    /// extension names no language is refused first; then a file with
    /// binary content is reported as such; any other file is decoded,
    /// scanned by the lexer of its language, and its record named after the
    /// language, the path and the file.
    pub fn count_bytes(&self, path: &str, bytes: &[u8]) -> (r: Result<FileStat, CounterError>)
        ensures
            match r {
                Ok(stat) => counted_file(path@, bytes@) == Some(stat.counts())
                    && language_of_path(path@) == Some(stat.lang) && stat.path@ == path@
                    && stat.name@ == file_name(path@),
                Err(e) => counted_file(path@, bytes@) is None && refused_file(path@, bytes@)
                    == Some(e@),
            },
            r is Ok ==> refused_file(path@, bytes@) is None,
            r matches Ok(stat) ==> (bytes@.len() == 0 ==> stat.counts() == Counts::zero()),
            r matches Ok(stat) ==> stat.counts().balanced(),
    {
        let lang: LangType = match Counter::language_of(path) {
            Ok(lang) => lang,
            Err(e) => {
                return Err(e);
            },
        };
        if Counter::is_binary_file(bytes) {
            return Err(CounterError::BinaryFile);
        }
        let text: Vec<u8> = match transcode(bytes) {
            Some(out) => {
                proof {
                    if bytes@.len() == 0 {
                        assert(out@ =~= Seq::<u8>::empty());
                        assert(vstd::utf8::valid_utf8(out@));
                    }
                }
                decode_lossy(out.as_slice())
            },
            None => {
                return Err(CounterError::LexError("File cannot be decoded".to_owned()));
            },
        };
        if text.len() > usize::MAX / 4 {
            return Err(CounterError::LexError("File too large".to_owned()));
        }
        let lexer = match LexerFactory::get_lexer(lang) {
            Some(lexer) => lexer,
            None => {
                return Err(CounterError::LexError("Unknown language".to_owned()));
            },
        };
        match lexer.lex(text.as_slice()) {
            Ok(stat) => {
                let mut stat = stat;
                stat.lang = lang;
                stat.path = path.to_owned();
                stat.name = file_name_of(path).to_owned();
                Ok(stat)
            },
            Err(msg) => Err(CounterError::LexError(msg)),
        }
    }
}

} // verus!
