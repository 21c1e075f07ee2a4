//! Which paths of a walk are descended into and which files are counted.

use vstd::prelude::*;
use vstd::string::StrSliceExecFns;
use vstd::utf8::encode_utf8;
use crate::config::{Config, ConfigView};
use crate::langs::lang_type::LangType;
use crate::langs::registry::{get_type_from_ext, type_of_ext};
use crate::syntax::text::{find, str_eq};
use crate::utils::path::{
    contains_bytes, ends_with_path, extension, extension_of, file_name, file_name_of,
    has_hidden_component, is_hidden, path_ends_with,
};
use crate::utils::strings::{lowercase, strs, to_lowercase};

verus! {

/// Whether the pattern `pattern` leaves the path `path` out by its last
/// components: the pattern is not empty and the path ends with it.
pub open spec fn cut_by(path: Seq<char>, pattern: Seq<char>) -> bool {
    pattern.len() > 0 && ends_with_path(encode_utf8(path), encode_utf8(pattern))
}

/// Whether the pattern `pattern` leaves the file `path` out: the path ends
/// with the pattern, or holds it somewhere when case is set aside.
pub open spec fn excluded_by(path: Seq<char>, pattern: Seq<char>) -> bool {
    pattern.len() > 0 && (ends_with_path(encode_utf8(path), encode_utf8(pattern)) || find(
        encode_utf8(lowercase(path)),
        encode_utf8(lowercase(pattern)),
    ) is Some)
}

/// Whether `lang` is one of the enabled languages `types`, case set aside.
pub open spec fn enabled(types: Seq<Seq<char>>, lang: LangType) -> bool {
    exists|i: int| 0 <= i < types.len() && lowercase(#[trigger] types[i]) == lowercase(lang.spec_name())
}

/// Whether the language of the file `path` is known and enabled.
pub open spec fn has_enabled_language(types: Seq<Seq<char>>, path: Seq<char>) -> bool {
    match extension(path) {
        Some(ext) => match type_of_ext(lowercase(ext)) {
            Some(lang) => enabled(types, lang),
            None => false,
        },
        None => false,
    }
}

/// Whether the walk yields the entry `path`: it is a file, none of its
/// components is hidden, no exclude pattern leaves it out, and its extension
/// names an enabled language.
pub open spec fn includes(config: ConfigView, path: Seq<char>, is_dir: bool) -> bool {
    &&& !is_dir
    &&& !has_hidden_component(encode_utf8(path))
    &&& forall|i: int|
        0 <= i < config.exclude_files.len() ==> !excluded_by(path, #[trigger] config.exclude_files[i])
    &&& has_enabled_language(config.types, path)
}

/// Whether the walk goes on below the entry `path`: always at a root and at
/// a file; at a directory unless it is hidden or its path ends with an
/// exclude pattern.
pub open spec fn descends(config: ConfigView, path: Seq<char>, is_root: bool, is_dir: bool) -> bool {
    is_root || !is_dir || !(starts_with_dot(file_name(path)) || exists|i: int|
        0 <= i < config.exclude_files.len() && cut_by(path, #[trigger] config.exclude_files[i]))
}

/// Whether `name` begins with a dot.
pub open spec fn starts_with_dot(name: Seq<char>) -> bool {
    name.len() > 0 && name[0] == '.'
}

/// Decides what a walk over the roots yields.
#[derive(Debug)]
pub struct FileReader {
    config: Config,
}

impl FileReader {
    /// The settings that the reader was made with.
    pub closed spec fn config(&self) -> Config {
        self.config
    }

    pub fn new(config: Config) -> (reader: Self)
        ensures
            reader.config() == config,
    {
        FileReader { config }
    }

    /// Whether `lang` is one of the enabled languages.
    fn is_enabled(&self, lang: &LangType) -> (r: bool)
        ensures
            r == enabled(self.config()@.types, *lang),
    {
        let name: String = to_lowercase(lang.name());
        let ghost types = strs(self.config.types@);
        let mut i: usize = 0;
        while i < self.config.types.len()
            invariant
                i <= self.config.types@.len(),
                types == strs(self.config.types@),
                name@ == lowercase(lang.spec_name()),
                forall|j: int| 0 <= j < i ==> lowercase(#[trigger] types[j]) != name@,
            decreases self.config.types@.len() - i,
        {
            let lowered: String = to_lowercase(self.config.types[i].as_str());
            if str_eq(lowered.as_str(), name.as_str()) {
                assert(lowercase(types[i as int]) == lowercase(lang.spec_name()));
                return true;
            }
            i = i + 1;
        }
        false
    }

    /// Whether the walk goes on below the entry `path`.
    pub fn descend(&self, path: &str, is_root: bool, is_dir: bool) -> (r: bool)
        ensures
            r == descends(self.config()@, path@, is_root, is_dir),
    {
        if is_root || !is_dir {
            return true;
        }
        let name: &str = file_name_of(path);
        if !name.is_empty() && name.get_char(0) == '.' {
            return false;
        }
        let ghost patterns = strs(self.config.exclude_files@);
        let mut i: usize = 0;
        while i < self.config.exclude_files.len()
            invariant
                i <= self.config.exclude_files@.len(),
                patterns == strs(self.config.exclude_files@),
                patterns == self.config()@.exclude_files,
                !is_root,
                is_dir,
                forall|j: int| 0 <= j < i ==> !cut_by(path@, #[trigger] patterns[j]),
            decreases self.config.exclude_files@.len() - i,
        {
            let pattern: &str = self.config.exclude_files[i].as_str();
            if !pattern.is_empty() && path_ends_with(path.as_bytes(), pattern.as_bytes()) {
                assert(cut_by(path@, patterns[i as int]));
                return false;
            }
            i = i + 1;
        }
        true
    }

    /// Whether the walk yields the entry `path`.
    pub fn include_entry(&self, path: &str, is_dir: bool) -> (r: bool)
        ensures
            r == includes(self.config()@, path@, is_dir),
    {
        if is_dir {
            return false;
        }
        if is_hidden(path.as_bytes()) {
            return false;
        }
        let lowered: String = to_lowercase(path);
        let ghost patterns = strs(self.config.exclude_files@);
        let mut i: usize = 0;
        while i < self.config.exclude_files.len()
            invariant
                i <= self.config.exclude_files@.len(),
                patterns == strs(self.config.exclude_files@),
                patterns == self.config()@.exclude_files,
                !is_dir,
                lowered@ == lowercase(path@),
                forall|j: int| 0 <= j < i ==> !excluded_by(path@, #[trigger] patterns[j]),
            decreases self.config.exclude_files@.len() - i,
        {
            let pattern: &str = self.config.exclude_files[i].as_str();
            if !pattern.is_empty() {
                let low: String = to_lowercase(pattern);
                if path_ends_with(path.as_bytes(), pattern.as_bytes()) || contains_bytes(
                    lowered.as_str().as_bytes(),
                    low.as_str().as_bytes(),
                ) {
                    assert(excluded_by(path@, patterns[i as int]));
                    return false;
                }
            }
            i = i + 1;
        }
        match extension_of(path) {
            Some(ext) => {
                let key: String = to_lowercase(ext);
                match get_type_from_ext(key.as_str()) {
                    Some(lang) => self.is_enabled(&lang),
                    None => false,
                }
            },
            None => false,
        }
    }
}

} // verus!
