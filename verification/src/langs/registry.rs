//! Lookup of language definitions by language and by file extension.

use vstd::prelude::*;
use super::definitions;
use super::lang_def::{LangDef, LangRule};
use super::lang_type::{LangType, LANG_COUNT};
use super::pattern::{compile, patterns_compile, set_patterns};
use crate::syntax::text::str_eq;

verus! {

/// The rules of `lang`; `Unknown` has none.
pub open spec fn rule_of(lang: LangType) -> Option<LangRule> {
    match lang {
        LangType::Asciidoc => Some(definitions::asciidoc_rule()),
        LangType::Astro => Some(definitions::astro_rule()),
        LangType::C => Some(definitions::c_rule()),
        LangType::Clojure => Some(definitions::clojure_rule()),
        LangType::Cpp => Some(definitions::cpp_rule()),
        LangType::Csharp => Some(definitions::csharp_rule()),
        LangType::Css => Some(definitions::css_rule()),
        LangType::D => Some(definitions::d_rule()),
        LangType::Dart => Some(definitions::dart_rule()),
        LangType::Elm => Some(definitions::elm_rule()),
        LangType::Erlang => Some(definitions::erlang_rule()),
        LangType::Fsharp => Some(definitions::fsharp_rule()),
        LangType::Go => Some(definitions::go_rule()),
        LangType::Graphql => Some(definitions::graphql_rule()),
        LangType::H => Some(definitions::c_rule()),
        LangType::Hpp => Some(definitions::cpp_rule()),
        LangType::Haskell => Some(definitions::haskell_rule()),
        LangType::Html => Some(definitions::html_rule()),
        LangType::Java => Some(definitions::java_rule()),
        LangType::Javascript => Some(definitions::javascript_rule()),
        LangType::Json => Some(definitions::json_rule()),
        LangType::Jsonnet => Some(definitions::jsonnet_rule()),
        LangType::Julia => Some(definitions::julia_rule()),
        LangType::Kotlin => Some(definitions::kotlin_rule()),
        LangType::Lua => Some(definitions::lua_rule()),
        LangType::Markdown => Some(definitions::markdown_rule()),
        LangType::Nix => Some(definitions::nix_rule()),
        LangType::Ocaml => Some(definitions::ocaml_rule()),
        LangType::Php => Some(definitions::php_rule()),
        LangType::Python => Some(definitions::python_rule()),
        LangType::Qcl => Some(definitions::qcl_rule()),
        LangType::Qsharp => Some(definitions::qsharp_rule()),
        LangType::R => Some(definitions::r_rule()),
        LangType::Regex => Some(definitions::regex_rule()),
        LangType::Ruby => Some(definitions::ruby_rule()),
        LangType::Rust => Some(definitions::rust_rule()),
        LangType::Sass => Some(definitions::sass_rule()),
        LangType::Scala => Some(definitions::scala_rule()),
        LangType::Sql => Some(definitions::sql_rule()),
        LangType::Swift => Some(definitions::swift_rule()),
        LangType::Tcl => Some(definitions::tcl_rule()),
        LangType::Tex => Some(definitions::tex_rule()),
        LangType::Toml => Some(definitions::toml_rule()),
        LangType::Typescript => Some(definitions::typescript_rule()),
        LangType::V => Some(definitions::v_rule()),
        LangType::WenYan => Some(definitions::wenyan_rule()),
        LangType::Xml => Some(definitions::xml_rule()),
        LangType::Yaml => Some(definitions::yaml_rule()),
        LangType::Zig => Some(definitions::zig_rule()),
        LangType::Shell => Some(definitions::shell_rule()),
        LangType::Perl => Some(definitions::perl_rule()),
        LangType::Text => Some(definitions::text_rule()),
        LangType::Unknown => None,
    }
}

/// Whether the definition of `lang` lists `ext` among its extensions.
pub open spec fn lists_extension(lang: LangType, ext: Seq<char>) -> bool {
    rule_of(lang) matches Some(rule) && rule.extensions.contains(ext)
}

/// The language that `ext` resolves to: the first one, in the order of
/// declaration, whose definition lists it.
pub open spec fn type_of_ext(ext: Seq<char>) -> Option<LangType> {
    type_of_ext_from(ext, 0)
}

/// The first language at or after position `from` whose definition lists
/// `ext`.
pub open spec fn type_of_ext_from(ext: Seq<char>, from: int) -> Option<LangType>
    decreases LANG_COUNT - from,
{
    if from < 0 || from >= LANG_COUNT {
        None
    } else if lists_extension(LangType::spec_from_index(from), ext) {
        Some(LangType::spec_from_index(from))
    } else {
        type_of_ext_from(ext, from + 1)
    }
}

/// The definition of `lang`.
pub fn get_lang_def(lang: &LangType) -> (r: Option<LangDef>)
    ensures
        r is Some <==> rule_of(*lang) is Some,
        r matches Some(def) ==> Some(def@) == rule_of(*lang),
{
    match lang {
        LangType::Asciidoc => Some(definitions::asciidoc()),
        LangType::Astro => Some(definitions::astro()),
        LangType::C => Some(definitions::c()),
        LangType::Clojure => Some(definitions::clojure()),
        LangType::Cpp => Some(definitions::cpp()),
        LangType::Csharp => Some(definitions::csharp()),
        LangType::Css => Some(definitions::css()),
        LangType::D => Some(definitions::d()),
        LangType::Dart => Some(definitions::dart()),
        LangType::Elm => Some(definitions::elm()),
        LangType::Erlang => Some(definitions::erlang()),
        LangType::Fsharp => Some(definitions::fsharp()),
        LangType::Go => Some(definitions::go()),
        LangType::Graphql => Some(definitions::graphql()),
        LangType::H => Some(definitions::c()),
        LangType::Hpp => Some(definitions::cpp()),
        LangType::Haskell => Some(definitions::haskell()),
        LangType::Html => Some(definitions::html()),
        LangType::Java => Some(definitions::java()),
        LangType::Javascript => Some(definitions::javascript()),
        LangType::Json => Some(definitions::json()),
        LangType::Jsonnet => Some(definitions::jsonnet()),
        LangType::Julia => Some(definitions::julia()),
        LangType::Kotlin => Some(definitions::kotlin()),
        LangType::Lua => Some(definitions::lua()),
        LangType::Markdown => Some(definitions::markdown()),
        LangType::Nix => Some(definitions::nix()),
        LangType::Ocaml => Some(definitions::ocaml()),
        LangType::Php => Some(definitions::php()),
        LangType::Python => Some(definitions::python()),
        LangType::Qcl => Some(definitions::qcl()),
        LangType::Qsharp => Some(definitions::qsharp()),
        LangType::R => Some(definitions::r()),
        LangType::Regex => Some(definitions::regex()),
        LangType::Ruby => Some(definitions::ruby()),
        LangType::Rust => Some(definitions::rust()),
        LangType::Sass => Some(definitions::sass()),
        LangType::Scala => Some(definitions::scala()),
        LangType::Sql => Some(definitions::sql()),
        LangType::Swift => Some(definitions::swift()),
        LangType::Tcl => Some(definitions::tcl()),
        LangType::Tex => Some(definitions::tex()),
        LangType::Toml => Some(definitions::toml()),
        LangType::Typescript => Some(definitions::typescript()),
        LangType::V => Some(definitions::v()),
        LangType::WenYan => Some(definitions::wenyan()),
        LangType::Xml => Some(definitions::xml()),
        LangType::Yaml => Some(definitions::yaml()),
        LangType::Zig => Some(definitions::zig()),
        LangType::Shell => Some(definitions::shell()),
        LangType::Perl => Some(definitions::perl()),
        LangType::Text => Some(definitions::text()),
        LangType::Unknown => None,
    }
}

/// The compiled function-signature patterns of `lang`: there are none for a
/// language without a definition, nor where the patterns do not compile.
pub fn get_function_regex(lang: &LangType) -> (r: Option<regex::bytes::RegexSet>)
    ensures
        r is Some <==> (rule_of(*lang) matches Some(rule) && patterns_compile(
            rule.function_patterns,
        )),
        r matches Some(set) ==> Some(set_patterns(set)) == function_patterns_of(*lang),
{
    match get_lang_def(lang) {
        Some(def) => compile(&def.function_patterns),
        None => None,
    }
}

/// The compiled class patterns of `lang`: there are none for a language
/// without a definition, nor where the patterns do not compile.
pub fn get_class_regex(lang: &LangType) -> (r: Option<regex::bytes::RegexSet>)
    ensures
        r is Some <==> (rule_of(*lang) matches Some(rule) && patterns_compile(
            rule.class_patterns,
        )),
        r matches Some(set) ==> Some(set_patterns(set)) == class_patterns_of(*lang),
{
    match get_lang_def(lang) {
        Some(def) => compile(&def.class_patterns),
        None => None,
    }
}

/// The function-signature patterns of `lang`, in their order.
pub open spec fn function_patterns_of(lang: LangType) -> Option<Seq<Seq<char>>> {
    match rule_of(lang) {
        Some(rule) => Some(rule.function_patterns),
        None => None,
    }
}

/// The class patterns of `lang`, in their order.
pub open spec fn class_patterns_of(lang: LangType) -> Option<Seq<Seq<char>>> {
    match rule_of(lang) {
        Some(rule) => Some(rule.class_patterns),
        None => None,
    }
}

/// Whether one of `list` equals `ext`.
fn lists(list: &Vec<&'static str>, ext: &str) -> (r: bool)
    ensures
        r == super::lang_def::texts(list@).contains(ext@),
{
    let ghost all = super::lang_def::texts(list@);
    let mut i: usize = 0;
    while i < list.len()
        invariant
            i <= list@.len(),
            all == super::lang_def::texts(list@),
            forall|j: int| 0 <= j < i ==> all[j] != ext@,
        decreases list@.len() - i,
    {
        if str_eq(list[i], ext) {
            assert(all[i as int] == ext@);
            return true;
        }
        i = i + 1;
    }
    false
}

/// The language that the file extension `ext` resolves to: the first one,
/// in the order of declaration, whose definition lists it.
pub fn get_type_from_ext(ext: &str) -> (r: Option<LangType>)
    ensures
        r == type_of_ext(ext@),
        match r {
            Some(lang) => lists_extension(lang, ext@) && forall|j: int|
                0 <= j < lang.spec_index() ==> !lists_extension(LangType::spec_from_index(j), ext@),
            None => forall|j: int|
                0 <= j < LANG_COUNT ==> !lists_extension(LangType::spec_from_index(j), ext@),
        },
{
    let mut i: usize = 0;
    while i < LANG_COUNT
        invariant
            i <= LANG_COUNT,
            type_of_ext(ext@) == type_of_ext_from(ext@, i as int),
        decreases LANG_COUNT - i,
    {
        let lang = LangType::from_index(i);
        match get_lang_def(&lang) {
            Some(def) => {
                if lists(&def.extensions, ext) {
                    proof {
                        lemma_type_of_ext(ext@, 0);
                    }
                    return Some(lang);
                }
            },
            None => {},
        }
        i = i + 1;
    }
    proof {
        lemma_type_of_ext(ext@, 0);
    }
    None
}

/// What `type_of_ext` gives is the first language, in the order of
/// declaration, whose definition lists the extension; it gives nothing only
/// where no definition lists it.
pub proof fn lemma_type_of_ext(ext: Seq<char>, from: int)
    requires
        0 <= from,
    ensures
        match type_of_ext_from(ext, from) {
            Some(lang) => from <= lang.spec_index() < LANG_COUNT && lists_extension(lang, ext)
                && forall|j: int|
                from <= j < lang.spec_index() ==> !lists_extension(
                    LangType::spec_from_index(j),
                    ext,
                ),
            None => forall|j: int|
                from <= j < LANG_COUNT ==> !lists_extension(LangType::spec_from_index(j), ext),
        },
    decreases LANG_COUNT - from,
{
    if from < LANG_COUNT {
        if !lists_extension(LangType::spec_from_index(from), ext) {
            lemma_type_of_ext(ext, from + 1);
        }
    }
}

/// The name under which `lang` stands in a report: that of its definition,
/// or `Unknown` where it has none.
pub open spec fn label_of(lang: LangType) -> Seq<char> {
    match rule_of(lang) {
        Some(rule) => rule.name,
        None => lang.spec_name(),
    }
}

/// The name under which `lang` stands in a report.
pub fn display_name(lang: &LangType) -> (r: &'static str)
    ensures
        r@ == label_of(*lang),
{
    match get_lang_def(lang) {
        Some(def) => def.name,
        None => lang.name(),
    }
}

/// The names of all languages, in the order of declaration.
pub open spec fn language_names() -> Seq<Seq<char>> {
    Seq::new(LANG_COUNT as nat, |i: int| LangType::spec_from_index(i).spec_name())
}

/// The names of all languages, in the order of declaration.
pub fn supported_languages() -> (r: Vec<&'static str>)
    ensures
        super::lang_def::texts(r@) == language_names(),
{
    let mut out: Vec<&'static str> = Vec::new();
    let mut i: usize = 0;
    while i < LANG_COUNT
        invariant
            i <= LANG_COUNT,
            out@.len() == i,
            forall|j: int| 0 <= j < i ==> out@[j]@ == LangType::spec_from_index(j).spec_name(),
        decreases LANG_COUNT - i,
    {
        let lang = LangType::from_index(i);
        out.push(lang.name());
        i = i + 1;
    }
    assert(super::lang_def::texts(out@) =~= language_names());
    out
}

} // verus!
